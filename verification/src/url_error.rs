//! A fallback channel for errors: where no script can read a response body, the path of the
//! failed call and the error travel as two parameters in the query of a URL, and are taken
//! out of it again once read.

use crate::error::{keeps_contract, line_of, wire_or_text, CustomServerFnError,
    ServerFnErrorErr};
use crate::text::{byte_count, byte_len, text_eq};
use crate::url_model::{escaped_len, escaped_len_of_bytes, is_one_byte_in_query, is_url_text,
    pair_fits, parse_url, parsed, query_pairs_of, url_append_pair, url_as_str, url_clear_pairs,
    url_query_pairs, url_text, with_pair, without_pairs, UrlParseError};
use url::Url;
use vstd::prelude::*;
use vstd::utf8::*;

verus! {

/// Name of the query parameter that carries the path of the failed call.
pub const PATH_PARAM: &'static str = "__path";

/// Name of the query parameter that carries the error.
pub const ERROR_PARAM: &'static str = "__err";

/// Whether a query parameter of this name belongs to the channel.
pub open spec fn is_channel_key(key: Seq<char>) -> bool {
    key == "__path"@ || key == "__err"@
}

/// The pairs of a query that do not belong to the channel, in their order.
pub open spec fn kept_pairs(pairs: Seq<(Seq<char>, Seq<char>)>) -> Seq<(Seq<char>, Seq<char>)> {
    pairs.filter(|pair: (Seq<char>, Seq<char>)| !is_channel_key(pair.0))
}

/// The serialization of the URL `text` once `pairs` have joined its query one after the
/// other; `None` where one of them would take the URL, as it then stands, beyond the 4 GiB
/// that a URL may have (see `pair_fits`).
pub open spec fn extended(text: Seq<char>, pairs: Seq<(Seq<char>, Seq<char>)>) -> Option<
    Seq<char>,
>
    decreases pairs.len(),
{
    if pairs.len() == 0 {
        Some(text)
    } else {
        match extended(text, pairs.drop_last()) {
            Some(so_far) => if pair_fits(so_far, pairs.last().0, pairs.last().1) {
                Some(with_pair(so_far, pairs.last().0, pairs.last().1))
            } else {
                None
            },
            None => None,
        }
    }
}

/// What attaching a call path and an error line to `base` gives: the serialization of the
/// URL with the two parameters at the end of its query; or why there is none: the reason why
/// `base` is no URL, or `Overflow` where the URL with the two parameters would pass the
/// 4 GiB that a URL may have.
pub open spec fn attached(base: Seq<char>, path: Seq<char>, line: Seq<char>) -> Result<
    Seq<char>,
    UrlParseError,
> {
    match parsed(base) {
        Ok(text) => match extended(text, seq![("__path"@, path), ("__err"@, line)]) {
            Some(full) => Ok(full),
            None => Err(UrlParseError::Overflow),
        },
        Err(e) => Err(e),
    }
}

/// Whether `text` is a URL whose query can be rebuilt without the parameters of the channel:
/// a URL of less than 4 GiB that stays within 4 GiB when the pairs that stay join the
/// emptied query again, each as it is then written. A pair may be written longer than it
/// stood in the query, so a URL close to 4 GiB may fail.
pub open spec fn strippable(text: Seq<char>) -> bool {
    &&& parsed(text) matches Ok(url)
    &&& byte_len(url) < u32::MAX
    &&& extended(without_pairs(url), kept_pairs(query_pairs_of(url))).is_some()
}

/// What stripping makes of `text`. A text that is no URL stays as it is. Of a URL the query
/// is emptied and the pairs that do not belong to the channel join it again in their order.
/// A URL that cannot be rebuilt so (see `strippable`) stays as it is too, the parameters of
/// the channel included.
pub open spec fn stripped(text: Seq<char>) -> Seq<char> {
    match parsed(text) {
        Ok(url) => if byte_len(url) < u32::MAX {
            match extended(without_pairs(url), kept_pairs(query_pairs_of(url))) {
                Some(rebuilt) => rebuilt,
                None => text,
            }
        } else {
            text
        },
        Err(_) => text,
    }
}

/// What holds of the outcome of attaching a call path and an error line to `base`. The
/// outcome is what `attached` says. A URL that comes out has the query of `base` with the
/// two parameters after it, and its serialization parses to itself.
pub open spec fn attaches(
    base: Seq<char>,
    path: Seq<char>,
    line: Seq<char>,
    outcome: Result<Url, UrlParseError>,
) -> bool {
    match outcome {
        Ok(url) => {
            &&& attached(base, path, line) == Ok::<Seq<char>, UrlParseError>(url_text(url))
            &&& is_url_text(url_text(url))
            &&& query_pairs_of(url_text(url)) == query_pairs_of(parsed(base)->Ok_0).push(
                ("__path"@, path),
            ).push(("__err"@, line))
        },
        Err(e) => attached(base, path, line) == Err::<Seq<char>, UrlParseError>(e),
    }
}

/// What holds of a text before and after stripping. The text after is what `stripped` says.
/// Where the text before is a URL that can be rebuilt, the text after is a URL too, and its
/// query holds the pairs of the first that do not belong to the channel, in their order.
pub open spec fn strips(before: Seq<char>, after: Seq<char>) -> bool {
    &&& after == stripped(before)
    &&& strippable(before) ==> {
        &&& is_url_text(after)
        &&& query_pairs_of(after) == kept_pairs(query_pairs_of(parsed(before)->Ok_0))
    }
}

/// Once a pair does not fit, no longer run of pairs does.
pub proof fn lemma_extended_none(
    text: Seq<char>,
    done: Seq<(Seq<char>, Seq<char>)>,
    rest: Seq<(Seq<char>, Seq<char>)>,
)
    requires
        extended(text, done).is_none(),
    ensures
        extended(text, done + rest).is_none(),
    decreases rest.len(),
{
    if rest.len() == 0 {
        assert(done + rest =~= done);
    } else {
        lemma_extended_none(text, done, rest.drop_last());
        assert((done + rest).drop_last() =~= done + rest.drop_last());
    }
}

/// An error together with the path of the call that raised it.
#[derive(Debug)]
pub struct ServerFnUrlError<CustErr = ServerFnErrorErr> {
    path: String,
    error: CustErr,
}

impl<CustErr> ServerFnUrlError<CustErr> {
    /// The path of the call, as the contracts see it.
    pub closed spec fn path_text(&self) -> Seq<char> {
        self.path@
    }

    /// The error, as the contracts see it.
    pub closed spec fn error_value(&self) -> &CustErr {
        &self.error
    }

    /// Associates the call at `path` with `error`.
    pub fn new(path: &str, error: CustErr) -> (pathed: Self)
        ensures
            pathed.path_text() == path@,
            *pathed.error_value() == error,
    {
        Self { path: String::from_str(path), error }
    }

    /// The error itself.
    pub fn error(&self) -> (error: &CustErr)
        ensures
            error == self.error_value(),
    {
        &self.error
    }

    /// The path of the call that raised the error.
    pub fn path(&self) -> (path: &str)
        ensures
            path@ == self.path_text(),
    {
        self.path.as_str()
    }

    /// Adds the path and the error to the query of `base`, as its last two parameters:
    /// `__path` with the path as it is, `__err` with the wire form of the error, or with its
    /// rendering where it has no wire form. Fails where `base` is no URL, with the reason.
    /// Fails with `Overflow` where the URL with the two parameters would pass the 4 GiB
    /// that a URL may have, and only there. Which
    /// line stands for the error is known of an error type that keeps to its contract.
    pub fn to_url(&self, base: &str) -> (outcome: Result<Url, UrlParseError>)
        where CustErr: CustomServerFnError
        ensures
            exists|line: Seq<char>| attaches(base@, self.path_text(), line, outcome),
            keeps_contract::<CustErr>() ==> attaches(
                base@,
                self.path_text(),
                line_of(self.error_value()),
                outcome,
            ),
    {
        let line = wire_or_text(&self.error);
        let outcome = attach(base, self.path.as_str(), line.as_str());
        assert(attaches(base@, self.path_text(), line@, outcome));
        outcome
    }
}

/// Adds a call path and the line that stands for an error to the query of `base`, as its
/// last two parameters, `__path` and `__err`. Fails where `base` is no URL, with the reason.
/// Fails with `Overflow` where the URL with the two parameters would pass the 4 GiB that a
/// URL may have, and only there.
pub fn attach(base: &str, path: &str, line: &str) -> (outcome: Result<Url, UrlParseError>)
    ensures
        attaches(base@, path@, line@, outcome),
{
    let mut url = match parse_url(base) {
        Ok(url) => url,
        Err(e) => { return Err(e); },
    };
    proof {
        let ghost pairs = seq![("__path"@, path@), ("__err"@, line@)];
        assert(pairs.drop_last() =~= seq![("__path"@, path@)]);
        assert(pairs.drop_last().drop_last() =~= Seq::<(Seq<char>, Seq<char>)>::empty());
        reveal_with_fuel(extended, 3);
    }
    if !try_append(&mut url, PATH_PARAM, path) {
        return Err(UrlParseError::Overflow);
    }
    if !try_append(&mut url, ERROR_PARAM, line) {
        return Err(UrlParseError::Overflow);
    }
    Ok(url)
}

impl ServerFnUrlError {
    /// Takes what the channel added out of the URL in `path`: the parameters `__path` and
    /// `__err` leave its query, every other parameter stays, in its order. A text that is no
    /// URL is left as it is. So is a URL of 4 GiB or more, and one that, rebuilt, would
    /// pass the 4 GiB that a URL may have (see `strippable`): it keeps its parameters.
    pub fn strip_error_info(path: &mut String)
        ensures
            strips(old(path)@, final(path)@),
    {
        match stripped_url(path.as_str()) {
            Some(rebuilt) => {
                *path = rebuilt;
            },
            None => {},
        }
    }
}

/// The URL in `text` without what the channel added: its query emptied and filled again with
/// the pairs that are not named `__path` or `__err`, in their order. `None` where `text` is
/// no URL, and where the URL has 4 GiB or more or, rebuilt, would pass them (see
/// `strippable`).
pub fn stripped_url(text: &str) -> (rebuilt: Option<String>)
    ensures
        rebuilt is Some <==> strippable(text@),
        rebuilt matches Some(url) ==> {
            &&& url@ == stripped(text@)
            &&& is_url_text(url@)
            &&& query_pairs_of(url@) == kept_pairs(query_pairs_of(parsed(text@)->Ok_0))
        },
{
    let mut url = match parse_url(text) {
        Ok(url) => url,
        Err(_) => { return None; },
    };
    if byte_count(url_as_str(&url)) as u128 >= u32::MAX as u128 {
        return None;
    }
    let ghost start = url_text(url);
    let kept = keep_pairs(url_query_pairs(&url));
    let ghost want = kept.deep_view();
    url_clear_pairs(&mut url);
    let ghost cleared = url_text(url);
    let mut i: usize = 0;
    while i < kept.len()
        invariant
            i <= kept.len(),
            parsed(text@) == Ok::<Seq<char>, UrlParseError>(start),
            byte_len(start) < u32::MAX,
            want == kept_pairs(query_pairs_of(start)),
            cleared == without_pairs(start),
            kept.deep_view() == want,
            extended(cleared, want.take(i as int)) == Some(url_text(url)),
            query_pairs_of(url_text(url)) == want.take(i as int),
            is_url_text(url_text(url)),
        decreases kept.len() - i,
    {
        let key = kept[i].0.as_str();
        let value = kept[i].1.as_str();
        proof {
            assert(want[i as int] == (key@, value@));
            assert(want.take(i + 1).drop_last() =~= want.take(i as int));
            assert(want.take(i + 1) =~= want.take(i as int).push(want[i as int]));
        }
        if !try_append(&mut url, key, value) {
            proof {
                assert(extended(cleared, want.take(i + 1)).is_none());
                assert(want =~= want.take(i + 1) + want.skip(i + 1));
                lemma_extended_none(cleared, want.take(i + 1), want.skip(i + 1));
            }
            return None;
        }
        i += 1;
    }
    assert(want.take(i as int) =~= want);
    Some(String::from_str(url_as_str(&url)))
}

impl From<ServerFnUrlError> for ServerFnErrorErr {
    fn from(error: ServerFnUrlError) -> (err: ServerFnErrorErr) {
        error.error
    }
}

impl vstd::std_specs::convert::FromSpecImpl<ServerFnUrlError> for ServerFnErrorErr {
    open spec fn obeys_from_spec() -> bool {
        true
    }

    open spec fn from_spec(error: ServerFnUrlError) -> ServerFnErrorErr {
        *error.error_value()
    }
}

/// Whether a query parameter of this name belongs to the channel: whether it is `__path`
/// or `__err`, letter for letter.
pub fn is_channel_param(key: &str) -> (found: bool)
    ensures
        found == is_channel_key(key@),
{
    text_eq(key, PATH_PARAM) || text_eq(key, ERROR_PARAM)
}

/// The pairs of a query that stay when the channel is taken out of it: all but those named
/// `__path` or `__err`, in their order and as often as they occur.
pub fn keep_pairs(pairs: Vec<(String, String)>) -> (kept: Vec<(String, String)>)
    ensures
        kept.deep_view() == kept_pairs(pairs.deep_view()),
{
    let ghost all = pairs.deep_view();
    let mut kept: Vec<(String, String)> = Vec::new();
    for pair in it: pairs
        invariant
            it.seq().len() == all.len(),
            forall|j: int| 0 <= j < all.len() ==> all[j] == (#[trigger] it.seq()[j]).deep_view(),
            kept.deep_view() == kept_pairs(all.take(it.index())),
    {
        proof {
            let ghost i = it.index();
            assert(all.take(i + 1) =~= all.take(i).push(all[i]));
            lemma_kept_push(all.take(i), all[i]);
        }
        if !is_channel_param(pair.0.as_str()) {
            kept.push(pair);
        }
    }
    assert(all.take(all.len() as int) =~= all);
    kept
}

/// The number of bytes that a name or a value takes once it is written in a query: one for
/// each byte that is a letter, a digit, a space or one of `*`, `-`, `.`, `_`, three for each
/// other byte.
pub fn escaped_count(text: &str) -> (count: u128)
    ensures
        count == escaped_len(text@),
        count <= 3 * usize::MAX,
{
    let bytes = text.as_bytes();
    let mut count: u128 = 0;
    let mut i: usize = 0;
    while i < bytes.len()
        invariant
            i <= bytes.len(),
            bytes@ == encode_utf8(text@),
            count == escaped_len_of_bytes(bytes@.take(i as int)),
            count <= 3 * i,
        decreases bytes.len() - i,
    {
        let byte = bytes[i];
        proof {
            assert(bytes@.take(i + 1).drop_last() =~= bytes@.take(i as int));
            assert(bytes@.take(i + 1).last() == byte);
        }
        if is_plain_in_query(byte) {
            count = count + 1;
        } else {
            count = count + 3;
        }
        i += 1;
    }
    assert(bytes@.take(i as int) =~= bytes@);
    count
}

/// Whether a byte is written in a query as one byte.
fn is_plain_in_query(byte: u8) -> (plain: bool)
    ensures
        plain == is_one_byte_in_query(byte),
{
    byte == 0x20 || byte == 0x2a || byte == 0x2d || byte == 0x2e || byte == 0x5f || (0x30 <= byte
        && byte <= 0x39) || (0x41 <= byte && byte <= 0x5a) || (0x61 <= byte && byte <= 0x7a)
}

/// Appends a pair to the query of `url` where it fits, and says whether it did.
fn try_append(url: &mut Url, key: &str, value: &str) -> (done: bool)
    requires
        is_url_text(url_text(*old(url))),
    ensures
        done == pair_fits(url_text(*old(url)), key@, value@),
        done ==> url_text(*final(url)) == with_pair(url_text(*old(url)), key@, value@),
        done ==> query_pairs_of(url_text(*final(url))) == query_pairs_of(
            url_text(*old(url)),
        ).push((key@, value@)),
        !done ==> *final(url) == *old(url),
        is_url_text(url_text(*final(url))),
{
    let have: u128 = byte_count(url_as_str(url)) as u128;
    let key_len: u128 = escaped_count(key);
    let value_len: u128 = escaped_count(value);
    if have + key_len + value_len + 2 <= u32::MAX as u128 {
        url_append_pair(url, key, value);
        true
    } else {
        false
    }
}

/// A pair that joins a query at its end is kept at the end, or not at all.
pub proof fn lemma_kept_push(pairs: Seq<(Seq<char>, Seq<char>)>, pair: (Seq<char>, Seq<char>))
    ensures
        kept_pairs(pairs.push(pair)) == if is_channel_key(pair.0) {
            kept_pairs(pairs)
        } else {
            kept_pairs(pairs).push(pair)
        },
{
    reveal_with_fuel(Seq::filter, 2);
    assert(pairs.push(pair).drop_last() =~= pairs);
}

/// Where no pair of a query belongs to the channel, all of them are kept.
pub proof fn lemma_kept_all(pairs: Seq<(Seq<char>, Seq<char>)>)
    requires
        forall|i: int| 0 <= i < pairs.len() ==> !is_channel_key(#[trigger] pairs[i].0),
    ensures
        kept_pairs(pairs) == pairs,
    decreases pairs.len(),
{
    reveal_with_fuel(Seq::filter, 2);
    if pairs.len() > 0 {
        lemma_kept_all(pairs.drop_last());
        assert(pairs.drop_last().push(pairs.last()) =~= pairs);
    }
}

/// Stripping undoes attaching. Let `base` be a URL whose query holds no parameter of the
/// channel, let `url` be what attaching a path and an error line to it gave, and `after` what
/// stripping made of the text of `url`. Then `after` is a URL. Where the attached URL can be
/// rebuilt (see `strippable`), the query of `after` holds the pairs of `base`: the same
/// names and values, in the same order, as often. Where it cannot, `after` is the attached
/// URL as it was.
pub proof fn lemma_strip_after_attach(
    base: Seq<char>,
    path: Seq<char>,
    line: Seq<char>,
    url: Url,
    after: Seq<char>,
)
    requires
        attaches(base, path, line, Ok(url)),
        strips(url_text(url), after),
        forall|i: int|
            0 <= i < query_pairs_of(parsed(base)->Ok_0).len() ==> !is_channel_key(
                #[trigger] query_pairs_of(parsed(base)->Ok_0)[i].0,
            ),
    ensures
        is_url_text(after),
        strippable(url_text(url)) ==> query_pairs_of(after) == query_pairs_of(parsed(base)->Ok_0),
        !strippable(url_text(url)) ==> after == url_text(url),
{
    let before = query_pairs_of(parsed(base)->Ok_0);
    let with_path = before.push(("__path"@, path));
    lemma_kept_push(before, ("__path"@, path));
    lemma_kept_push(with_path, ("__err"@, line));
    lemma_kept_all(before);
}

/// Stripping is safe on what is no URL: the text stays as it is.
pub proof fn lemma_strip_leaves_other_text(text: Seq<char>)
    requires
        parsed(text) is Err,
    ensures
        stripped(text) == text,
        forall|after: Seq<char>| strips(text, after) ==> after == text,
{
}

} // verus!
