//! What the library takes on trust from the `url` crate: parsing a text as a URL, reading and
//! rewriting the query of a URL as name/value pairs, and the text of a URL.
//!
//! A URL is known to the contracts by its serialization, the text that `Url::as_str` returns:
//! the crate itself compares, orders and hashes URLs by that text alone.

use crate::text::byte_len;
use url::{ParseError, Url};
use vstd::prelude::*;
use vstd::utf8::*;

verus! {

/// `url::Url`, a parsed URL.
#[verifier::external_type_specification]
#[verifier::external_body]
pub struct ExUrl(url::Url);

/// Why a text is no URL: the variants of `url::ParseError`, and `Other` for one that a later
/// version of the crate may add.
#[derive(Debug, Clone, Copy, PartialEq, Eq, Hash, Structural)]
pub enum UrlParseError {
    EmptyHost,
    IdnaError,
    InvalidPort,
    InvalidIpv4Address,
    InvalidIpv6Address,
    InvalidDomainCharacter,
    RelativeUrlWithoutBase,
    RelativeUrlWithCannotBeABaseBase,
    SetHostOnCannotBeABaseUrl,
    Overflow,
    Other,
}

/// The serialization of a URL.
pub uninterp spec fn url_text(url: Url) -> Seq<char>;

/// What `Url::parse` makes of a text: the serialization of the URL that it stands for, or the
/// reason why it stands for none.
pub uninterp spec fn parsed(text: Seq<char>) -> Result<Seq<char>, UrlParseError>;

/// The name/value pairs, percent-decoded and in order, that `Url::query_pairs` reads in the
/// query of the URL with the given serialization.
pub uninterp spec fn query_pairs_of(text: Seq<char>) -> Seq<(Seq<char>, Seq<char>)>;

/// The serialization of a URL after `append_pair` has added a pair to its query.
pub uninterp spec fn with_pair(text: Seq<char>, key: Seq<char>, value: Seq<char>) -> Seq<char>;

/// The serialization of a URL after `clear` has emptied its query.
pub uninterp spec fn without_pairs(text: Seq<char>) -> Seq<char>;

/// Whether a text is the serialization of a URL: parsing it gives it back.
pub open spec fn is_url_text(text: Seq<char>) -> bool {
    parsed(text) == Ok::<Seq<char>, UrlParseError>(text)
}

/// Whether a byte of a name or a value stands in a query as one byte: a letter, a digit,
/// one of `*`, `-`, `.`, `_`, or the space, which is written as `+`. Every other byte is
/// written as a percent sign and two digits.
pub open spec fn is_one_byte_in_query(byte: u8) -> bool {
    ||| byte == 0x20
    ||| byte == 0x2a
    ||| byte == 0x2d
    ||| byte == 0x2e
    ||| byte == 0x5f
    ||| 0x30 <= byte <= 0x39
    ||| 0x41 <= byte <= 0x5a
    ||| 0x61 <= byte <= 0x7a
}

/// The number of bytes that the given bytes take in a query: one or three for each.
pub open spec fn escaped_len_of_bytes(bytes: Seq<u8>) -> nat
    decreases bytes.len(),
{
    if bytes.len() == 0 {
        0
    } else if is_one_byte_in_query(bytes.last()) {
        escaped_len_of_bytes(bytes.drop_last()) + 1
    } else {
        escaped_len_of_bytes(bytes.drop_last()) + 3
    }
}

/// The number of bytes that a name or a value takes in a query.
pub open spec fn escaped_len(text: Seq<char>) -> nat {
    escaped_len_of_bytes(encode_utf8(text))
}

/// Whether the URL stays within the crate's limit of 4 GiB for a serialization when a pair
/// joins its query. The pair adds its name and its value as they are written in a query,
/// an `=` between them, and one byte before them, `?` or `&`.
pub open spec fn pair_fits(text: Seq<char>, key: Seq<char>, value: Seq<char>) -> bool {
    byte_len(text) + escaped_len(key) + escaped_len(value) + 2 <= u32::MAX
}

/// `Url::parse`. The result depends on the text alone. A URL that it returns serializes to a
/// text that parses to the same URL again.
#[verifier::external_body]
pub(crate) fn parse_url(text: &str) -> (outcome: Result<Url, UrlParseError>)
    ensures
        match outcome {
            Ok(url) => parsed(text@) == Ok::<Seq<char>, UrlParseError>(url_text(url))
                && is_url_text(url_text(url)),
            Err(e) => parsed(text@) == Err::<Seq<char>, UrlParseError>(e),
        },
{
    match Url::parse(text) {
        Ok(url) => Ok(url),
        Err(ParseError::EmptyHost) => Err(UrlParseError::EmptyHost),
        Err(ParseError::IdnaError) => Err(UrlParseError::IdnaError),
        Err(ParseError::InvalidPort) => Err(UrlParseError::InvalidPort),
        Err(ParseError::InvalidIpv4Address) => Err(UrlParseError::InvalidIpv4Address),
        Err(ParseError::InvalidIpv6Address) => Err(UrlParseError::InvalidIpv6Address),
        Err(ParseError::InvalidDomainCharacter) => Err(UrlParseError::InvalidDomainCharacter),
        Err(ParseError::RelativeUrlWithoutBase) => Err(UrlParseError::RelativeUrlWithoutBase),
        Err(ParseError::RelativeUrlWithCannotBeABaseBase) => Err(UrlParseError::RelativeUrlWithCannotBeABaseBase),
        Err(ParseError::SetHostOnCannotBeABaseUrl) => Err(UrlParseError::SetHostOnCannotBeABaseUrl),
        Err(ParseError::Overflow) => Err(UrlParseError::Overflow),
        Err(_) => Err(UrlParseError::Other),
    }
}

/// `Url::as_str`: the serialization of the URL.
#[verifier::external_body]
pub(crate) fn url_as_str(url: &Url) -> (text: &str)
    ensures
        text@ == url_text(*url),
{
    url.as_str()
}

/// `Url::query_pairs`, collected: the pairs in the query of the URL, decoded and in order.
#[verifier::external_body]
pub(crate) fn url_query_pairs(url: &Url) -> (pairs: Vec<(String, String)>)
    ensures
        pairs.deep_view() == query_pairs_of(url_text(*url)),
{
    url.query_pairs().map(|(key, value)| (key.into_owned(), value.into_owned())).collect()
}

/// `clear` on `Url::query_pairs_mut`: the query is left present and empty, the rest of the
/// URL as it was. The limit keeps the `?` that a URL without a query gains within 4 GiB.
#[verifier::external_body]
pub(crate) fn url_clear_pairs(url: &mut Url)
    requires
        byte_len(url_text(*old(url))) < u32::MAX,
    ensures
        url_text(*final(url)) == without_pairs(url_text(*old(url))),
        query_pairs_of(url_text(*final(url))) == Seq::<(Seq<char>, Seq<char>)>::empty(),
        is_url_text(url_text(*final(url))),
{
    url.query_pairs_mut().clear();
}

/// `append_pair` on `Url::query_pairs_mut`: the pair is escaped and joins the query as its
/// last pair, the rest of the URL stays as it was. The limit keeps the URL with the pair
/// within 4 GiB, beyond which the crate panics.
#[verifier::external_body]
pub(crate) fn url_append_pair(url: &mut Url, key: &str, value: &str)
    requires
        pair_fits(url_text(*old(url)), key@, value@),
    ensures
        url_text(*final(url)) == with_pair(url_text(*old(url)), key@, value@),
        query_pairs_of(url_text(*final(url))) == query_pairs_of(url_text(*old(url))).push(
            (key@, value@),
        ),
        is_url_text(url_text(*final(url))),
{
    url.query_pairs_mut().append_pair(key, value);
}

} // verus!
