//! Small verified helpers on text.

use vstd::prelude::*;
use vstd::utf8::*;

verus! {

/// What `{:?}` prints for a text: the text between double quotes, with the characters that
/// `str`'s `Debug` escapes written as their escapes.
pub uninterp spec fn debug_quoted(text: Seq<char>) -> Seq<char>;

/// `str`'s `Debug` through `format!`. The result is the quoted, escaped form of `text`, which
/// depends on nothing but the characters of `text`.
#[verifier::external_body]
pub(crate) fn debug_quote(text: &str) -> (quoted: String)
    ensures
        quoted@ == debug_quoted(text@),
{
    format!("{:?}", text)
}

/// Whether `i` is the position of the first `sep` in `text`.
pub open spec fn is_first_at(text: Seq<char>, sep: char, i: int) -> bool {
    &&& 0 <= i < text.len()
    &&& text[i] == sep
    &&& forall|j: int| 0 <= j < i ==> text[j] != sep
}

/// The texts before and after the first `sep` of `text`, where there is one.
pub open spec fn split_once_spec(text: Seq<char>, sep: char) -> Option<(Seq<char>, Seq<char>)> {
    if exists|i: int| is_first_at(text, sep, i) {
        let i = choose|i: int| is_first_at(text, sep, i);
        Some((text.take(i), text.skip(i + 1)))
    } else {
        None
    }
}

/// At most one position is the first.
pub proof fn lemma_first_unique(text: Seq<char>, sep: char, i: int, k: int)
    requires
        is_first_at(text, sep, i),
        is_first_at(text, sep, k),
    ensures
        i == k,
{
    if i < k {
        assert(text[i] != sep);
    } else if k < i {
        assert(text[k] != sep);
    }
}

/// The number of bytes that a text takes in UTF-8.
pub open spec fn byte_len(text: Seq<char>) -> nat {
    encode_utf8(text).len()
}

/// The number of bytes of `text`.
pub fn byte_count(text: &str) -> (count: usize)
    ensures
        count == byte_len(text@),
{
    text.as_bytes().len()
}

/// Whether two texts hold the same characters.
pub fn text_eq(a: &str, b: &str) -> (same: bool)
    ensures
        same == (a@ == b@),
{
    let x = a.as_bytes();
    let y = b.as_bytes();
    if x.len() != y.len() {
        return false;
    }
    let mut i: usize = 0;
    while i < x.len()
        invariant
            i <= x.len(),
            x.len() == y.len(),
            x@ == encode_utf8(a@),
            y@ == encode_utf8(b@),
            forall|j: int| 0 <= j < i ==> x@[j] == y@[j],
        decreases x.len() - i,
    {
        if x[i] != y[i] {
            return false;
        }
        i += 1;
    }
    proof {
        assert(x@ =~= y@);
        encode_utf8_decode_utf8(a@);
        encode_utf8_decode_utf8(b@);
    }
    true
}

/// Splits `text` at its first `sep`.
pub fn split_once(text: &str, sep: char) -> (parts: Option<(&str, &str)>)
    ensures
        match parts {
            Some((head, tail)) => split_once_spec(text@, sep) == Some((head@, tail@)),
            None => split_once_spec(text@, sep).is_none(),
        },
{
    let n = text.unicode_len();
    let mut i: usize = 0;
    for c in it: text.chars()
        invariant
            it.seq() == text@,
            i == it.index(),
            n == text@.len(),
            forall|j: int| 0 <= j < i ==> text@[j] != sep,
    {
        if c == sep {
            proof {
                assert(is_first_at(text@, sep, i as int));
                let k = choose|k: int| is_first_at(text@, sep, k);
                lemma_first_unique(text@, sep, i as int, k);
            }
            let head = text.substring_char(0, i);
            let tail = text.substring_char(i + 1, n);
            assert(head@ == text@.take(i as int));
            assert(tail@ == text@.skip(i + 1));
            return Some((head, tail));
        }
        i += 1;
    }
    assert forall|k: int| !is_first_at(text@, sep, k) by {}
    None
}

} // verus!
