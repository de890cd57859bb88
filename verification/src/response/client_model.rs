//! What the library takes on trust from the `reqwest` crate: the status, the headers and the
//! final URL of a response that a client received.

use crate::url_model::url_text;
use reqwest::Response;
use url::Url;
use vstd::prelude::*;
use vstd::utf8::*;

verus! {

/// `reqwest::Response`, a response as a client received it.
#[verifier::external_type_specification]
#[verifier::external_body]
pub struct ExInboundResponse(reqwest::Response);

/// The status code of a received response.
pub uninterp spec fn inbound_status(response: Response) -> u16;

/// The first value of the header that `HeaderMap::get` finds under the given name in a
/// received response.
pub uninterp spec fn inbound_header(response: Response, name: Seq<char>) -> Option<Seq<u8>>;

/// The serialization of the URL that a received response came from in the end.
pub uninterp spec fn inbound_url(response: Response) -> Seq<char>;

/// What `http` prints for a status code: the number, a space, and its reason phrase.
pub uninterp spec fn status_line(status: u16) -> Seq<char>;

/// What `String::from_utf8_lossy` makes of bytes: their text, with the replacement character
/// for what is no UTF-8.
pub uninterp spec fn lossy_text(bytes: Seq<u8>) -> Seq<char>;

/// `Response::status`, as a number.
#[verifier::external_body]
pub(crate) fn inbound_status_code(response: &Response) -> (status: u16)
    ensures
        status == inbound_status(*response),
{
    response.status().as_u16()
}

/// `Response::status`, printed.
#[verifier::external_body]
pub(crate) fn inbound_status_line(response: &Response) -> (line: String)
    ensures
        line@ == status_line(inbound_status(*response)),
{
    response.status().to_string()
}

/// `HeaderMap::get` on the headers of the response: the bytes of the first value under the
/// name.
#[verifier::external_body]
pub(crate) fn inbound_header_bytes(response: &Response, name: &str) -> (value: Option<Vec<u8>>)
    ensures
        match value {
            Some(bytes) => inbound_header(*response, name@) == Some(bytes@),
            None => inbound_header(*response, name@).is_none(),
        },
{
    response.headers().get(name).map(|value| value.as_bytes().to_vec())
}

/// `Response::url`: the URL that the response came from in the end.
#[verifier::external_body]
pub(crate) fn inbound_final_url(response: &Response) -> (url: &Url)
    ensures
        url_text(*url) == inbound_url(*response),
{
    response.url()
}

/// `String::from_utf8_lossy`. Bytes that are UTF-8 come back as the text that they encode.
#[verifier::external_body]
pub(crate) fn utf8_lossy(bytes: &[u8]) -> (text: String)
    ensures
        text@ == lossy_text(bytes@),
        valid_utf8(bytes@) ==> text@ == decode_utf8(bytes@),
{
    String::from_utf8_lossy(bytes).into_owned()
}

} // verus!
