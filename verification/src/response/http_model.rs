//! What the library takes on trust from the `http`, `axum` and `bytes` crates: an HTTP
//! response with a status, headers and a body, and the text that a header value may hold.
//!
//! A response is known to the contracts by three things: its status code, its headers (each
//! name, in lower case, with its values in order) and the bytes of its body.

use axum::body::Body;
use axum::http::{HeaderValue, Response, StatusCode};
use bytes::Bytes;
use vstd::prelude::*;
use vstd::utf8::*;

verus! {

/// `http::Response`, an HTTP response with a body of type `T`.
#[verifier::external_type_specification]
#[verifier::external_body]
#[verifier::reject_recursive_types(T)]
pub struct ExResponse<T>(axum::http::Response<T>);

/// `axum::body::Body`, the body of a response.
#[verifier::external_type_specification]
#[verifier::external_body]
pub struct ExBody(axum::body::Body);

/// `bytes::Bytes`, a buffer of bytes.
#[verifier::external_type_specification]
#[verifier::external_body]
pub struct ExBytes(bytes::Bytes);

/// `http::HeaderValue`, the value of a header.
#[verifier::external_type_specification]
#[verifier::external_body]
pub struct ExHeaderValue(axum::http::HeaderValue);

/// `http::Error`, what the builder of a response fails with.
#[verifier::external_type_specification]
#[verifier::external_body]
pub struct ExHttpError(axum::http::Error);

/// What `http` prints for an error of its own.
pub uninterp spec fn http_error_message(error: axum::http::Error) -> Seq<char>;

/// The status code of a response.
pub uninterp spec fn response_status(response: Response<Body>) -> u16;

/// The headers of a response: each name, in lower case, with its values in order.
pub uninterp spec fn response_headers(response: Response<Body>) -> Map<Seq<char>, Seq<Seq<u8>>>;

/// The bytes of the body of a response.
pub uninterp spec fn response_body(response: Response<Body>) -> Seq<u8>;

/// The bytes of a body. A body made from a buffer holds the bytes of the buffer; of a body
/// that is produced lazily the contracts say only which response carries it.
pub uninterp spec fn body_bytes(body: Body) -> Seq<u8>;

/// The bytes in a buffer.
pub uninterp spec fn bytes_of(data: Bytes) -> Seq<u8>;

/// The bytes of a header value.
pub uninterp spec fn header_value_bytes(value: HeaderValue) -> Seq<u8>;

/// Whether the headers of a response take a value under the given name. They refuse one
/// only when they have grown to the size at which the crate stops.
pub uninterp spec fn accepts_header(response: Response<Body>, name: Seq<char>) -> bool;

/// The headers of a response that has none.
pub open spec fn no_headers() -> Map<Seq<char>, Seq<Seq<u8>>> {
    Map::empty()
}

/// Whether a character may stand in the value of a header: a tab, or anything from the space
/// on but the delete character.
pub open spec fn is_header_char(c: char) -> bool {
    c == '\t' || (c as u32 >= 32 && c as u32 != 127)
}

/// Whether a text may be the value of a header.
pub open spec fn is_header_text(text: Seq<char>) -> bool {
    forall|i: int| 0 <= i < text.len() ==> is_header_char(#[trigger] text[i])
}

/// Whether a text is a header name of the plainest kind: up to 64 lower-case letters and
/// hyphens.
pub open spec fn is_plain_header_name(name: Seq<char>) -> bool {
    &&& 0 < name.len() <= 64
    &&& forall|i: int| 0 <= i < name.len() ==> ('a' <= #[trigger] name[i] <= 'z' || name[i] == '-')
}

/// `Body::from` for a `String`: a body that holds the bytes of the text.
#[verifier::external_body]
pub(crate) fn body_from_string(data: String) -> (body: Body)
    ensures
        body_bytes(body) == encode_utf8(data@),
{
    Body::from(data)
}

/// `Body::from` for `Bytes`: a body that holds the bytes of the buffer.
#[verifier::external_body]
pub(crate) fn body_from_bytes(data: Bytes) -> (body: Body)
    ensures
        body_bytes(body) == bytes_of(data),
{
    Body::from(data)
}

/// `Response::new`: a response with the ok status, no headers, and the body. Its headers
/// take a value under any plain name: the first header always finds room.
#[verifier::external_body]
pub(crate) fn new_response(body: Body) -> (fresh: Response<Body>)
    ensures
        response_status(fresh) == 200,
        response_headers(fresh) == no_headers(),
        response_body(fresh) == body_bytes(body),
        forall|n: Seq<char>| is_plain_header_name(n) ==> #[trigger] accepts_header(fresh, n),
{
    Response::new(body)
}

/// `Response::builder` with a status, one header and a body. With a status that is a status
/// code and a plain header name, all that can fail is the value of the header, and the error
/// then prints as `http` prints a header value that does not parse. The headers of the
/// response that comes out take a value under any plain name: with one header in them there
/// is room for one more.
#[verifier::external_body]
pub(crate) fn build_response(status: u16, name: &str, value: &str, body: Body) -> (built: Result<
    Response<Body>,
    axum::http::Error,
>)
    requires
        100 <= status <= 999,
        is_plain_header_name(name@),
    ensures
        built is Ok <==> is_header_text(value@),
        built matches Ok(response) ==> {
            &&& response_status(response) == status
            &&& response_headers(response) == no_headers().insert(name@, seq![encode_utf8(value@)])
            &&& response_body(response) == body_bytes(body)
            &&& forall|n: Seq<char>| is_plain_header_name(n) ==> #[trigger] accepts_header(response, n)
        },
        built matches Err(error) ==> http_error_message(error) == "failed to parse header value"@,
{
    Response::builder().status(status).header(name, value).body(body)
}

/// `Display` of `http::Error`: the error as `http` prints it.
#[verifier::external_body]
pub(crate) fn http_error_text(error: &axum::http::Error) -> (message: String)
    ensures
        message@ == http_error_message(*error),
{
    error.to_string()
}

/// `HeaderValue::from_str`: the value that holds the bytes of the text, where every one of
/// its characters may stand in a header.
#[verifier::external_body]
pub(crate) fn header_value_from_str(text: &str) -> (value: Option<HeaderValue>)
    ensures
        value is Some <==> is_header_text(text@),
        value matches Some(v) ==> header_value_bytes(v) == encode_utf8(text@),
{
    HeaderValue::from_str(text).ok()
}

/// `HeaderMap::try_insert` on the headers of a response: the value takes the place of all
/// values of that name, and nothing else changes. Where the headers refuse it, nothing
/// changes at all.
#[verifier::external_body]
pub(crate) fn try_insert_header(
    response: &mut Response<Body>,
    name: &'static str,
    value: HeaderValue,
) -> (done: bool)
    requires
        is_plain_header_name(name@),
    ensures
        done == accepts_header(*old(response), name@),
        response_headers(*final(response)) == if done {
            response_headers(*old(response)).insert(name@, seq![header_value_bytes(value)])
        } else {
            response_headers(*old(response))
        },
        response_status(*final(response)) == response_status(*old(response)),
        response_body(*final(response)) == response_body(*old(response)),
{
    response.headers_mut().try_insert(name, value).is_ok()
}

/// `Response::status_mut`, assigned the status code of the given number. Headers and body
/// stay as they were, and with the headers what they take.
#[verifier::external_body]
pub(crate) fn set_status(response: &mut Response<Body>, status: u16)
    requires
        100 <= status <= 999,
    ensures
        response_status(*final(response)) == status,
        response_headers(*final(response)) == response_headers(*old(response)),
        response_body(*final(response)) == response_body(*old(response)),
        forall|n: Seq<char>| #[trigger] accepts_header(*final(response), n) == accepts_header(
            *old(response),
            n,
        ),
{
    *response.status_mut() = StatusCode::from_u16(status).unwrap();
}

} // verus!
