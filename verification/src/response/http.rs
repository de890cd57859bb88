//! The server side: building a response from text, from bytes or from a body that is
//! produced lazily, building the response that reports an error, and turning a response into
//! a redirect.

use crate::error::{into_custom, keeps_contract, line_of, wire_or_text, CustomServerFnError,
    ErrorKind, ErrorView, ServerFnErrorErr, SERVER_FN_ERROR_HEADER};
use crate::response::http_model::{accepts_header, body_bytes, body_from_bytes,
    body_from_string, build_response, bytes_of, header_value_from_str, http_error_text,
    is_header_char, is_header_text, is_plain_header_name, new_response, no_headers,
    response_body, response_headers, response_status, set_status, try_insert_header};
use axum::body::Body;
use axum::http::Response;
use bytes::Bytes;
use vstd::prelude::*;
use vstd::utf8::*;

verus! {

/// Name of the header that gives the type of the content.
pub const CONTENT_TYPE: &'static str = "content-type";

/// Name of the header that gives the target of a redirect.
pub const LOCATION: &'static str = "location";

/// Status of a response that carries what was asked for.
pub const STATUS_OK: u16 = 200;

/// Status of a response that redirects.
pub const STATUS_FOUND: u16 = 302;

/// Status of a response that reports an error.
pub const STATUS_INTERNAL_SERVER_ERROR: u16 = 500;

/// The headers of a response that has one header with one value.
pub open spec fn single_header(name: Seq<char>, value: Seq<char>) -> Map<Seq<char>, Seq<Seq<u8>>> {
    no_headers().insert(name, seq![encode_utf8(value)])
}

/// Whether the headers of a response take a value under any plain name, the location of a
/// redirect among them.
pub open spec fn takes_headers(response: Response<Body>) -> bool {
    forall|n: Seq<char>| is_plain_header_name(n) ==> #[trigger] accepts_header(response, n)
}

/// What holds of the outcome of building a response with a content type around a body of
/// the given bytes. It succeeds exactly where the content type may be the value of a header,
/// with status 200, that one header, and the body, and its headers take another. Else the
/// error is of kind `Response` and says that the header value did not parse.
pub open spec fn builds(
    content_type: Seq<char>,
    body: Seq<u8>,
    built: Result<Response<Body>, ServerFnErrorErr>,
) -> bool {
    match built {
        Ok(response) => {
            &&& is_header_text(content_type)
            &&& response_status(response) == 200
            &&& response_headers(response) == single_header("content-type"@, content_type)
            &&& response_body(response) == body
            &&& takes_headers(response)
        },
        Err(err) => {
            &&& !is_header_text(content_type)
            &&& err@ == ErrorView {
                kind: ErrorKind::Response,
                payload: "failed to parse header value"@,
            }
        },
    }
}

fn try_from_body(content_type: &str, body: Body) -> (built: Result<Response<Body>, ServerFnErrorErr>)
    ensures
        builds(content_type@, body_bytes(body), built),
{
    proof {
        reveal_strlit("content-type");
    }
    match build_response(STATUS_OK, CONTENT_TYPE, content_type, body) {
        Ok(response) => Ok(response),
        Err(error) => Err(ServerFnErrorErr::Response(http_error_text(&error))),
    }
}

/// A response with status 200, the given content type, and `data` as its body.
pub fn try_from_string(content_type: &str, data: String) -> (built: Result<
    Response<Body>,
    ServerFnErrorErr,
>)
    ensures
        builds(content_type@, encode_utf8(data@), built),
{
    try_from_body(content_type, body_from_string(data))
}

/// A response with status 200, the given content type, and the bytes of `data` as its body.
pub fn try_from_bytes(content_type: &str, data: Bytes) -> (built: Result<
    Response<Body>,
    ServerFnErrorErr,
>)
    ensures
        builds(content_type@, bytes_of(data), built),
{
    try_from_body(content_type, body_from_bytes(data))
}

/// A response with status 200 and the given content type around a body that is produced
/// lazily, chunk by chunk. What the body yields is not known before it is read: an error in
/// the middle ends it, and the bytes sent before it stay sent.
pub fn try_from_stream(content_type: &str, body: Body) -> (built: Result<
    Response<Body>,
    ServerFnErrorErr,
>)
    ensures
        builds(content_type@, body_bytes(body), built),
{
    try_from_body(content_type, body)
}

/// One item of such a body on its way out: a chunk passes as it is, an error becomes the
/// application's error that stands for it.
pub fn stream_item<E: CustomServerFnError>(item: Result<Bytes, ServerFnErrorErr>) -> (out: Result<
    Bytes,
    E,
>)
    ensures
        match item {
            Ok(chunk) => out == Ok::<Bytes, E>(chunk),
            Err(err) => out matches Err(value) && (E::obeys_error_spec() ==> value.converted_from(
                err@,
            )),
        },
{
    into_custom(item)
}

/// The headers of the response that reports an error of the call at `path`: the error
/// header with the path as its one value, where the path may be the value of a header; no
/// header at all where it may not.
pub open spec fn error_headers(path: Seq<char>) -> Map<Seq<char>, Seq<Seq<u8>>> {
    if is_header_text(path) {
        single_header("serverfnerror"@, path)
    } else {
        no_headers()
    }
}

/// What holds of the response that reports `line` as the error of the call at `path`,
/// whatever the path: status 500, the line as its body, and the headers that
/// `error_headers` gives, which take another.
pub open spec fn reports(path: Seq<char>, line: Seq<char>, response: Response<Body>) -> bool {
    &&& response_status(response) == 500
    &&& response_headers(response) == error_headers(path)
    &&& response_body(response) == encode_utf8(line)
    &&& takes_headers(response)
}

/// The response that reports an error of the call at `path`. It is there for every path
/// and every error: status 500, and in the body the wire form of the error, or its rendering
/// where it has no wire form. The path stands in the error header where it may be the value
/// of a header; a path that may not leaves the response without that header. Which line
/// stands for the error is known of an error type that keeps to its contract.
pub fn error_response<E: CustomServerFnError>(path: &str, err: &E) -> (response: Response<Body>)
    ensures
        exists|line: Seq<char>| reports(path@, line, response),
        keeps_contract::<E>() ==> reports(path@, line_of(err), response),
{
    let line = wire_or_text(err);
    let ghost sent = line@;
    let response = error_response_with(path, line);
    assert(reports(path@, sent, response));
    response
}

/// The response that reports, with `line` as its body, an error of the call at `path`:
/// status 500 and the body for every path, the error header where the path may be the value
/// of a header.
pub fn error_response_with(path: &str, line: String) -> (response: Response<Body>)
    ensures
        reports(path@, line@, response),
{
    proof {
        reveal_strlit("serverfnerror");
    }
    let body = body_from_string(line.clone());
    match build_response(STATUS_INTERNAL_SERVER_ERROR, SERVER_FN_ERROR_HEADER, path, body) {
        Ok(response) => response,
        Err(_) => {
            let mut response = new_response(body_from_string(line));
            set_status(&mut response, STATUS_INTERNAL_SERVER_ERROR);
            response
        },
    }
}

/// An error is reported whatever the path of the call: the response has status 500 and the
/// line as its body for every path. A path that may not be the value of a header, such as
/// one with a line feed, leaves it without headers.
pub proof fn lemma_reports_whatever_the_path(
    path: Seq<char>,
    line: Seq<char>,
    response: Response<Body>,
)
    requires
        reports(path, line, response),
    ensures
        response_status(response) == 500,
        response_body(response) == encode_utf8(line),
        is_header_text(path) ==> response_headers(response) == single_header(
            "serverfnerror"@,
            path,
        ),
        !is_header_text(path) ==> response_headers(response) == no_headers(),
{
}

/// Whether a text may be the value of a header.
pub fn is_valid_header_text(text: &str) -> (valid: bool)
    ensures
        valid == is_header_text(text@),
{
    header_value_from_str(text).is_some()
}

/// What holds of a response before and after a redirect to `target`. Where the target may
/// be the value of a header, and the headers take it, the response has status 302 and the
/// target as the one value of its location header; nothing else changes. Where not, nothing
/// changes at all.
pub open spec fn redirects(before: Response<Body>, target: Seq<char>, after: Response<Body>) -> bool {
    &&& response_body(after) == response_body(before)
    &&& if is_header_text(target) && accepts_header(before, "location"@) {
        &&& response_status(after) == 302
        &&& response_headers(after) == response_headers(before).insert(
            "location"@,
            seq![encode_utf8(target)],
        )
    } else {
        &&& response_status(after) == response_status(before)
        &&& response_headers(after) == response_headers(before)
    }
}

/// Turns the response into a redirect to `path`, where `path` may be the value of a header.
/// Where it may not, the response is left as it is.
pub fn redirect(response: &mut Response<Body>, path: &str)
    ensures
        redirects(*old(response), path@, *final(response)),
{
    proof {
        reveal_strlit("location");
    }
    match header_value_from_str(path) {
        Some(value) => {
            if try_insert_header(response, LOCATION, value) {
                set_status(response, STATUS_FOUND);
            }
        },
        None => {},
    }
}

/// A redirect takes effect on a response that the library built. Let `before` be a response
/// built with a content type, and `after` what a redirect to a target that may be the value
/// of a header made of it. Then `after` has status 302, the target, byte for byte, as the
/// one value of its location header, and its content type and body as they were.
pub proof fn lemma_redirect_after_build(
    content_type: Seq<char>,
    body: Seq<u8>,
    before: Response<Body>,
    target: Seq<char>,
    after: Response<Body>,
)
    requires
        builds(content_type, body, Ok(before)),
        is_header_text(target),
        redirects(before, target, after),
    ensures
        response_status(after) == 302,
        response_headers(after) == single_header("content-type"@, content_type).insert(
            "location"@,
            seq![encode_utf8(target)],
        ),
        response_headers(after)["location"@] == seq![encode_utf8(target)],
        response_headers(after)["content-type"@] == seq![encode_utf8(content_type)],
        response_body(after) == body,
{
    reveal_strlit("location");
    reveal_strlit("content-type");
    assert(is_plain_header_name("location"@));
    assert("location"@.len() != "content-type"@.len());
}

/// A redirect to a target that may not stand in a header leaves status, headers and body
/// as they were. A line feed alone is such a target.
pub proof fn lemma_redirect_to_invalid_target(
    before: Response<Body>,
    target: Seq<char>,
    after: Response<Body>,
)
    requires
        !is_header_text(target),
        redirects(before, target, after),
    ensures
        response_status(after) == response_status(before),
        response_headers(after) == response_headers(before),
        response_body(after) == response_body(before),
        !is_header_text(seq!['\n']),
{
    assert(!is_header_char(seq!['\n'][0]));
}

} // verus!
