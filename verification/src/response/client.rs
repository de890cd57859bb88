//! The client side: what a received response says of itself, and what becomes of the
//! outcome of reading its body.

use crate::error::{ErrorKind, ErrorView, ServerFnErrorErr};
use crate::response::client_model::{inbound_final_url, inbound_header, inbound_header_bytes,
    inbound_status, inbound_status_code, inbound_status_line, inbound_url, lossy_text,
    status_line, utf8_lossy};
use crate::url_model::url_as_str;
use bytes::Bytes;
use reqwest::Response;
use vstd::prelude::*;

verus! {

/// Name of the header that gives the target of a redirect, as a client asks for it.
pub const LOCATION: &'static str = "Location";

/// The outcome of reading a body, with a failure of the transport turned into an error of
/// the given kind that carries its message.
pub open spec fn read_as<T>(
    read: Result<T, String>,
    kind: ErrorKind,
    out: Result<T, ServerFnErrorErr>,
) -> bool {
    match read {
        Ok(content) => out == Ok::<T, ServerFnErrorErr>(content),
        Err(message) => out matches Err(err) && err@ == ErrorView { kind, payload: message@ },
    }
}

/// What becomes of reading the whole body as text: the text, or a `Deserialization` error
/// with the message of the transport.
pub fn try_into_string(read: Result<String, String>) -> (out: Result<String, ServerFnErrorErr>)
    ensures
        read_as(read, ErrorKind::Deserialization, out),
{
    match read {
        Ok(text) => Ok(text),
        Err(message) => Err(ServerFnErrorErr::Deserialization(message)),
    }
}

/// What becomes of reading the whole body as bytes: the bytes, or a `Deserialization` error
/// with the message of the transport.
pub fn try_into_bytes(read: Result<Bytes, String>) -> (out: Result<Bytes, ServerFnErrorErr>)
    ensures
        read_as(read, ErrorKind::Deserialization, out),
{
    match read {
        Ok(bytes) => Ok(bytes),
        Err(message) => Err(ServerFnErrorErr::Deserialization(message)),
    }
}

/// What becomes of one item of a body that is read chunk by chunk: the chunk, or a
/// `Response` error with the message of the transport.
pub fn stream_item(item: Result<Bytes, String>) -> (out: Result<Bytes, ServerFnErrorErr>)
    ensures
        read_as(item, ErrorKind::Response, out),
{
    match item {
        Ok(chunk) => Ok(chunk),
        Err(message) => Err(ServerFnErrorErr::Response(message)),
    }
}

/// The status code of the response.
pub fn status(response: &Response) -> (status: u16)
    ensures
        status == inbound_status(*response),
{
    inbound_status_code(response)
}

/// The status of the response as text: the code and its reason phrase.
pub fn status_text(response: &Response) -> (text: String)
    ensures
        text@ == status_line(inbound_status(*response)),
{
    inbound_status_line(response)
}

/// Where the response points: the value of its location header, read as text, or, without
/// such a header, the URL that the response came from.
pub open spec fn location_of(response: Response) -> Seq<char> {
    match inbound_header(response, "Location"@) {
        Some(bytes) => lossy_text(bytes),
        None => inbound_url(response),
    }
}

/// The target of the redirect where the response names one, else the URL of the response
/// itself.
pub fn location(response: &Response) -> (target: String)
    ensures
        target@ == location_of(*response),
{
    match inbound_header_bytes(response, LOCATION) {
        Some(bytes) => utf8_lossy(bytes.as_slice()),
        None => String::from_str(url_as_str(inbound_final_url(response))),
    }
}

/// Whether the response names the target of a redirect.
pub fn has_redirect(response: &Response) -> (redirected: bool)
    ensures
        redirected == inbound_header(*response, "Location"@).is_some(),
{
    inbound_header_bytes(response, LOCATION).is_some()
}

/// A read that the transport failed is never passed on as content: what comes out is an
/// error of the given kind with the message of the transport.
pub proof fn lemma_failed_read_is_reported<T>(
    read: Result<T, String>,
    kind: ErrorKind,
    out: Result<T, ServerFnErrorErr>,
)
    requires
        read is Err,
        read_as(read, kind, out),
    ensures
        out is Err,
        out->Err_0@.kind == kind,
        out->Err_0@.payload == read->Err_0@,
{
}

} // verus!
