use axum::http::HeaderValue;
use bytes::Bytes;
use reqwest::ResponseBuilderExt;
use server_fn::error::ServerFnErrorErr;
use server_fn::response::client::{
    has_redirect, location, status, status_text, stream_item, try_into_bytes, try_into_string,
    LOCATION,
};

fn received(code: u16, headers: &[(&str, &[u8])], url: Option<&str>) -> reqwest::Response {
    let mut builder = axum::http::Response::builder().status(code);
    for (name, value) in headers {
        builder = builder.header(*name, HeaderValue::from_bytes(value).unwrap());
    }
    if let Some(url) = url {
        builder = builder.url(url::Url::parse(url).unwrap());
    }
    reqwest::Response::from(builder.body("body").unwrap())
}

#[test]
fn location_header_name() {
    assert_eq!(LOCATION, "Location");
}

#[test]
fn status_is_the_code() {
    assert_eq!(status(&received(200, &[], None)), 200);
    assert_eq!(status(&received(404, &[], None)), 404);
    assert_eq!(status(&received(302, &[], None)), 302);
    assert_eq!(status(&received(599, &[], None)), 599);
}

#[test]
fn status_text_is_code_and_reason() {
    assert_eq!(status_text(&received(200, &[], None)), "200 OK");
    assert_eq!(status_text(&received(302, &[], None)), "302 Found");
    assert_eq!(status_text(&received(404, &[], None)), "404 Not Found");
    assert_eq!(status_text(&received(500, &[], None)), "500 Internal Server Error");
    assert_eq!(status_text(&received(599, &[], None)), "599 <unknown status code>");
}

#[test]
fn location_is_the_header_where_there_is_one() {
    let response = received(302, &[("location", b"/next")], Some("https://example.com/form"));
    assert_eq!(location(&response), "/next");
    assert!(has_redirect(&response));
}

#[test]
fn location_finds_the_header_whatever_its_case() {
    let response = received(302, &[("LOCATION", b"https://example.org/")], None);
    assert_eq!(location(&response), "https://example.org/");
    assert!(has_redirect(&response));
}

#[test]
fn location_is_the_url_of_the_response_without_a_header() {
    let response = received(200, &[("content-type", b"text/plain")], Some("https://example.com/form?a=1"));
    assert_eq!(location(&response), "https://example.com/form?a=1");
    assert!(!has_redirect(&response));
}

#[test]
fn location_takes_the_first_of_several_headers() {
    let response = received(302, &[("location", b"/one"), ("location", b"/two")], None);
    assert_eq!(location(&response), "/one");
}

#[test]
fn location_replaces_what_is_no_utf8() {
    let response = received(302, &[("location", b"/caf\xe9/\xff")], None);
    assert_eq!(location(&response), "/caf\u{fffd}/\u{fffd}");
    assert!(has_redirect(&response));
}

#[test]
fn location_reads_utf8() {
    let response = received(302, &[("location", "/café".as_bytes())], None);
    assert_eq!(location(&response), "/café");
}

#[test]
fn location_may_be_empty_where_the_header_is() {
    let response = received(302, &[("location", b"")], Some("https://example.com/"));
    assert_eq!(location(&response), "");
    assert!(has_redirect(&response));
}

#[test]
fn try_into_string_passes_the_text() {
    assert_eq!(try_into_string(Ok("hello".to_string())), Ok("hello".to_string()));
}

#[test]
fn try_into_string_reports_a_failed_read_as_deserialization() {
    assert_eq!(
        try_into_string(Err("connection reset".to_string())),
        Err(ServerFnErrorErr::Deserialization("connection reset".to_string()))
    );
}

#[test]
fn try_into_bytes_passes_the_bytes() {
    assert_eq!(try_into_bytes(Ok(Bytes::from_static(b"\x00\xff"))), Ok(Bytes::from_static(b"\x00\xff")));
}

#[test]
fn try_into_bytes_reports_a_failed_read_as_deserialization() {
    assert_eq!(
        try_into_bytes(Err("body already consumed".to_string())),
        Err(ServerFnErrorErr::Deserialization("body already consumed".to_string()))
    );
}

#[test]
fn inbound_stream_item_passes_a_chunk() {
    assert_eq!(stream_item(Ok(Bytes::from_static(b"chunk"))), Ok(Bytes::from_static(b"chunk")));
}

#[test]
fn inbound_stream_item_reports_a_failed_chunk_as_response() {
    assert_eq!(
        stream_item(Err("stream closed".to_string())),
        Err(ServerFnErrorErr::Response("stream closed".to_string()))
    );
}
