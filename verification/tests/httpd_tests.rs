use esp_idf_svc::httpd::{
    body_chunk, BodyChunk, BODY_CHUNK_SIZE,
    parse_content_length, recv_result, send_plan, Configuration, HeaderPair, HttpdError, ReadErrorKind,
    SendError,
};
use esp_idf_svc::lwip::{cvt, peer_address, send_len, AddressFamily, PeerAddress, Protocol, SocketType};

fn header(name: &str, value: &str) -> HeaderPair {
    HeaderPair { name: name.to_string(), value: value.to_string() }
}

#[test]
fn server_defaults() {
    let c = Configuration::default();
    assert_eq!((c.http_port, c.https_port, c.max_uri_handlers), (80, 443, 8));
}

#[test]
fn error_codes_and_statuses() {
    assert_eq!(HttpdError::InternalServerError.code(), 0);
    assert_eq!(HttpdError::NotFound.code(), 6);
    assert_eq!(HttpdError::NotFound.status(), 404);
    assert_eq!(HttpdError::ReqHdrFieldsTooLarge.status(), 431);
    for code in 0..12u32 {
        assert_eq!(HttpdError::from_code(code).unwrap().code(), code);
    }
    assert_eq!(HttpdError::from_code(12), None);
}

#[test]
fn receive_results() {
    assert_eq!(recv_result(17), Ok(17));
    assert_eq!(recv_result(0), Ok(0));
    assert_eq!(recv_result(-2), Err(ReadErrorKind::InvalidInput));
    assert_eq!(recv_result(-3), Err(ReadErrorKind::TimedOut));
    assert_eq!(recv_result(-1), Err(ReadErrorKind::Other));
    assert_eq!(recv_result(-9), Err(ReadErrorKind::Other));
}

#[test]
fn content_lengths() {
    assert_eq!(parse_content_length("0"), Some(0));
    assert_eq!(parse_content_length("1234"), Some(1234));
    assert_eq!(parse_content_length("+12"), Some(12));
    assert_eq!(parse_content_length(""), None);
    assert_eq!(parse_content_length("+"), None);
    assert_eq!(parse_content_length("12a"), None);
    assert_eq!(parse_content_length("-1"), None);
    assert_eq!(parse_content_length("99999999999999999999999"), None);
    assert_eq!(parse_content_length(&usize::MAX.to_string()), Some(usize::MAX));
}

#[test]
fn send_plans() {
    let headers = vec![
        header("content-type", "text/plain"),
        header("X-Trace", "1"),
        header("Content-Length", "12"),
        header("Content-Type", "text/html"),
    ];
    let plan = send_plan(200, Some("OK"), &headers).ok().unwrap();
    assert_eq!(plan.status, "200 OK");
    assert_eq!(plan.content_type.as_deref(), Some("text/html"));
    assert_eq!(plan.headers.len(), 1);
    assert_eq!(plan.headers[0].name, "X-Trace");
    assert_eq!(plan.headers[0].value, "1");

    let plan = send_plan(404, None, &Vec::new()).ok().unwrap();
    assert_eq!(plan.status, "404");
    assert!(plan.content_type.is_none());

    let bad = vec![header("content-length", "many")];
    assert_eq!(send_plan(200, None, &bad).err(), Some(SendError::InvalidContentLength));
    assert_eq!(send_plan(200, Some("O\0K"), &Vec::new()).err(), Some(SendError::InvalidStatus));
}

#[test]
fn socket_codes_and_results() {
    assert_eq!(AddressFamily::Ipv4.code(), 2);
    assert_eq!(AddressFamily::Ipv6.code(), 10);
    assert_eq!(SocketType::Dgram.code(), 2);
    assert_eq!(Protocol::Udp.code(), 17);
    assert_eq!(Protocol::Raw.code(), 255);
    assert_eq!(cvt(-5), Err(-5));
    assert_eq!(cvt(3), Ok(3));
    assert_eq!(peer_address(2, 16), Ok(PeerAddress::V4));
    assert_eq!(peer_address(10, 28), Ok(PeerAddress::V6));
    assert_eq!(peer_address(1, 0), Err(-6));
    assert_eq!(send_len(10, 4), 4);
    assert_eq!(send_len(3, 4), 3);
}

#[test]
fn streamed_body_chunks() {
    assert_eq!(BODY_CHUNK_SIZE, 256);
    assert_eq!(body_chunk(10), BodyChunk { send_len: 256, last: false });
    assert_eq!(body_chunk(256), BodyChunk { send_len: 256, last: false });
    assert_eq!(body_chunk(0), BodyChunk { send_len: 256, last: true });
}
