use esp_idf_svc::http::{
    after_write, create_frame_type, create_raw_frame, httpd_config, payload_fits,
    renders_error_page, session_id_of, Configuration, FrameType, HeadersError, Method, RawFrame,
    ResponseHeaders, ResponseState,
};

#[test]
fn default_configuration() {
    let c = Configuration::default();
    assert_eq!(c.http_port, 80);
    assert_eq!(c.https_port, 443);
    assert_eq!(c.session_timeout_secs, 1200);
    assert_eq!(c.session_cookie_name, "SESSIONID");
    let n = httpd_config(&c);
    assert_eq!(n.server_port, 80);
    assert_eq!(n.ctrl_port, 32768);
    assert_eq!(n.max_open_sockets, 5);
    assert_eq!(n.max_uri_handlers, 32);
    assert_eq!(n.max_resp_headers, 8);
    assert!(n.lru_purge_enable);
    assert_eq!(n.core_id, i32::MAX);
    let plain = Configuration { https_port: 0, ..c };
    assert!(!httpd_config(&plain).lru_purge_enable);
}

#[test]
fn method_codes() {
    assert_eq!(Method::Delete.to_http_method(), 0);
    assert_eq!(Method::Get.to_http_method(), 1);
    assert_eq!(Method::Post.to_http_method(), 3);
    assert_eq!(Method::Patch.to_http_method(), 28);
    assert_eq!(Method::Unlink.to_http_method(), 32);
}

#[test]
fn headers_are_case_insensitive_and_sorted() {
    let mut h = ResponseHeaders::new();
    h.set_status(404);
    h.set_status_message("Not Found".to_string());
    h.set_header("X-B".to_string(), "1".to_string());
    h.set_header("content-type".to_string(), "text/plain".to_string());
    h.set_header("x-a".to_string(), "2".to_string());
    h.set_header("Content-Type".to_string(), "text/html".to_string());
    h.set_header("Content-Length".to_string(), "12".to_string());
    let plan = h.plan().unwrap();
    assert_eq!(plan.status, "404 Not Found");
    assert_eq!(plan.content_type, Some("text/html".to_string()));
    let names: Vec<(String, String)> = plan.headers.iter().map(|h| (h.name.clone(), h.value.clone())).collect();
    assert_eq!(names, vec![("x-a".to_string(), "2".to_string()), ("X-B".to_string(), "1".to_string())]);
}

#[test]
fn status_line_without_message() {
    let h = ResponseHeaders::new();
    let plan = h.plan().unwrap();
    assert_eq!(plan.status, "200");
    assert_eq!(plan.content_type, None);
    assert!(plan.headers.is_empty());
}

#[test]
fn session_cookie_is_added() {
    let mut h = ResponseHeaders::new();
    h.set_header("Cookies".to_string(), "a=1;SESSIONID=old".to_string());
    let plan = h.send_headers(Some(("SESSIONID", "new")), &mut ResponseState::New).unwrap().unwrap();
    assert_eq!(plan.headers.len(), 1);
    assert_eq!(plan.headers[0].name, "Cookies");
    assert_eq!(plan.headers[0].value, "a=1;SESSIONID=new");

    let mut fresh = ResponseHeaders::new();
    let plan = fresh.send_headers(Some(("SESSIONID", "abc")), &mut ResponseState::New).unwrap().unwrap();
    assert_eq!(plan.headers[0].name, "cookies");
    assert_eq!(plan.headers[0].value, "SESSIONID=abc");
}

#[test]
fn nul_characters_are_refused() {
    let mut h = ResponseHeaders::new();
    h.set_header("X".to_string(), "a\0b".to_string());
    assert_eq!(h.plan().err(), Some(HeadersError::InteriorNul));
}

#[test]
fn session_ids_come_from_the_cookie_header() {
    assert_eq!(session_id_of(Some("a=1;SESSIONID=xyz"), "SESSIONID"), Some("xyz".to_string()));
    assert_eq!(session_id_of(Some("a=1"), "SESSIONID"), None);
    assert_eq!(session_id_of(None, "SESSIONID"), None);
}

#[test]
fn response_life_cycle() {
    assert_eq!(after_write(ResponseState::HeadersSent, 0), ResponseState::HeadersSent);
    assert_eq!(after_write(ResponseState::HeadersSent, 5), ResponseState::Opened);
    assert!(renders_error_page(ResponseState::New));
    assert!(!renders_error_page(ResponseState::Opened));
}

#[test]
fn websocket_frames() {
    let raw = create_raw_frame(FrameType::Text(true), 5);
    assert_eq!(raw, RawFrame { type_: 1, final_: false, fragmented: true, len: 5 });
    assert_eq!(create_raw_frame(FrameType::Ping, 0).type_, 9);
    assert_eq!(
        create_frame_type(RawFrame { type_: 1, final_: false, fragmented: true, len: 10 }),
        Some((FrameType::Text(true), 11))
    );
    assert_eq!(
        create_frame_type(RawFrame { type_: 2, final_: true, fragmented: true, len: 10 }),
        Some((FrameType::Binary(false), 10))
    );
    assert_eq!(create_frame_type(RawFrame { type_: 8, final_: true, fragmented: false, len: 2 }), Some((FrameType::Close, 0)));
    assert_eq!(create_frame_type(RawFrame { type_: 5, final_: true, fragmented: false, len: 0 }), None);
    assert!(payload_fits(11, 11));
    assert!(!payload_fits(10, 11));
}

#[test]
fn session_cookie_reads_back() {
    let mut h = ResponseHeaders::new();
    h.set_header("cookies".to_string(), "theme=dark;SESSIONID=old;lang=en".to_string());
    let plan = h.send_headers(Some(("SESSIONID", "s3cr3t")), &mut ResponseState::New).unwrap().unwrap();
    let value = plan.headers[0].value.clone();
    assert_eq!(value, "theme=dark;lang=en;SESSIONID=s3cr3t");
    assert_eq!(session_id_of(Some(&value), "SESSIONID"), Some("s3cr3t".to_string()));
    assert_eq!(session_id_of(Some(&value), "theme"), Some("dark".to_string()));
    assert_eq!(session_id_of(Some("a=1;b"), "b"), None);
}

#[test]
fn frames_read_back_as_sent() {
    let raw = create_raw_frame(FrameType::Text(false), 5);
    assert_eq!(create_frame_type(raw), Some((FrameType::Text(false), 6)));
    let raw = create_raw_frame(FrameType::Binary(false), 5);
    assert_eq!(create_frame_type(raw), Some((FrameType::Binary(false), 5)));
    let raw = create_raw_frame(FrameType::Ping, 5);
    assert_eq!(create_frame_type(raw), Some((FrameType::Ping, 0)));
    let raw = create_raw_frame(FrameType::Text(true), 5);
    assert!(raw.fragmented && !raw.final_);
    assert_eq!(create_frame_type(raw), Some((FrameType::Text(true), 6)));
    let raw = create_raw_frame(FrameType::Binary(false), 5);
    assert!(!raw.fragmented && raw.final_);
}

#[test]
fn headers_are_sent_at_most_once() {
    let mut h = ResponseHeaders::new();
    h.set_status(404);
    let mut state = ResponseState::New;
    let plan = h.send_headers(None, &mut state).unwrap().unwrap();
    assert_eq!(plan.status, "404");
    assert_eq!(state, ResponseState::HeadersSent);
    // Not taken yet (a native call failed): handed over again.
    let again = h.send_headers(None, &mut state).unwrap().unwrap();
    assert_eq!(again.status, "404");
    h.headers_sent();
    let mut later = ResponseState::Opened;
    assert!(h.send_headers(Some(("SESSIONID", "x")), &mut later).unwrap().is_none());
    assert_eq!(later, ResponseState::Opened);
    assert!(h.plan().unwrap().headers.is_empty());
}

#[test]
fn cookie_header_is_read_up_to_a_bare_piece() {
    let mut h = ResponseHeaders::new();
    h.set_header("cookies".to_string(), "a=1;j;c=3".to_string());
    let plan = h.send_headers(Some(("S", "x")), &mut ResponseState::New).unwrap().unwrap();
    assert_eq!(plan.headers[0].value, "a=1;S=x");
    assert_eq!(session_id_of(Some("k=v=w;S=y"), "k"), Some("v".to_string()));
    assert_eq!(session_id_of(Some("k=v=w;S=y"), "S"), Some("y".to_string()));
    assert_eq!(session_id_of(Some(""), "S"), None);
}
