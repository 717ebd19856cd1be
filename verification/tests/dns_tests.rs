use esp_idf_svc::dns::{
    dns_server_reply, parse_dns_request, CaptivePortalDns, DnsServerError, DNS_MAX_LEN,
};
use esp_idf_svc::error::EspError;

/// A standard query for `a.bc` of type A, class IN.
fn query_a() -> Vec<u8> {
    let mut q = vec![
        0x12, 0x34, // id
        0x01, 0x00, // flags: recursion desired
        0x00, 0x01, // one question
        0x00, 0x00, 0x00, 0x00, 0x00, 0x00,
    ];
    q.extend_from_slice(&[1, b'a', 2, b'b', b'c', 0]);
    q.extend_from_slice(&[0x00, 0x01, 0x00, 0x01]);
    q
}

#[test]
fn answers_a_question_with_the_portal_address() {
    let q = query_a();
    let reply = parse_dns_request(&q, q.len(), DNS_MAX_LEN, [192, 168, 4, 1]).unwrap();
    assert_eq!(reply.len(), q.len() + 16);
    // Response flag set, answer count equals the question count.
    assert_eq!(reply[2], 0x81);
    assert_eq!(&reply[6..8], &[0x00, 0x01]);
    // The question is echoed.
    assert_eq!(&reply[12..q.len()], &q[12..]);
    // The answer record.
    assert_eq!(
        &reply[q.len()..],
        &[0xC0, 0x0C, 0x00, 0x01, 0x00, 0x01, 0, 0, 0x01, 0x2C, 0, 4, 192, 168, 4, 1]
    );
}

#[test]
fn leaves_other_question_types_unanswered() {
    let mut q = query_a();
    let n = q.len();
    q[n - 3] = 0x1c; // AAAA
    let reply = parse_dns_request(&q, q.len(), DNS_MAX_LEN, [10, 0, 0, 1]).unwrap();
    // The slot is reserved but left zero.
    assert_eq!(reply.len(), q.len() + 16);
    assert!(reply[q.len()..].iter().all(|b| *b == 0));
}

#[test]
fn refuses_non_standard_queries() {
    let mut q = query_a();
    q[3] = 0x08; // opcode bits in the natively loaded flags word
    assert_eq!(parse_dns_request(&q, q.len(), DNS_MAX_LEN, [1, 2, 3, 4]), None);
}

#[test]
fn refuses_requests_longer_than_the_buffer() {
    let q = vec![0u8; 300];
    assert_eq!(parse_dns_request(&q, 300, DNS_MAX_LEN, [1, 2, 3, 4]), None);
}

#[test]
fn refuses_replies_that_would_not_fit() {
    let mut q = query_a();
    q[5] = 20; // twenty questions need 320 answer bytes
    assert_eq!(parse_dns_request(&q, q.len(), DNS_MAX_LEN, [1, 2, 3, 4]), None);
}

#[test]
fn refuses_names_longer_than_the_name_buffer() {
    let mut q = vec![0x12, 0x34, 0x01, 0x00, 0x00, 0x01, 0, 0, 0, 0, 0, 0];
    for _ in 0..3 {
        q.push(63);
        q.extend(std::iter::repeat(b'x').take(63));
    }
    q.push(0);
    q.extend_from_slice(&[0x00, 0x01, 0x00, 0x01]);
    assert_eq!(parse_dns_request(&q, q.len(), DNS_MAX_LEN, [1, 2, 3, 4]), None);
}

#[test]
fn server_turn_terminates_the_datagram() {
    let q = query_a();
    let mut rx = vec![0xFFu8; 64];
    rx[..q.len()].copy_from_slice(&q);
    let reply = dns_server_reply(&mut rx, q.len(), [192, 168, 4, 1]).unwrap();
    assert_eq!(rx[q.len()], 0);
    assert_eq!(reply.len(), q.len() + 16);
}

#[test]
fn captive_portal_start_and_stop() {
    let mut dns = CaptivePortalDns::new();
    assert!(!dns.is_running());
    assert_eq!(dns.stop(), Err(DnsServerError::NotRunning));
    assert_eq!(dns.start(|| Ok(7)), Ok(()));
    assert!(dns.is_running());
    assert_eq!(dns.start(|| Ok(8)), Err(DnsServerError::AlreadyRunning));
    assert_eq!(dns.stop(), Ok(7));
    assert!(!dns.is_running());
}

#[test]
fn captive_portal_spawn_failure_is_reported() {
    let mut dns = CaptivePortalDns::new();
    let err = EspError::from_non_zero(0x101);
    assert_eq!(dns.start(move || Err(err)), Err(DnsServerError::Spawn(err)));
    assert!(!dns.is_running());
}

#[test]
fn each_answer_points_at_its_own_question() {
    let req: Vec<u8> = vec![
        0, 1, 1, 0, 0, 2, 0, 0, 0, 0, 0, 0, 1, 0x61, 0, 0, 1, 0, 1, 1, 0x62, 0, 0, 1, 0, 1,
    ];
    let reply = parse_dns_request(&req, 26, 256, [192, 168, 4, 1]).unwrap();
    assert_eq!(reply.len(), 58);
    assert_eq!(&reply[26..28], &[0xC0, 0x0C]);
    assert_eq!(&reply[42..44], &[0xC0, 0x13]);
    assert_eq!(reply[2], 1 | 0x80);
    assert_eq!(&reply[6..8], &[0, 2]);
    assert_eq!(&reply[54..58], &[192, 168, 4, 1]);
}

#[test]
fn small_reply_limits_are_answered_or_refused() {
    let req: Vec<u8> = vec![0, 1, 1, 0, 0, 1, 0, 0, 0, 0, 0, 0, 1, 0x61, 0, 0, 1, 0, 1];
    assert_eq!(parse_dns_request(&req, 19, 40, [1, 2, 3, 4]).map(|r| r.len()), Some(35));
    assert_eq!(parse_dns_request(&req, 19, 30, [1, 2, 3, 4]), None);
    assert_eq!(parse_dns_request(&req, 19, 10, [1, 2, 3, 4]), None);
}
