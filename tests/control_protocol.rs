use bubbles::protocol::{
    control_request, exists_poll, ready_poll, reply_is_ready, request_text, ControlRequest, Poll,
    RETRY_DELAY_MS,
};
use bubbles::text::{contains_str, push_decimal, starts_with_str};

#[test]
fn ready_request_is_bit_exact() {
    assert_eq!(
        control_request(ControlRequest::Ready),
        "GET /ready HTTP/1.0\r\nHost: localhost\r\nContent-Length: 0\r\n\r\n"
    );
}

#[test]
fn shutdown_and_terminal_requests_are_posts() {
    assert_eq!(
        control_request(ControlRequest::Shutdown),
        "POST /shutdown HTTP/1.0\r\nHost: localhost\r\nContent-Length: 0\r\n\r\n"
    );
    assert_eq!(
        control_request(ControlRequest::SpawnTerminal),
        "POST /spawn-terminal HTTP/1.0\r\nHost: localhost\r\nContent-Length: 0\r\n\r\n"
    );
    assert_eq!(
        request_text("PUT", "/x"),
        "PUT /x HTTP/1.0\r\nHost: localhost\r\nContent-Length: 0\r\n\r\n"
    );
}

#[test]
fn ok_reply_makes_poll_ready_true() {
    assert!(reply_is_ready("HTTP/1.0 200 OK\r\n\r\n"));
    assert_eq!(ready_poll(Some("HTTP/1.0 200 OK\r\n\r\n")), Poll::Done);
}

#[test]
fn other_replies_are_not_ready() {
    assert!(!reply_is_ready("HTTP/1.0 503 Service Unavailable\r\n\r\n"));
    assert!(!reply_is_ready(""));
    assert!(!reply_is_ready("20"));
    // Loose match: the token may appear anywhere.
    assert!(reply_is_ready("body 1200"));
}

#[test]
fn silent_guest_keeps_poll_retrying_every_half_second() {
    for _ in 0..1000 {
        assert_eq!(ready_poll(None), Poll::RetryAfter(500));
    }
    assert_eq!(ready_poll(Some("")), Poll::RetryAfter(RETRY_DELAY_MS));
    assert_eq!(RETRY_DELAY_MS, 500);
}

#[test]
fn path_poll_waits_until_present() {
    assert_eq!(exists_poll(false), Poll::RetryAfter(500));
    assert_eq!(exists_poll(true), Poll::Done);
}

#[test]
fn substring_search() {
    assert!(contains_str("abc", ""));
    assert!(contains_str("abc", "abc"));
    assert!(contains_str("xxabcxx", "bcx"));
    assert!(!contains_str("ab", "abc"));
    assert!(!contains_str("", "a"));
    assert!(starts_with_str("app-path=/x", "app-path="));
    assert!(!starts_with_str("app-pat", "app-path="));
}

#[test]
fn decimal_rendering() {
    let mut s = String::from("n=");
    push_decimal(&mut s, 0);
    assert_eq!(s, "n=0");
    let mut t = String::new();
    push_decimal(&mut t, 1000);
    assert_eq!(t, "1000");
    let mut u = String::new();
    push_decimal(&mut u, u64::MAX as u128);
    assert_eq!(u, "18446744073709551615");
    let mut w = String::new();
    push_decimal(&mut w, u128::MAX);
    assert_eq!(w, "340282366920938463463374607431768211455");
}
