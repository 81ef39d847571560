//! Nginx `stub_status` pages.

use mdoctor::endpoints::HttpTarget;
use mdoctor::http_probe::{parse_response, HttpProbeError};
use mdoctor::nginx_inspector::{inspect_nginx, parse_stub_status};

const SAMPLE: &str = "Active connections: 291
server accepts handled requests
 16630948 16630948 31070465
Reading: 6 Writing: 179 Waiting: 106
";

#[test]
fn test_parse_stub_status() {
    let status = parse_stub_status(SAMPLE);
    assert!(status.is_detected);
    assert_eq!(status.active_connections, Some(291));
    assert_eq!(status.accepted, Some(16630948));
    assert_eq!(status.handled, Some(16630948));
    assert_eq!(status.requests, Some(31070465));
    assert_eq!(status.reading, Some(6));
    assert_eq!(status.writing, Some(179));
    assert_eq!(status.waiting, Some(106));
    assert_eq!(status.dropped, Some(0));
}

#[test]
fn test_parse_stub_status_detects_dropped_connections() {
    let status = parse_stub_status(
        "Active connections: 10\nserver accepts handled requests\n 500 490 1200\nReading: 0 Writing: 1 Waiting: 9\n",
    );
    assert_eq!(status.dropped, Some(10));
}

#[test]
fn test_parse_stub_status_rejects_unrelated_body() {
    let status = parse_stub_status("<html><body>Welcome to nginx!</body></html>");
    assert!(!status.is_detected);
    assert_eq!(status.active_connections, None);
}

#[test]
fn test_inspect_nginx_over_http() {
    let resp = format!(
        "HTTP/1.1 200 OK\r\nContent-Type: text/plain\r\nContent-Length: {}\r\n\r\n{}",
        SAMPLE.len(),
        SAMPLE
    );
    let target = HttpTarget::parse("http://127.0.0.1:40003/nginx_status", 80).unwrap();
    let status = inspect_nginx(&target, &parse_response(resp.as_bytes()));

    assert!(status.is_detected);
    assert!(status.probe.is_success());
    assert_eq!(status.active_connections, Some(291));
}

#[test]
fn a_failed_probe_is_not_detected_and_says_why() {
    let target = HttpTarget::parse("http://web-1/nginx_status", 80).unwrap();
    let refused: Result<_, _> =
        Err(HttpProbeError::Connect { addr: "web-1:80".into(), reason: "refused".into() });
    let status = inspect_nginx(&target, &refused);
    assert!(!status.is_detected);
    assert!(status.probe.describe().contains("refused"));
    assert_eq!(status.endpoint.as_deref(), Some("http://web-1:80/nginx_status"));

    let denied = parse_response(b"HTTP/1.1 403 Forbidden\r\nContent-Length: 0\r\n\r\n");
    let status = inspect_nginx(&target, &denied);
    assert!(!status.is_detected);
    assert!(status.probe.describe().contains("403"));
}
