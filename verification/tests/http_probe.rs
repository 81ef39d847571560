//! HTTP exchanges.

use mdoctor::base64::base64_encode;
use mdoctor::http_probe::{
    after_read, decode_chunked, parse_response, response_is_complete, HttpProbeError,
    HttpProbeRequest, HttpResponse, ReadEvent, ReadStep,
};

/// What a probe makes of a server that sends these bytes and then stays open.
fn exchange(raw: &[u8], timeout_ms: u64) -> Result<HttpResponse, HttpProbeError> {
    let mut read: Vec<u8> = Vec::new();
    match after_read(&mut read, &ReadEvent::Received(raw.to_vec()), timeout_ms) {
        ReadStep::Done => parse_response(&read),
        ReadStep::Fail(e) => Err(e),
        ReadStep::More => match after_read(&mut read, &ReadEvent::TimedOut, timeout_ms) {
            ReadStep::Fail(e) => Err(e),
            _ => panic!("the deadline ends the exchange"),
        },
    }
}

#[test]
fn test_parse_response_with_content_length() {
    let raw = b"HTTP/1.1 200 OK\r\nContent-Type: application/json\r\nContent-Length: 13\r\n\r\n{\"status\":\"g\"}";
    let resp = parse_response(raw).unwrap();
    assert_eq!(resp.status, 200);
    assert!(resp.is_success());
    assert_eq!(resp.header("content-type"), Some("application/json"));
    assert_eq!(resp.header("Content-Type"), Some("application/json"), "lookup is case-insensitive");
    assert!(resp.body.starts_with("{\"status\""));
}

#[test]
fn test_parse_response_surfaces_auth_failure() {
    let raw = b"HTTP/1.1 401 Unauthorized\r\nWWW-Authenticate: Basic\r\nContent-Length: 0\r\n\r\n";
    let resp = parse_response(raw).unwrap();
    assert_eq!(resp.status, 401);
    assert!(!resp.is_success(), "a secured endpoint must not look like a healthy one");
}

#[test]
fn test_decode_chunked_body() {
    let raw = b"HTTP/1.1 200 OK\r\nTransfer-Encoding: chunked\r\n\r\n1a\r\n{\"cluster_name\":\"prod-os\"}\r\n0\r\n\r\n";
    let resp = parse_response(raw).unwrap();
    assert_eq!(resp.body, "{\"cluster_name\":\"prod-os\"}");
    let parsed: serde_json::Value = serde_json::from_str(&resp.body).unwrap();
    assert_eq!(parsed["cluster_name"], "prod-os");
}

#[test]
fn test_response_is_complete_respects_framing() {
    let partial = b"HTTP/1.1 200 OK\r\nContent-Length: 20\r\n\r\nshort";
    assert!(!response_is_complete(partial));

    let full = b"HTTP/1.1 200 OK\r\nContent-Length: 5\r\n\r\nfull!";
    assert!(response_is_complete(full));

    let chunked = b"HTTP/1.1 200 OK\r\nTransfer-Encoding: chunked\r\n\r\n5\r\nfull!\r\n0\r\n\r\n";
    assert!(response_is_complete(chunked));
}

#[test]
fn test_parse_response_rejects_garbage() {
    assert!(parse_response(b"").is_err());
    assert!(parse_response(b"not http at all").is_err());
    // Headers present but no status code.
    assert!(parse_response(b"GARBAGE\r\n\r\nbody").is_err());
}

#[test]
fn test_base64_encode_matches_known_vectors() {
    assert_eq!(base64_encode(b"admin:admin"), "YWRtaW46YWRtaW4=");
    assert_eq!(base64_encode(b"a"), "YQ==");
    assert_eq!(base64_encode(b"ab"), "YWI=");
    assert_eq!(base64_encode(b"abc"), "YWJj");
}

#[test]
fn test_probe_reads_full_response_from_local_server() {
    let resp = exchange(
        b"HTTP/1.1 200 OK\r\nVia: 1.1 varnish (Varnish/7.4)\r\nContent-Length: 2\r\n\r\nhi",
        2000,
    )
    .unwrap();

    assert_eq!(resp.status, 200);
    assert_eq!(resp.body, "hi");
    assert!(resp.header("via").unwrap().contains("varnish"));
}

#[test]
fn test_probe_times_out_on_silent_server() {
    let err = exchange(b"", 300).unwrap_err();
    assert!(matches!(err, HttpProbeError::Timeout(_)), "got {:?}", err);
}

#[test]
fn a_request_names_its_host_and_closes() {
    let request = HttpProbeRequest::get("web-1", 8080, "/status?json", 3000)
        .with_header("X-Probe", "1")
        .with_basic_auth(Some("admin:admin"));
    let text = request.request_text();
    assert!(text.starts_with("GET /status?json HTTP/1.1\r\n"));
    assert!(text.contains("\r\nAuthorization: Basic YWRtaW46YWRtaW4=\r\n"));
    assert!(text.contains("\r\nX-Probe: 1\r\n"));
    assert!(text.contains("\r\nConnection: close\r\n"));
    assert!(text.ends_with("\r\n\r\n"));
    assert_eq!(request.address(), "web-1:8080");
    assert_eq!(HttpProbeRequest::get("::1", 80, "/", 1).address(), "[::1]:80");
}

#[test]
fn an_exchange_is_read_on_until_its_framing_is_met() {
    let mut read: Vec<u8> = Vec::new();
    let first = ReadEvent::Received(b"HTTP/1.1 200 OK\r\nContent-Length: 4\r\n\r\nab".to_vec());
    assert!(matches!(after_read(&mut read, &first, 9), ReadStep::More));
    let rest = ReadEvent::Received(b"cd".to_vec());
    assert!(matches!(after_read(&mut read, &rest, 9), ReadStep::Done));
    assert_eq!(parse_response(&read).unwrap().body, "abcd");
    assert!(matches!(after_read(&mut read, &ReadEvent::Closed, 9), ReadStep::Done));
    let failed = ReadEvent::Failed("reset".to_string());
    assert!(matches!(
        after_read(&mut read, &failed, 9),
        ReadStep::Fail(HttpProbeError::Io(_))
    ));
}

#[test]
fn each_error_says_what_happened() {
    let connect = HttpProbeError::Connect { addr: "a:1".into(), reason: "refused".into() };
    assert_eq!(connect.describe(), "connection to a:1 failed: refused");
    assert!(HttpProbeError::Timeout(300).describe().contains("300ms"));
    assert!(matches!(parse_response(b"").unwrap_err(), HttpProbeError::Incomplete));
    assert!(matches!(
        parse_response(b"GARBAGE\r\n\r\nbody").unwrap_err(),
        HttpProbeError::Malformed
    ));
}

#[test]
fn chunks_are_joined_and_extensions_ignored() {
    assert_eq!(decode_chunked(b"3;x=1\r\nabc\r\n2\r\nde\r\n0\r\n\r\n"), "abcde");
    assert_eq!(decode_chunked(b"zz\r\nabc"), "");
}

#[test]
fn bytes_that_are_no_utf8_are_replaced() {
    let raw = b"HTTP/1.1 200 OK\r\nContent-Length: 3\r\n\r\na\xffb";
    assert_eq!(parse_response(raw).unwrap().body, "a\u{fffd}b");
}

/// What a probe makes of a server that sends these bytes and then closes.
fn exchange_until_closed(raw: &[u8]) -> Result<HttpResponse, HttpProbeError> {
    let mut read: Vec<u8> = Vec::new();
    match after_read(&mut read, &ReadEvent::Received(raw.to_vec()), 300) {
        ReadStep::Done => parse_response(&read),
        ReadStep::Fail(e) => Err(e),
        ReadStep::More => match after_read(&mut read, &ReadEvent::Closed, 300) {
            ReadStep::Done => parse_response(&read),
            ReadStep::Fail(e) => Err(e),
            ReadStep::More => panic!("a closed connection ends the exchange"),
        },
    }
}

#[test]
fn a_truncated_body_is_not_a_response() {
    let short = exchange_until_closed(b"HTTP/1.1 200 OK\r\nContent-Length: 20\r\n\r\nshort");
    assert!(matches!(short, Err(HttpProbeError::Incomplete)));
    let cut = exchange_until_closed(
        b"HTTP/1.1 200 OK\r\nTransfer-Encoding: chunked\r\n\r\n5\r\nfull!\r\n",
    );
    assert!(matches!(cut, Err(HttpProbeError::Incomplete)));
    let nothing = exchange_until_closed(b"");
    assert!(matches!(nothing, Err(HttpProbeError::Incomplete)));
}

#[test]
fn a_body_without_framing_ends_with_the_connection() {
    let resp = exchange_until_closed(b"HTTP/1.1 200 OK\r\nServer: x\r\n\r\nall of it").unwrap();
    assert_eq!(resp.body, "all of it");
}

#[test]
fn an_end_inside_of_a_chunk_is_no_end() {
    let head = b"HTTP/1.1 200 OK\r\nTransfer-Encoding: chunked\r\n\r\n";
    let with = |body: &[u8]| -> bool {
        let mut raw = head.to_vec();
        raw.extend_from_slice(body);
        response_is_complete(&raw)
    };
    assert!(!with(b"7\r\n0\r\n\r\nab\r\n"));
    assert!(with(b"7\r\n0\r\n\r\nab\r\n0\r\n\r\n"));
    assert!(!with(b"7\r\n0\r\n\r\nab\r\n0\r\n"));
    assert!(!with(b"zz\r\n0\r\n\r\n"));
    // Trailer fields stand between the zero chunk and the blank line.
    assert!(!with(b"0\r\nX: 1\r\n"));
    assert!(with(b"0\r\nX: 1\r\n\r\n"));
}

#[test]
fn chunk_sizes_are_read_in_either_case() {
    let data = "x".repeat(0x1a);
    let lower = format!("1a;a=\"b\"\r\n{}\r\n00\r\nrest", data);
    let upper = format!("1A\r\n{}\r\n0;last\r\n\r\n", data);
    assert_eq!(decode_chunked(lower.as_bytes()), data);
    assert_eq!(decode_chunked(upper.as_bytes()), data);
}
