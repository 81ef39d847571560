//! Redis conversations.

use mdoctor::endpoints::Endpoint;
use mdoctor::http_probe::ReadEvent;
use mdoctor::model::ProbeOutcome;
use mdoctor::ratio::Ratio;
use mdoctor::redis_inspector::{
    after_reply_read, command_text, connection_refused, connection_timed_out, continue_probe,
    inspect_redis, parse_config_get, parse_redis_info, resp_reply_is_complete, start_probe,
    strip_bulk_header, RedisMove, ReplyStep, DEFAULT_REDIS_PORT,
};

const SAMPLE_INFO: &str = r#"
# Server
redis_version:7.2.4
redis_mode:standalone

# Clients
connected_clients:42
blocked_clients:1

# Memory
used_memory:268435456
used_memory_peak:314572800
maxmemory:536870912
maxmemory_policy:volatile-lru
mem_fragmentation_ratio:1.45

# Stats
total_connections_received:12000
instantaneous_ops_per_sec:850
keyspace_hits:90000
keyspace_misses:10000
evicted_keys:15
"#;

fn value(r: Option<Ratio>) -> Option<f64> {
    r.map(|r| {
        let (n, d) = r.parts();
        n as f64 / d as f64
    })
}

/// Holds a whole conversation with a server that gives these replies, each of which must
/// answer a command that holds the word before it.
fn converse(password: Option<&str>, replies: &[(&str, &str)]) -> RedisMove {
    let mut next = start_probe(password);
    let mut given = replies.iter();
    loop {
        next = match next {
            RedisMove::Send { stage, args } => {
                let Some((word, reply)) = given.next() else {
                    return continue_probe(stage, Err("connection closed by server"));
                };
                assert!(command_text(&args).contains(word));
                let mut read = Vec::new();
                let event = ReadEvent::Received(reply.as_bytes().to_vec());
                match after_reply_read(&mut read, &event) {
                    ReplyStep::Reply(text) => continue_probe(stage, Ok(&text)),
                    _ => panic!("every reply is whole"),
                }
            }
            done => return done,
        };
    }
}

#[test]
fn test_parse_redis_info_sample() {
    let status = parse_redis_info(SAMPLE_INFO);
    assert_eq!(status.version.as_deref(), Some("7.2.4"));
    assert_eq!(status.used_memory_bytes, Some(268435456));
    assert_eq!(status.maxmemory_bytes, Some(536870912));
    assert_eq!(status.maxmemory_policy.as_deref(), Some("volatile-lru"));
    assert_eq!(value(status.mem_fragmentation_ratio), Some(1.45));
    assert_eq!(status.evicted_keys, Some(15));
    assert_eq!(status.connected_clients, Some(42));
    assert_eq!(status.blocked_clients, Some(1));
    assert_eq!(status.ops_per_sec, Some(850));
    assert_eq!(value(status.hit_ratio), Some(0.9)); // 90000 / 100000
}

#[test]
fn test_parse_redis_info_does_not_claim_reachability() {
    // Parsing text is not evidence that a server answered.
    let status = parse_redis_info("garbage without any colons");
    assert!(!status.is_reachable);
    assert!(!status.is_configured);
    assert_eq!(status.probe, ProbeOutcome::NotAttempted);
}

#[test]
fn test_parse_config_get() {
    let reply = "*4\r\n$9\r\nmaxmemory\r\n$10\r\n2147483648\r\n$16\r\nmaxmemory-policy\r\n$12\r\nvolatile-lru\r\n";
    let config = parse_config_get(reply);
    assert_eq!(config.get("maxmemory"), Some("2147483648"));
    assert_eq!(config.get("maxmemory-policy"), Some("volatile-lru"));
}

#[test]
fn test_strip_bulk_header() {
    assert_eq!(strip_bulk_header("$12\r\nhello world\r\n"), "hello world\r\n");
    assert_eq!(strip_bulk_header("+OK\r\n"), "+OK\r\n");
}

#[test]
fn test_resp_reply_is_complete() {
    assert!(resp_reply_is_complete(b"+OK\r\n"));
    assert!(resp_reply_is_complete(b"-NOAUTH Authentication required.\r\n"));
    assert!(!resp_reply_is_complete(b"+OK"));
    assert!(resp_reply_is_complete(b"$5\r\nhello\r\n"));
    assert!(!resp_reply_is_complete(b"$50\r\nhello\r\n"));
    assert!(resp_reply_is_complete(b"*2\r\n$1\r\na\r\n$1\r\nb\r\n"));
    assert!(!resp_reply_is_complete(b"*2\r\n$1\r\na\r\n"));
}

#[test]
fn test_inspect_redis_authenticates_and_reads_info() {
    let payload = SAMPLE_INFO.replace('\n', "\r\n");
    let info = format!("${}\r\n{}\r\n", payload.len(), payload);
    let outcome = converse(
        Some("hunter2"),
        &[
            ("AUTH", "+OK\r\n"),
            ("INFO", info.as_str()),
            (
                "CONFIG",
                "*4\r\n$9\r\nmaxmemory\r\n$10\r\n2147483648\r\n$16\r\nmaxmemory-policy\r\n$11\r\nallkeys-lru\r\n",
            ),
        ],
    );
    let endpoint = Endpoint::parse("127.0.0.1:40006", DEFAULT_REDIS_PORT).unwrap();
    let status = inspect_redis(&endpoint, &outcome);

    assert!(status.is_reachable, "probe failed: {}", status.probe.describe());
    assert!(status.probe.is_success());
    assert_eq!(status.version.as_deref(), Some("7.2.4"));
    assert_eq!(
        status.maxmemory_policy.as_deref(),
        Some("allkeys-lru"),
        "CONFIG GET must win over INFO"
    );
    assert_eq!(status.maxmemory_bytes, Some(2147483648));
    assert_eq!(status.endpoint.as_deref(), Some("127.0.0.1:40006"));
}

#[test]
fn test_inspect_redis_reports_missing_password() {
    let outcome = converse(None, &[("INFO", "-NOAUTH Authentication required.\r\n")]);
    let endpoint = Endpoint::parse("127.0.0.1:40007", DEFAULT_REDIS_PORT).unwrap();
    let status = inspect_redis(&endpoint, &outcome);

    assert!(!status.is_reachable);
    match status.probe {
        ProbeOutcome::Failed { ref reason } => {
            assert!(reason.contains("password"), "unhelpful reason: {}", reason)
        }
        other => panic!("expected a failure, got {:?}", other),
    }
}

#[test]
fn test_inspect_redis_reports_rejected_password() {
    let outcome = converse(
        Some("wrong"),
        &[("AUTH", "-WRONGPASS invalid username-password pair\r\n")],
    );
    let endpoint = Endpoint::parse("127.0.0.1:40008", DEFAULT_REDIS_PORT).unwrap();
    let status = inspect_redis(&endpoint, &outcome);

    assert!(!status.is_reachable);
    let ProbeOutcome::Failed { reason } = status.probe else {
        panic!("expected failure");
    };
    assert!(!reason.contains("wrong"), "the password must not be echoed back: {}", reason);
}

#[test]
fn test_inspect_redis_unreachable() {
    let endpoint = Endpoint::parse("127.0.0.1:1", DEFAULT_REDIS_PORT).unwrap();
    let status = inspect_redis(&endpoint, &connection_refused("127.0.0.1:1", "refused"));

    assert!(!status.is_reachable);
    assert!(status.is_configured, "we knew where to look, so it is configured");
    assert!(status.probe.is_inconclusive());

    let late = inspect_redis(&endpoint, &connection_timed_out("127.0.0.1:1"));
    assert!(late.probe.describe().contains("timed out"));
}

#[test]
fn commands_are_length_prefixed() {
    let args = vec!["AUTH".to_string(), "pässword".to_string()];
    assert_eq!(command_text(&args), "*2\r\n$4\r\nAUTH\r\n$9\r\npässword\r\n");
}

#[test]
fn a_reply_is_read_on_until_it_is_whole() {
    let mut read = Vec::new();
    let part = ReadEvent::Received(b"$5\r\nhel".to_vec());
    assert!(matches!(after_reply_read(&mut read, &part), ReplyStep::More));
    let rest = ReadEvent::Received(b"lo\r\n".to_vec());
    match after_reply_read(&mut read, &rest) {
        ReplyStep::Reply(text) => assert_eq!(text, "$5\r\nhello\r\n"),
        _ => panic!("the reply is whole"),
    }
    let mut none = Vec::new();
    assert!(matches!(after_reply_read(&mut none, &ReadEvent::Closed), ReplyStep::Fail(_)));
}

#[test]
fn a_refused_config_leaves_what_info_said() {
    let outcome = converse(
        None,
        &[("INFO", "$20\r\nmaxmemory:5\r\na:b\r\nxx\r\n"), ("CONFIG", "-ERR unknown command\r\n")],
    );
    let endpoint = Endpoint::parse("cache-1", DEFAULT_REDIS_PORT).unwrap();
    let status = inspect_redis(&endpoint, &outcome);
    assert!(status.is_reachable);
    assert_eq!(status.maxmemory_bytes, Some(5));
}

#[test]
fn a_socket_is_not_spoken_to() {
    let endpoint = Endpoint::parse("/run/redis.sock", DEFAULT_REDIS_PORT).unwrap();
    let status = inspect_redis(&endpoint, &start_probe(None));
    assert!(!status.is_reachable);
    assert!(status.probe.is_inconclusive());
}

#[test]
fn no_beginning_of_a_reply_is_complete() {
    let replies: [&[u8]; 6] = [
        b"+OK\r\n",
        b":12\r\n",
        b"$5\r\nhe\r\no\r\n",
        b"$-1\r\n",
        b"*2\r\n$1\r\na\r\n$0\r\n\r\n",
        b"*0\r\n",
    ];
    for reply in replies {
        for k in 0..reply.len() {
            assert!(!resp_reply_is_complete(&reply[..k]), "{:?}", &reply[..k]);
        }
        assert!(resp_reply_is_complete(reply), "{:?}", reply);
    }
}
