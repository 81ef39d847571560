//! Endpoints, their texts, and overlays of overrides.

use mdoctor::endpoints::{Endpoint, EndpointError, HttpTarget, RemoteTargets};

#[test]
fn test_parse_endpoint_forms() {
    assert_eq!(
        Endpoint::parse("cache-1.internal", 6379).unwrap(),
        Endpoint { host: "cache-1.internal".into(), port: 6379, is_unix_socket: false }
    );
    assert_eq!(Endpoint::parse("10.0.0.5:6380", 6379).unwrap().port, 6380);
    assert_eq!(Endpoint::parse("  10.0.0.5:6380  ", 6379).unwrap().port, 6380);
}

#[test]
fn test_parse_endpoint_strips_scheme_and_path() {
    let ep = Endpoint::parse("redis://cache-1.internal:6380/2", 6379).unwrap();
    assert_eq!(ep.host, "cache-1.internal");
    assert_eq!(ep.port, 6380);
}

#[test]
fn test_parse_endpoint_ipv6() {
    let bracketed = Endpoint::parse("[2001:db8::1]:9200", 9200).unwrap();
    assert_eq!(bracketed.host, "2001:db8::1");
    assert_eq!(bracketed.port, 9200);
    assert_eq!(bracketed.describe(), "[2001:db8::1]:9200");

    // A bare IPv6 literal has no port to split off.
    let bare = Endpoint::parse("2001:db8::1", 9200).unwrap();
    assert_eq!(bare.host, "2001:db8::1");
    assert_eq!(bare.port, 9200);
}

#[test]
fn test_parse_endpoint_unix_socket() {
    let ep = Endpoint::parse("/var/run/redis/redis.sock", 6379).unwrap();
    assert!(ep.is_unix_socket);
    assert_eq!(ep.describe(), "/var/run/redis/redis.sock");
}

#[test]
fn test_parse_endpoint_rejects_bad_port() {
    assert!(Endpoint::parse("host:notaport", 6379).is_err());
    assert!(Endpoint::parse("host:99999", 6379).is_err());
    assert!(Endpoint::parse("   ", 6379).is_err());
}

#[test]
fn test_parse_http_target() {
    let t = HttpTarget::parse("http://web-1.internal:8080/status?json", 80).unwrap();
    assert_eq!(t.host, "web-1.internal");
    assert_eq!(t.port, 8080);
    assert_eq!(t.path, "/status?json");

    let bare = HttpTarget::parse("web-1.internal", 80).unwrap();
    assert_eq!(bare.port, 80);
    assert_eq!(bare.path, "/");
}

#[test]
fn test_http_target_rejects_https() {
    let err = HttpTarget::parse("https://shop.example.com/", 80).unwrap_err();
    assert!(matches!(err, EndpointError::UnsupportedScheme(_)));
}

#[test]
fn test_overlay_prefers_other() {
    let mut base = RemoteTargets {
        redis_cache: Some(Endpoint::parse("from-file", 6379).unwrap()),
        opensearch: Some(Endpoint::parse("search-file", 9200).unwrap()),
        ..Default::default()
    };
    base.overlay(RemoteTargets {
        redis_cache: Some(Endpoint::parse("from-cli", 6379).unwrap()),
        ..Default::default()
    });

    assert_eq!(base.redis_cache.unwrap().host, "from-cli");
    assert_eq!(base.opensearch.unwrap().host, "search-file", "untouched values survive");
}

#[test]
fn errors_say_what_is_wrong() {
    assert_eq!(Endpoint::parse("", 1).unwrap_err().describe(), "empty endpoint");
    assert_eq!(
        Endpoint::parse("host:notaport", 6379).unwrap_err().describe(),
        "invalid port in 'host:notaport'"
    );
    assert_eq!(
        HttpTarget::parse("https://shop.example.com/", 80).unwrap_err().describe(),
        "unsupported URL scheme 'https' (only http is supported; tunnel TLS endpoints over SSH)"
    );
    let read = EndpointError::Read { path: "a.toml".into(), source: "denied".into() };
    assert_eq!(read.describe(), "cannot read endpoint config a.toml: denied");
    let parse = EndpointError::Parse { path: "a.toml".into(), source: "bad key".into() };
    assert_eq!(parse.describe(), "cannot parse endpoint config a.toml: bad key");
}

#[test]
fn a_described_endpoint_reads_back() {
    let ep = Endpoint::parse("[2001:db8::1]:9200", 1).unwrap();
    assert_eq!(Endpoint::parse(&ep.describe(), 7).unwrap(), ep);
    let t = HttpTarget::parse("web-1.internal:8080/status", 80).unwrap();
    assert_eq!(t.describe(), "http://web-1.internal:8080/status");
    let again = HttpTarget::parse(&t.describe(), 80).unwrap();
    assert_eq!((again.host, again.port, again.path), (t.host, t.port, t.path));
}

#[test]
fn overrides_are_looked_for_in_the_root_first() {
    let files = RemoteTargets::candidate_files(Some("/srv/shop"));
    assert_eq!(files, vec!["/srv/shop/mdoctor.toml".to_string(), "mdoctor.toml".to_string()]);
    assert_eq!(RemoteTargets::candidate_files(None), vec!["mdoctor.toml".to_string()]);
    let found = RemoteTargets::discover(Some("/srv/shop"), &vec!["mdoctor.toml".to_string()]);
    assert_eq!(found.as_deref(), Some("mdoctor.toml"));
    assert_eq!(RemoteTargets::discover(Some("/srv/shop"), &Vec::new()), None);
}

#[test]
fn credentials_alone_override_nothing() {
    let t = RemoteTargets { redis_password: Some("hunter2".into()), ..Default::default() };
    assert!(t.is_empty());
    let t = RemoteTargets { fpm_conf: Some("/etc/www.conf".into()), ..Default::default() };
    assert!(!t.is_empty());
}
