//! Varnish, and the page cache behind it.

use mdoctor::endpoints::{Endpoint, HttpTarget};
use mdoctor::fpc_inspector::{
    evaluate_fpc, identifies_varnish, probe_storefront_cache, probe_varnish, DEFAULT_VARNISH_PORT,
};
use mdoctor::http_probe::{
    after_read, parse_response, HttpProbeError, HttpResponse, ReadEvent, ReadStep,
};
use mdoctor::model::{
    FpcEngine, ProbeOutcome, SanitizedEnvConfig, UncacheableBlock, VarnishProbeResult,
};

/// What a probe makes of a server that sends these bytes and then stays open.
fn exchange(raw: &[u8], timeout_ms: u64) -> Result<HttpResponse, HttpProbeError> {
    let mut read: Vec<u8> = Vec::new();
    match after_read(&mut read, &ReadEvent::Received(raw.to_vec()), timeout_ms) {
        ReadStep::Done => parse_response(&read),
        ReadStep::Fail(e) => Err(e),
        ReadStep::More => match after_read(&mut read, &ReadEvent::TimedOut, timeout_ms) {
            ReadStep::Fail(e) => Err(e),
            _ => panic!("the deadline ends the exchange"),
        },
    }
}

#[test]
fn test_evaluate_fpc_builtin_redis() {
    let env = SanitizedEnvConfig {
        redis_page_cache_host: Some("127.0.0.1:6379".to_string()),
        ..Default::default()
    };

    let status = evaluate_fpc(&env, Vec::new(), VarnishProbeResult::default());
    assert_eq!(status.engine, FpcEngine::BuiltIn);
    assert!(!status.is_varnish_reachable);
    assert!(!status.is_varnish_configured);
}

#[test]
fn test_varnish_configured_comes_from_env_not_from_probe() {
    let env = SanitizedEnvConfig {
        http_cache_hosts: vec!["varnish-1.internal:6081".to_string()],
        ..Default::default()
    };

    // Configured for Varnish, but the tier did not answer.
    let status = evaluate_fpc(
        &env,
        Vec::new(),
        VarnishProbeResult {
            outcome: ProbeOutcome::failed("connection refused"),
            ..Default::default()
        },
    );

    assert!(status.is_varnish_configured, "env.php http_cache_hosts means configured");
    assert!(!status.is_varnish_reachable, "a failed probe is not reachable");
    assert_eq!(status.engine, FpcEngine::Varnish);
}

#[test]
fn test_plain_web_server_is_not_reported_as_varnish() {
    // A 200 from nginx with no Varnish headers must not identify as Varnish.
    let probe = VarnishProbeResult {
        endpoint: Some("127.0.0.1:80".to_string()),
        outcome: ProbeOutcome::Succeeded,
        http_status: Some(200),
        server_header: Some("nginx/1.24.0".to_string()),
        identified_as_varnish: identifies_varnish(None, None, Some("nginx/1.24.0")),
        ..Default::default()
    };

    assert!(!probe.identified_as_varnish);

    let status = evaluate_fpc(&SanitizedEnvConfig::default(), Vec::new(), probe);
    assert!(!status.is_varnish_reachable);
    assert!(!status.is_varnish_configured);
    assert_eq!(status.engine, FpcEngine::Unknown);
    assert_eq!(status.varnish_host.as_deref(), Some("127.0.0.1"));
    assert_eq!(status.varnish_port, Some(80));
}

#[test]
fn test_identifies_varnish_from_headers() {
    assert!(identifies_varnish(Some("1.1 varnish (Varnish/7.4)"), None, None));
    assert!(identifies_varnish(None, Some("12345 67890"), None));
    assert!(identifies_varnish(None, None, Some("Varnish")));

    assert!(!identifies_varnish(None, None, Some("nginx/1.24.0")));
    assert!(!identifies_varnish(Some("1.1 squid"), None, Some("Apache/2.4")));
    assert!(!identifies_varnish(None, Some("   "), None), "blank X-Varnish proves nothing");
    assert!(!identifies_varnish(None, None, None));
}

#[test]
fn test_probe_varnish_reads_headers_from_real_socket() {
    let response = exchange(
        b"HTTP/1.1 200 OK\r\nVia: 1.1 varnish (Varnish/7.4)\r\nX-Varnish: 98765\r\nAge: 42\r\nContent-Length: 0\r\n\r\n",
        2000,
    );
    let endpoint = Endpoint::parse("127.0.0.1:40001", DEFAULT_VARNISH_PORT).unwrap();
    let probe = probe_varnish(&endpoint, &response);

    assert!(probe.outcome.is_success());
    assert!(probe.identified_as_varnish);
    assert_eq!(probe.age_header.as_deref(), Some("42"));
    assert_eq!(probe.x_varnish_header.as_deref(), Some("98765"));
}

#[test]
fn test_probe_varnish_on_silent_tcp_port_does_not_identify() {
    let response = exchange(b"", 300);
    let endpoint = Endpoint::parse("127.0.0.1:40002", DEFAULT_VARNISH_PORT).unwrap();
    let probe = probe_varnish(&endpoint, &response);

    assert!(!probe.identified_as_varnish);
    assert!(matches!(probe.outcome, ProbeOutcome::Failed { .. }));
}

#[test]
fn a_socket_is_not_probed_over_http() {
    let endpoint = Endpoint::parse("/run/varnish.sock", DEFAULT_VARNISH_PORT).unwrap();
    let response = exchange(b"HTTP/1.1 200 OK\r\nX-Varnish: 1\r\nContent-Length: 0\r\n\r\n", 1);
    let probe = probe_varnish(&endpoint, &response);
    assert!(!probe.identified_as_varnish);
    assert!(probe.outcome.is_inconclusive());
}

#[test]
fn storefront_headers_reveal_the_proxy() {
    let target = HttpTarget::parse("http://shop.internal/", 80).unwrap();
    let response = exchange(
        b"HTTP/1.1 200 OK\r\nServer: Varnish\r\nX-Magento-Cache-Debug: HIT\r\nContent-Length: 0\r\n\r\n",
        1,
    );
    let probe = probe_storefront_cache(&target, &response);
    assert!(probe.identified_as_varnish);
    assert_eq!(probe.x_magento_cache_debug.as_deref(), Some("HIT"));
    assert_eq!(probe.http_status, Some(200));
}

#[test]
fn punctures_stay_with_the_page_cache() {
    let block = UncacheableBlock {
        module: "M".into(),
        layout_handle: "default".into(),
        block_name: "b".into(),
        class_name: None,
        template: None,
        source_file: "default.xml".into(),
        line: 9,
    };
    let status = evaluate_fpc(
        &SanitizedEnvConfig::default(),
        vec![block],
        VarnishProbeResult::default(),
    );
    assert_eq!(status.uncacheable_blocks.len(), 1);
    assert_eq!(status.uncacheable_blocks[0].line, 9);
}

#[test]
fn a_reachable_varnish_decides_only_where_the_settings_are_silent() {
    let varnish = || VarnishProbeResult { identified_as_varnish: true, ..Default::default() };
    let env = SanitizedEnvConfig {
        redis_page_cache_host: Some("127.0.0.1:6379".to_string()),
        ..Default::default()
    };
    let status = evaluate_fpc(&env, Vec::new(), varnish());
    assert_eq!(status.engine, FpcEngine::BuiltIn);
    assert!(status.is_varnish_reachable && !status.is_varnish_configured);

    let status = evaluate_fpc(&SanitizedEnvConfig::default(), Vec::new(), varnish());
    assert_eq!(status.engine, FpcEngine::Varnish);
}
