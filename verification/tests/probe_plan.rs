//! Which services are probed, and what the probes add.

use mdoctor::endpoints::{Endpoint, HttpTarget, RemoteTargets};
use mdoctor::env_parser::ParsedEnv;
use mdoctor::model::{
    DatabaseMetrics, FpcEngine, MagentoInstallation, PhpWorkerMetrics, ProbeOutcome, RedisStatus,
    SanitizedEnvConfig, UncacheableBlock, VarnishProbeResult, WorkerMetricSource,
};
use mdoctor::probe_plan::{
    apply_offline, apply_probes, database_deadline_secs, endpoint_from_env, plan_probes,
    ProbeResults, ProxyProbe,
};

fn nothing() -> ProbeResults {
    ProbeResults {
        database: None,
        local_fpm: PhpWorkerMetrics::default(),
        remote_fpm: None,
        nginx: None,
        redis_cache: None,
        redis_session: None,
        opensearch: None,
        proxy: None,
    }
}

#[test]
fn nothing_named_is_nothing_probed() {
    let plan = plan_probes(
        &SanitizedEnvConfig::default(),
        &ParsedEnv::default(),
        &RemoteTargets::default(),
    );
    assert!(plan.database.is_none() && plan.redis_cache.is_none() && plan.opensearch.is_none());
    assert!(matches!(plan.proxy, ProxyProbe::Nowhere));
}

#[test]
fn env_names_what_overrides_do_not() {
    let env = SanitizedEnvConfig {
        db_host: Some("db-1".into()),
        db_name: Some("m2".into()),
        db_user: Some("u".into()),
        redis_cache_host: Some("cache-1".into()),
        redis_session_host: Some("session-1:bad".into()),
        opensearch_host: Some("search-1".into()),
        opensearch_port: Some(9201),
        http_cache_hosts: vec!["varnish-1".into()],
        ..Default::default()
    };
    let parsed = ParsedEnv {
        raw_db_password: Some("db_secret".into()),
        raw_redis_password: Some("redis_secret".into()),
        ..Default::default()
    };
    let plan = plan_probes(&env, &parsed, &RemoteTargets::default());
    let db = plan.database.unwrap();
    assert_eq!((db.host.as_str(), db.password.as_deref()), ("db-1", Some("db_secret")));
    assert_eq!(plan.redis_cache.unwrap().port, 6379);
    assert!(plan.redis_session.is_none(), "an unusable value is ignored");
    assert_eq!(plan.opensearch.unwrap().port, 9201);
    assert_eq!(plan.redis_password.as_deref(), Some("redis_secret"));
    match plan.proxy {
        ProxyProbe::Address(e) => assert_eq!((e.host.as_str(), e.port), ("varnish-1", 6081)),
        _ => panic!("the first cache host is probed"),
    }
    assert!(endpoint_from_env(&None).is_none());
}

#[test]
fn overrides_win() {
    let env = SanitizedEnvConfig {
        redis_cache_host: Some("cache-1".into()),
        http_cache_hosts: vec!["varnish-1".into()],
        ..Default::default()
    };
    let targets = RemoteTargets {
        redis_cache: Some(Endpoint::parse("jump-1:6390", 6379).unwrap()),
        redis_password: Some("given".into()),
        storefront_url: Some(HttpTarget::parse("http://shop.internal/", 80).unwrap()),
        ..Default::default()
    };
    let plan = plan_probes(&env, &ParsedEnv::default(), &targets);
    assert_eq!(plan.redis_cache.unwrap().port, 6390);
    assert_eq!(plan.redis_password.as_deref(), Some("given"));
    assert!(matches!(plan.proxy, ProxyProbe::Storefront(_)));
}

#[test]
fn results_go_where_they_belong() {
    let mut inst = MagentoInstallation::new("/srv/shop".to_string());
    inst.runtime.redis_session =
        RedisStatus { endpoint: Some("kept".into()), ..Default::default() };
    inst.runtime.fpc.uncacheable_blocks.push(UncacheableBlock {
        module: "M".into(),
        layout_handle: "default".into(),
        block_name: "b".into(),
        class_name: None,
        template: None,
        source_file: "default.xml".into(),
        line: 1,
    });
    let r = apply_probes(
        inst,
        ProbeResults {
            database: Some(DatabaseMetrics { is_connected: true, ..Default::default() }),
            local_fpm: PhpWorkerMetrics {
                is_detected: true,
                source: WorkerMetricSource::ConfigOnly,
                max_children: Some(50),
                ..Default::default()
            },
            remote_fpm: Some(PhpWorkerMetrics {
                is_detected: true,
                source: WorkerMetricSource::FpmStatus,
                active_workers: Some(25),
                ..Default::default()
            }),
            redis_cache: Some(RedisStatus { is_reachable: true, ..Default::default() }),
            proxy: Some(VarnishProbeResult {
                outcome: ProbeOutcome::Succeeded,
                identified_as_varnish: true,
                ..Default::default()
            }),
            ..nothing()
        },
    );
    assert_eq!(r.root, "/srv/shop");
    assert!(r.database_metrics.is_connected);
    assert_eq!(r.runtime.php_workers.max_children, Some(50));
    assert_eq!(r.runtime.php_workers.source, WorkerMetricSource::FpmStatus);
    assert!(r.runtime.redis_default.is_reachable);
    assert_eq!(r.runtime.redis_session.endpoint.as_deref(), Some("kept"));
    assert_eq!(r.runtime.fpc.engine, FpcEngine::Varnish);
    assert_eq!(r.runtime.fpc.uncacheable_blocks.len(), 1);
}

#[test]
fn offline_runs_keep_the_layout_findings() {
    let mut inst = MagentoInstallation::new("/srv/shop".to_string());
    inst.env_config.http_cache_hosts.push("varnish-1".into());
    let r = apply_offline(inst);
    assert!(r.runtime.fpc.is_varnish_configured);
    assert!(!r.runtime.fpc.is_varnish_reachable);
    assert_eq!(r.runtime.fpc.varnish_probe.outcome, ProbeOutcome::NotAttempted);
}

#[test]
fn the_database_has_a_deadline() {
    assert_eq!(database_deadline_secs(0), 7);
    assert_eq!(database_deadline_secs(10), 12);
    assert_eq!(database_deadline_secs(u64::MAX), u64::MAX);
}
