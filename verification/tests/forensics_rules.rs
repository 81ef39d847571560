//! The runtime forensics rules.

use mdoctor::finding::{scan_exit_code, Confidence, Severity};
use mdoctor::forensics_rules::evaluate_forensics_rules;
use mdoctor::model::{
    ActiveLockWait, FpcProbeStatus, MagentoInstallation, OpenSearchStatus, PhpWorkerMetrics,
    ProbeOutcome, QueryDigest, RedisStatus, UncacheableBlock, WorkerMetricSource,
};
use mdoctor::ratio::Ratio;

fn installation() -> MagentoInstallation {
    MagentoInstallation::new(String::from("/tmp"))
}

fn picoseconds(ms: f64) -> u64 {
    (ms * 1_000_000_000.0) as u64
}

fn percent(value: f64) -> Option<Ratio> {
    Ratio::new((value * 10.0) as u64, 10)
}

fn reachable_redis(policy: &str, evicted: u64, endpoint: &str) -> RedisStatus {
    RedisStatus {
        is_configured: true,
        is_reachable: true,
        endpoint: Some(endpoint.to_string()),
        probe: ProbeOutcome::Succeeded,
        maxmemory_policy: Some(policy.to_string()),
        evicted_keys: Some(evicted),
        ..Default::default()
    }
}

#[test]
fn test_detect_slow_query_digest() {
    let mut inst = installation();
    inst.database_metrics.query_digests.push(QueryDigest {
        fingerprint: "SELECT * FROM catalog_product_entity WHERE sku = ?".to_string(),
        avg_time_ps: picoseconds(1850.0),
        avg_rows_examined: 80000,
        tables_involved: vec!["catalog_product_entity".to_string()],
        ..Default::default()
    });

    let findings = evaluate_forensics_rules(&inst);
    assert_eq!(findings.len(), 1);
    assert_eq!(findings[0].rule_id, "MD-SQL-001");
    assert_eq!(findings[0].severity, Severity::Critical);
    assert!(
        !findings[0].verification_commands.iter().any(|c| c.starts_with("EXPLAIN SELECT")),
        "a digest with ? placeholders is not runnable SQL"
    );
}

#[test]
fn test_wide_but_fast_digest_is_only_a_warning() {
    let mut inst = installation();
    inst.database_metrics.query_digests.push(QueryDigest {
        fingerprint: "SELECT ... FROM catalog_product_entity".to_string(),
        avg_time_ps: picoseconds(45.0),
        avg_rows_examined: 90_000,
        ..Default::default()
    });

    let findings = evaluate_forensics_rules(&inst);
    assert_eq!(findings.len(), 1);
    assert_eq!(findings[0].severity, Severity::Warning);
}

#[test]
fn test_volatile_lru_session_policy_is_not_flagged() {
    // Adobe documents volatile-lru for the session store, and Magento sets a TTL
    // on every session key, so only expired sessions are evicted.
    let mut inst = installation();
    inst.runtime.redis_session = reachable_redis("volatile-lru", 0, "session-1:6379");

    let findings = evaluate_forensics_rules(&inst);
    assert!(
        findings.iter().all(|f| f.rule_id != "MD-RDS-001"),
        "volatile-lru with no evictions must not be reported"
    );
}

#[test]
fn test_noeviction_session_policy_is_not_flagged() {
    let mut inst = installation();
    inst.runtime.redis_session = reachable_redis("noeviction", 0, "session-1:6379");
    assert!(evaluate_forensics_rules(&inst).iter().all(|f| f.rule_id != "MD-RDS-001"));
}

#[test]
fn test_allkeys_lru_session_policy_is_critical() {
    let mut inst = installation();
    inst.runtime.redis_session = reachable_redis("allkeys-lru", 4210, "session-1:6379");

    let f = evaluate_forensics_rules(&inst)
        .into_iter()
        .find(|f| f.rule_id == "MD-RDS-001")
        .expect("allkeys-lru discards live sessions");
    assert_eq!(f.severity, Severity::Critical);
    assert_eq!(f.confidence, Confidence::High);
    assert!(f.recommendation.contains("volatile-lru"));
}

#[test]
fn test_unreachable_session_redis_produces_no_finding() {
    let mut inst = installation();
    inst.runtime.redis_session = RedisStatus {
        is_configured: true,
        is_reachable: false,
        probe: ProbeOutcome::failed("connection refused"),
        ..Default::default()
    };
    assert!(evaluate_forensics_rules(&inst).is_empty());
}

#[test]
fn test_shared_instance_evictions_are_not_blamed_on_sessions() {
    // evicted_keys is server-wide: on a shared instance the evictions may be
    // entirely the cache database's.
    let mut inst = installation();
    inst.runtime.redis_session = reachable_redis("volatile-lru", 9000, "redis-1:6379");
    inst.runtime.redis_default = reachable_redis("volatile-lru", 9000, "redis-1:6379");

    assert!(
        evaluate_forensics_rules(&inst).iter().all(|f| f.rule_id != "MD-RDS-001"),
        "a shared counter cannot prove session eviction"
    );
}

#[test]
fn test_dedicated_session_instance_evictions_are_flagged() {
    let mut inst = installation();
    inst.runtime.redis_session = reachable_redis("volatile-lru", 9000, "session-1:6379");
    inst.runtime.redis_default = reachable_redis("volatile-lru", 0, "cache-1:6379");

    let f = evaluate_forensics_rules(&inst)
        .into_iter()
        .find(|f| f.rule_id == "MD-RDS-001")
        .expect("evictions on a dedicated session instance are attributable");
    assert_eq!(f.severity, Severity::Warning);
}

#[test]
fn test_no_php_fpm_produces_no_findings() {
    let inst = installation();
    assert!(evaluate_forensics_rules(&inst).iter().all(|f| !f.rule_id.starts_with("MD-FPM")));
}

#[test]
fn test_proc_scan_saturation_does_not_raise_fpm_001() {
    // A /proc scan counts only workers in R state, so its saturation figure cannot
    // support a saturation alert.
    let mut inst = installation();
    inst.runtime.php_workers = PhpWorkerMetrics {
        is_detected: true,
        source: WorkerMetricSource::ProcScan,
        pool_name: Some("www".to_string()),
        active_workers: Some(48),
        max_children: Some(50),
        saturation_pct: percent(96.0),
        ..Default::default()
    };

    assert!(evaluate_forensics_rules(&inst).iter().all(|f| f.rule_id != "MD-FPM-001"));
}

#[test]
fn test_fpm_status_saturation_raises_fpm_001() {
    let mut inst = installation();
    inst.runtime.php_workers = PhpWorkerMetrics {
        is_detected: true,
        source: WorkerMetricSource::FpmStatus,
        origin: Some("http://web-1.internal:80/status?json".to_string()),
        pool_name: Some("www".to_string()),
        active_workers: Some(48),
        max_children: Some(50),
        listen_queue: Some(12),
        max_children_reached: Some(3),
        saturation_pct: percent(96.0),
        ..Default::default()
    };

    let f = evaluate_forensics_rules(&inst)
        .into_iter()
        .find(|f| f.rule_id == "MD-FPM-001")
        .expect("a real scoreboard with a queue is a genuine saturation signal");
    assert_eq!(f.severity, Severity::Critical);
    assert!(f.evidence.iter().any(|e| e.contains("web-1.internal")));
}

#[test]
fn test_single_node_yellow_cluster_is_informational() {
    let mut inst = installation();
    inst.runtime.opensearch = OpenSearchStatus {
        is_configured: true,
        is_reachable: true,
        status: Some("yellow".to_string()),
        number_of_nodes: Some(1),
        unassigned_shards: Some(6),
        probe: ProbeOutcome::Succeeded,
        ..Default::default()
    };

    let findings = evaluate_forensics_rules(&inst);
    assert!(findings.iter().all(|f| f.rule_id != "MD-SRC-001"), "single-node yellow is by design");
    let info = findings.iter().find(|f| f.rule_id == "MD-SRC-002").expect("informational note");
    assert_eq!(info.severity, Severity::Info);
}

#[test]
fn test_multi_node_yellow_cluster_is_degraded() {
    let mut inst = installation();
    inst.runtime.opensearch = OpenSearchStatus {
        is_configured: true,
        is_reachable: true,
        status: Some("yellow".to_string()),
        number_of_nodes: Some(3),
        unassigned_shards: Some(4),
        probe: ProbeOutcome::Succeeded,
        ..Default::default()
    };

    let f = evaluate_forensics_rules(&inst)
        .into_iter()
        .find(|f| f.rule_id == "MD-SRC-001")
        .expect("unassigned shards on a multi-node cluster are real");
    assert_eq!(f.severity, Severity::Warning);
}

#[test]
fn test_failed_index_probe_does_not_claim_missing_index() {
    let mut inst = installation();
    inst.runtime.opensearch = OpenSearchStatus {
        is_configured: true,
        is_reachable: true,
        status: Some("green".to_string()),
        number_of_nodes: Some(3),
        has_catalog_index: false,
        catalog_index_probe: ProbeOutcome::failed("HTTP 403"),
        probe: ProbeOutcome::Succeeded,
        ..Default::default()
    };

    assert!(
        evaluate_forensics_rules(&inst).iter().all(|f| f.rule_id != "MD-SRC-003"),
        "an index listing we could not read is unknown, not missing"
    );
}

#[test]
fn test_successful_probe_with_no_catalog_index_is_critical() {
    let mut inst = installation();
    inst.runtime.opensearch = OpenSearchStatus {
        is_configured: true,
        is_reachable: true,
        status: Some("green".to_string()),
        number_of_nodes: Some(3),
        has_catalog_index: false,
        catalog_index_probe: ProbeOutcome::Succeeded,
        probe: ProbeOutcome::Succeeded,
        ..Default::default()
    };

    let f = evaluate_forensics_rules(&inst)
        .into_iter()
        .find(|f| f.rule_id == "MD-SRC-003")
        .expect("a confirmed empty cluster breaks catalog search");
    assert_eq!(f.severity, Severity::Critical);
}

#[test]
fn test_detect_fpc_puncture() {
    let mut inst = installation();
    inst.runtime.fpc = FpcProbeStatus {
        uncacheable_blocks: vec![UncacheableBlock {
            module: "Vendor_Social".to_string(),
            layout_handle: "catalog_product_view".to_string(),
            block_name: "social.share".to_string(),
            class_name: None,
            template: None,
            source_file: String::from("view/frontend/layout/catalog_product_view.xml"),
            line: 4,
        }],
        ..Default::default()
    };

    let findings = evaluate_forensics_rules(&inst);
    assert_eq!(findings.len(), 1);
    assert_eq!(findings[0].rule_id, "MD-FPC-001");
    assert_eq!(findings[0].severity, Severity::Critical);
}

#[test]
fn test_fpc_puncture_deduplicated_across_theme_override() {
    let mut inst = installation();
    let block = |source: &str| UncacheableBlock {
        module: "Vendor_Social".to_string(),
        layout_handle: "catalog_product_view".to_string(),
        block_name: "social.share".to_string(),
        class_name: None,
        template: None,
        source_file: String::from(source),
        line: 4,
    };
    inst.runtime.fpc.uncacheable_blocks = vec![
        block("app/code/Vendor/Social/view/frontend/layout/catalog_product_view.xml"),
        block("app/design/frontend/Acme/main/Vendor_Social/layout/catalog_product_view.xml"),
    ];

    let findings = evaluate_forensics_rules(&inst);
    assert_eq!(findings.len(), 1, "the same block in two files is one problem");
}

#[test]
fn test_confirmed_lock_wait_is_critical_and_long_query_is_not() {
    let mut inst = installation();
    inst.database_metrics.active_lock_waits = vec![
        ActiveLockWait {
            waiting_query_id: 11,
            waiting_query: "UPDATE quote SET ...".to_string(),
            blocking_query_id: Some(9),
            blocking_query: Some("UPDATE quote_item SET ...".to_string()),
            wait_time_secs: 14,
            is_confirmed_lock_wait: true,
            ..Default::default()
        },
        ActiveLockWait {
            waiting_query_id: 12,
            waiting_query: "SELECT ... FROM sales_order_grid".to_string(),
            wait_time_secs: 900,
            is_confirmed_lock_wait: false,
            command: Some("Query".to_string()),
            ..Default::default()
        },
    ];

    let findings = evaluate_forensics_rules(&inst);
    let confirmed = findings.iter().find(|f| f.rule_id == "MD-SQL-002").expect("confirmed lock wait");
    assert_eq!(confirmed.severity, Severity::Critical);

    let slow = findings.iter().find(|f| f.rule_id == "MD-SQL-003").expect("long query");
    assert_eq!(slow.severity, Severity::Warning);
    assert!(slow.summary.contains("rather than a confirmed lock wait"));
}

fn rules(inst: &MagentoInstallation) -> Vec<String> {
    evaluate_forensics_rules(inst).into_iter().map(|f| f.rule_id).collect()
}

#[test]
fn a_clean_store_has_no_findings() {
    let inst = installation();
    assert!(rules(&inst).is_empty());
    assert_eq!(scan_exit_code(&evaluate_forensics_rules(&inst)), 0);
}

#[test]
fn exit_codes_follow_the_worst_finding() {
    let mut inst = installation();
    inst.database_metrics.query_digests.push(QueryDigest {
        avg_time_ps: picoseconds(45.0),
        avg_rows_examined: 90_000,
        ..Default::default()
    });
    assert_eq!(scan_exit_code(&evaluate_forensics_rules(&inst)), 1);
    inst.runtime.redis_session = reachable_redis("allkeys-lru", 0, "session-1:6379");
    assert_eq!(scan_exit_code(&evaluate_forensics_rules(&inst)), 2);
}

#[test]
fn low_hit_ratio_and_fragmentation_are_reported() {
    let mut inst = installation();
    inst.runtime.redis_default = RedisStatus {
        hit_ratio: Ratio::new(1, 2),
        keyspace_hits: Some(100_000),
        keyspace_misses: Some(100_000),
        mem_fragmentation_ratio: Ratio::new(3, 1),
        used_memory_bytes: Some(1_000_000_000),
        ..reachable_redis("allkeys-lru", 0, "cache-1:6379")
    };
    let found = rules(&inst);
    assert!(found.contains(&"MD-RDS-002".to_string()));
    assert!(found.contains(&"MD-RDS-003".to_string()));
}

#[test]
fn a_pool_larger_than_its_host_is_a_memory_risk() {
    let mut inst = installation();
    inst.runtime.php_workers = PhpWorkerMetrics {
        is_detected: true,
        source: WorkerMetricSource::ConfigOnly,
        max_children: Some(100),
        worker_memory_mb: Ratio::new(160, 1),
        worker_memory_measured: true,
        total_pool_memory_mb: Ratio::new(16_000, 1),
        host_total_memory_mb: Ratio::new(8192, 1),
        oom_risk: true,
        ..Default::default()
    };
    assert!(rules(&inst).contains(&"MD-FPM-002".to_string()));
}
