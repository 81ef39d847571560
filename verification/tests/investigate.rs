//! Root-cause diagnoses.

use mdoctor::finding::Confidence;
use mdoctor::investigate::{investigate_installation, investigation_exit_code};
use mdoctor::model::{
    ActiveLockWait, AstFinding, FpcEngine, FpcProbeStatus, MagentoInstallation, OpenSearchStatus,
    OperationType, PhpWorkerMetrics, Plugin, PluginType, ProbeOutcome, QueryDigest, RedisStatus,
    UncacheableBlock, WorkerMetricSource,
};
use mdoctor::ratio::Ratio;

fn installation() -> MagentoInstallation {
    MagentoInstallation::new(String::from("/tmp"))
}

fn picoseconds(ms: f64) -> u64 {
    (ms * 1_000_000_000.0) as u64
}

fn percent(value: f64) -> Option<Ratio> {
    Ratio::new((value * 10.0) as u64, 10)
}

fn scoreboard(saturation: f64, queue: u64) -> PhpWorkerMetrics {
    PhpWorkerMetrics {
        is_detected: true,
        source: WorkerMetricSource::FpmStatus,
        pool_name: Some("www".to_string()),
        process_manager: Some("dynamic".to_string()),
        active_workers: Some(48),
        idle_workers: Some(2),
        total_workers: Some(50),
        max_children: Some(50),
        listen_queue: Some(queue),
        saturation_pct: percent(saturation),
        ..Default::default()
    }
}

#[test]
fn test_investigate_fpc_puncture() {
    let mut inst = installation();
    inst.runtime.fpc = FpcProbeStatus {
        engine: FpcEngine::BuiltIn,
        uncacheable_blocks: vec![UncacheableBlock {
            module: "Vendor_BadMod".to_string(),
            layout_handle: "catalog_product_view".to_string(),
            block_name: "bad.block".to_string(),
            class_name: None,
            template: None,
            source_file: String::from("view/frontend/layout/catalog_product_view.xml"),
            line: 12,
        }],
        ..Default::default()
    };

    let results = investigate_installation(&inst, &[], None);
    let fpc = results.iter().find(|r| r.target.contains("fpc")).expect("FPC investigation");
    assert_eq!(fpc.culprit_modules, vec!["Vendor_BadMod".to_string()]);
    assert!(!fpc.evidence_basis.is_empty(), "the basis must be stated");
}

#[test]
fn test_investigate_worker_saturation_and_slow_query() {
    let mut inst = installation();
    inst.runtime.php_workers = scoreboard(96.0, 8);
    inst.database_metrics.query_digests.push(QueryDigest {
        fingerprint: "SELECT * FROM sales_order_grid WHERE status = ?".to_string(),
        avg_time_ps: picoseconds(4200.0),
        tables_involved: vec!["sales_order_grid".to_string()],
        ..Default::default()
    });

    let results = investigate_installation(&inst, &[], Some("504"));
    assert_eq!(results.len(), 1);
    // Two independent measurements corroborate, so High confidence is earned.
    assert_eq!(results[0].confidence, Confidence::High);
    assert!(results[0].impact_score >= 85);
    assert_eq!(results[0].evidence_basis.len(), 2);
    assert!(results[0].causal_chain.nodes.len() >= 2);
}

#[test]
fn test_cron_backlog_alone_is_low_confidence_and_says_so() {
    let mut inst = installation();
    inst.database_metrics.cron_schedule.pending_rows = 500;

    let results = investigate_installation(&inst, &[], None);
    let r = results.first().expect("cron backlog is still worth reporting");

    assert_eq!(r.confidence, Confidence::Low);
    assert!(r.impact_score < 90, "a single weak signal must not read as critical");
    assert!(r.title.contains("Cron"), "the title must name what was found: {}", r.title);
    assert!(r.summary.contains("only measured signal"));
    assert_eq!(r.evidence_basis.len(), 1);
    assert!(
        !r.causal_chain.nodes.iter().any(|n| n.subsystem == "PHP-FPM"),
        "no PHP-FPM node when no worker data was collected"
    );
}

#[test]
fn test_proc_scan_saturation_is_not_treated_as_worker_pressure() {
    let mut inst = installation();
    inst.runtime.php_workers = PhpWorkerMetrics {
        source: WorkerMetricSource::ProcScan,
        saturation_pct: percent(99.0),
        ..scoreboard(99.0, 0)
    };

    assert!(
        investigate_installation(&inst, &[], None).is_empty(),
        "an approximate /proc figure cannot found a diagnosis"
    );
}

#[test]
fn test_checkout_plugin_without_http_call_does_not_claim_one() {
    let mut inst = installation();
    inst.plugins.push(Plugin {
        name: "vendor_order_sync".to_string(),
        module: "Vendor_OrderSync".to_string(),
        plugin_class: "Vendor\\OrderSync\\Plugin\\SubmitQuote".to_string(),
        target_class: "Magento\\Quote\\Model\\QuoteManagement".to_string(),
        plugin_type: PluginType::Around,
        sort_order: 10,
        is_disabled: false,
        area: "global".to_string(),
        source_file: String::from("app/code/Vendor/OrderSync/etc/di.xml"),
        line: 12,
        cost_indicators: Vec::new(),
    });

    let r = investigate_installation(&inst, &[], None)
        .into_iter()
        .find(|r| r.target.contains("checkout"))
        .expect("an around plugin on the order path is worth surfacing");

    assert!(
        !r.summary.contains("synchronous external HTTP"),
        "must not assert an HTTP call that was never found: {}",
        r.summary
    );
    assert!(r.title.contains("Around Plugins Intercept"));
    assert_eq!(r.confidence, Confidence::Low);
    assert!(r.impact_score < 90);
    assert!(!r.culprit_modules.is_empty(), "the plugin's module is still named");
}

#[test]
fn test_redis_collision_alone_names_the_collision_not_eviction() {
    let mut inst = installation();
    inst.env_config.redis_session_host = Some("127.0.0.1:6379".to_string());
    inst.env_config.redis_cache_host = Some("127.0.0.1:6379".to_string());
    inst.env_config.redis_session_db = Some("0".to_string());
    inst.env_config.redis_cache_db = Some("0".to_string());

    let r = investigate_installation(&inst, &[], None)
        .into_iter()
        .find(|r| r.target.contains("session"))
        .expect("a shared session/cache database is a real problem");

    assert!(r.title.contains("Share One Redis Database"), "title was: {}", r.title);
    assert!(r.summary.contains("No live eviction was measured"));
    assert!(r.impact_score < 90);
}

#[test]
fn test_unsafe_session_policy_plus_evictions_is_high_confidence() {
    let mut inst = installation();
    inst.runtime.redis_session = RedisStatus {
        is_configured: true,
        is_reachable: true,
        endpoint: Some("session-1:6379".to_string()),
        probe: ProbeOutcome::Succeeded,
        maxmemory_policy: Some("allkeys-lru".to_string()),
        evicted_keys: Some(8400),
        ..Default::default()
    };
    inst.runtime.redis_default = RedisStatus {
        is_configured: true,
        is_reachable: true,
        endpoint: Some("cache-1:6379".to_string()),
        probe: ProbeOutcome::Succeeded,
        ..Default::default()
    };

    let r = investigate_installation(&inst, &[], None)
        .into_iter()
        .find(|r| r.target.contains("session"))
        .expect("eviction diagnosis");

    assert_eq!(r.confidence, Confidence::High);
    assert!(r.impact_score >= 90);
    assert!(r.title.contains("Eviction"));
}

#[test]
fn test_single_node_yellow_cluster_is_not_investigated() {
    let mut inst = installation();
    inst.runtime.opensearch = OpenSearchStatus {
        is_configured: true,
        is_reachable: true,
        status: Some("yellow".to_string()),
        number_of_nodes: Some(1),
        unassigned_shards: Some(8),
        has_catalog_index: true,
        catalog_index_probe: ProbeOutcome::Succeeded,
        probe: ProbeOutcome::Succeeded,
        ..Default::default()
    };

    assert!(investigate_installation(&inst, &[], None).is_empty());
}

#[test]
fn test_failed_index_probe_is_not_a_missing_index() {
    let mut inst = installation();
    inst.runtime.opensearch = OpenSearchStatus {
        is_configured: true,
        is_reachable: true,
        status: Some("green".to_string()),
        number_of_nodes: Some(3),
        has_catalog_index: false,
        catalog_index_probe: ProbeOutcome::failed("HTTP 401"),
        probe: ProbeOutcome::Succeeded,
        ..Default::default()
    };

    assert!(
        investigate_installation(&inst, &[], None).is_empty(),
        "an unreadable index listing must not be reported as a missing index"
    );
}

#[test]
fn test_confirmed_lock_wait_raises_checkout_and_worker_signals() {
    let mut inst = installation();
    inst.runtime.php_workers = scoreboard(90.0, 3);
    inst.database_metrics.active_lock_waits.push(ActiveLockWait {
        waiting_query_id: 42,
        waiting_query: "UPDATE quote SET ...".to_string(),
        blocking_query_id: Some(41),
        blocking_query: Some("UPDATE quote_item ...".to_string()),
        wait_time_secs: 18,
        table_name: Some("quote".to_string()),
        is_confirmed_lock_wait: true,
        ..Default::default()
    });

    let r = investigate_installation(&inst, &[], Some("504"))
        .into_iter()
        .next()
        .expect("worker plus lock evidence");
    assert_eq!(r.confidence, Confidence::High);
    assert!(r.title.contains("Lock Contention"));
}

#[test]
fn test_clean_installation_yields_nothing() {
    assert!(investigate_installation(&installation(), &[], None).is_empty());
}

#[test]
fn a_symptom_narrows_the_diagnoses() {
    let mut inst = installation();
    inst.runtime.fpc.uncacheable_blocks.push(UncacheableBlock {
        module: "M".into(),
        layout_handle: "default".into(),
        block_name: "b".into(),
        class_name: None,
        template: None,
        source_file: "default.xml".into(),
        line: 1,
    });
    inst.database_metrics.cron_schedule.pending_rows = 500;
    assert_eq!(investigate_installation(&inst, &[], None).len(), 2);
    let cache = investigate_installation(&inst, &[], Some("FPC"));
    assert_eq!(cache.len(), 1);
    assert!(cache[0].target.contains("fpc"));
    assert!(investigate_installation(&inst, &[], Some("no such symptom")).is_empty());
}

#[test]
fn diagnoses_are_ranked_by_impact() {
    let mut inst = installation();
    inst.runtime.php_workers = scoreboard(96.0, 8);
    inst.database_metrics.query_digests.push(QueryDigest {
        fingerprint: "SELECT * FROM quote".to_string(),
        avg_time_ps: picoseconds(4200.0),
        tables_involved: vec!["quote".to_string()],
        ..Default::default()
    });
    inst.env_config.redis_session_host = Some("127.0.0.1:6379".to_string());
    inst.env_config.redis_cache_host = Some("127.0.0.1:6379".to_string());
    inst.env_config.redis_session_db = Some("0".to_string());
    inst.env_config.redis_cache_db = Some("0".to_string());
    let results = investigate_installation(&inst, &[], None);
    assert!(results.len() >= 2);
    assert!(results.windows(2).all(|w| w[0].impact_score >= w[1].impact_score));
    assert!(results.iter().all(|r| !r.evidence_basis.is_empty()));
    assert!(results.iter().all(|r| r.impact_score < 90 || r.confidence == Confidence::High));
}

#[test]
fn a_found_http_call_on_the_order_path_is_claimed() {
    let mut inst = installation();
    inst.plugins.push(Plugin {
        name: "sync".into(),
        module: "Vendor_OrderSync".into(),
        plugin_class: "Vendor\\OrderSync\\Plugin\\SubmitQuote".into(),
        target_class: "Magento\\Quote\\Model\\QuoteManagement".into(),
        plugin_type: PluginType::Around,
        sort_order: 10,
        is_disabled: false,
        area: "global".into(),
        source_file: "app/code/Vendor/OrderSync/etc/di.xml".into(),
        line: 12,
        cost_indicators: Vec::new(),
    });
    let call = AstFinding {
        operation: OperationType::HttpRequest,
        in_loop: false,
        file_path: Some("app/code/Vendor/OrderSync/Plugin/SubmitQuote.php".into()),
        line_number: 20,
        class_name: Some("Vendor\\OrderSync\\Plugin\\SubmitQuote".into()),
        call_signature: "curl_exec".into(),
    };
    let without = investigate_installation(&inst, &[], Some("checkout"));
    let with = investigate_installation(&inst, &[call], Some("checkout"));
    assert_eq!(without.len(), 1);
    assert_eq!(with.len(), 1);
    assert!(with[0].evidence_basis.len() > without[0].evidence_basis.len());
}

#[test]
fn exit_codes_follow_the_worst_impact() {
    let mut inst = installation();
    assert_eq!(investigation_exit_code(&investigate_installation(&inst, &[], None)), 0);
    inst.database_metrics.cron_schedule.pending_rows = 500;
    assert_eq!(investigation_exit_code(&investigate_installation(&inst, &[], None)), 1);
    inst.runtime.redis_session = RedisStatus {
        is_configured: true,
        is_reachable: true,
        endpoint: Some("session-1:6379".to_string()),
        probe: ProbeOutcome::Succeeded,
        maxmemory_policy: Some("allkeys-lru".to_string()),
        evicted_keys: Some(8400),
        ..Default::default()
    };
    assert_eq!(investigation_exit_code(&investigate_installation(&inst, &[], None)), 2);
}
