//! Terminal reports and their colours.

use mdoctor::finding::{Category, Confidence, Finding, Severity};
use mdoctor::inventory::{
    align_right, inventory_heading, write_cron_heading, write_cron_row, write_database_report, write_doctor_report,
    write_indexer_row, write_module_report, write_module_rows, CronJob, HealthFigures, Indexer,
    ModuleFootprint, ModuleInfo,
};
use mdoctor::model::{
    CronScheduleSummary, FpcProbeStatus, NginxStatus, OpenSearchStatus, PhpWorkerMetrics,
    ProbeOutcome, RedisStatus, SanitizedEnvConfig, TableSizeStat, UncacheableBlock,
    WorkerMetricSource,
};
use mdoctor::ratio::Ratio;
use mdoctor::redis_check::check_redis_config;
use mdoctor::report::{paint, render, Span, Style};
use mdoctor::service_reports::{
    write_fpc_report, write_fpm_report, write_nginx_absence, write_nginx_report,
    write_puncture_row, write_redis_notes, write_redis_row, write_search_report,
};

fn bare(spans: &[Span]) -> String {
    spans.iter().map(|s| s.text.as_str()).collect()
}

fn span(text: &str, style: Style) -> Span {
    Span { text: text.to_string(), style }
}

#[test]
fn colours_become_escape_sequences() {
    colored::control::set_override(true);
    assert_eq!(paint(&span("x", Style::Plain)), "x");
    assert_eq!(paint(&span("x", Style::Bold)), "\u{1b}[1mx\u{1b}[0m");
    assert_eq!(paint(&span("x", Style::Dimmed)), "\u{1b}[2mx\u{1b}[0m");
    assert_eq!(paint(&span("x", Style::Red)), "\u{1b}[31mx\u{1b}[0m");
    assert_eq!(paint(&span("x", Style::Green)), "\u{1b}[32mx\u{1b}[0m");
    assert_eq!(paint(&span("x", Style::Yellow)), "\u{1b}[33mx\u{1b}[0m");
    assert_eq!(paint(&span("x", Style::Cyan)), "\u{1b}[36mx\u{1b}[0m");
    assert_eq!(paint(&span("x", Style::White)), "\u{1b}[37mx\u{1b}[0m");
    assert_eq!(paint(&span("x", Style::BoldRed)), "\u{1b}[1;31mx\u{1b}[0m");
    assert_eq!(paint(&span("x", Style::BoldMagenta)), "\u{1b}[1;35mx\u{1b}[0m");
    assert_eq!(
        paint(&span("a\u{1b}[0mb\u{1b}[0m", Style::Red)),
        "\u{1b}[31ma\u{1b}[0m\u{1b}[31mb\u{1b}[0m\u{1b}[31m\u{1b}[0m"
    );
    assert_eq!(
        render(&vec![span("a", Style::Plain), span("b", Style::BoldCyan)]),
        "a\u{1b}[1;36mb\u{1b}[0m"
    );
}

#[test]
fn without_colours_the_text_stands_alone() {
    colored::control::set_override(false);
    assert_eq!(render(&vec![span("a", Style::Red), span("b", Style::Bold)]), "ab");
}

#[test]
fn a_redis_row_shows_what_was_measured() {
    let st = RedisStatus {
        is_configured: true,
        is_reachable: true,
        endpoint: Some("session-1:6379".into()),
        version: Some("7.2.4".into()),
        used_memory_bytes: Some(268_435_456),
        mem_fragmentation_ratio: Ratio::new(145, 100),
        maxmemory_policy: Some("volatile-lru".into()),
        evicted_keys: Some(15),
        hit_ratio: Ratio::new(9, 10),
        ..Default::default()
    };
    let row = write_redis_row("Session", &st, true);
    let texts: Vec<&str> = row.iter().map(|s| s.text.as_str()).collect();
    assert_eq!(
        texts,
        vec!["Session", "session-1:6379", "connected", "7.2.4", "256 MB", "1.45", "volatile-lru", "15", "90.0%"]
    );
    assert_eq!(row[7].style, Style::Red);
    assert_eq!(write_redis_row("Default / Cache", &st, false)[7].style, Style::Plain);
    let unset = write_redis_row("Session", &RedisStatus::default(), true);
    assert_eq!(unset[2].text, "not configured");
    assert!(unset[3..].iter().all(|s| s.text == "-"));
}

#[test]
fn redis_notes_say_what_went_wrong() {
    let failed = RedisStatus {
        is_configured: true,
        probe: ProbeOutcome::failed("connection refused"),
        ..Default::default()
    };
    let env = SanitizedEnvConfig {
        redis_session_host: Some("r:6379".into()),
        redis_cache_host: Some("r:6379".into()),
        redis_session_db: Some("0".into()),
        redis_cache_db: Some("0".into()),
        ..Default::default()
    };
    assert_eq!(check_redis_config(&env).len(), 1);
    let text = bare(&write_redis_notes(&failed, &failed, &env));
    assert!(text.starts_with("Default / Cache (probe failed): connection refused\n"));
    assert!(text.contains("Session (probe failed): connection refused\n"));
    assert!(text.contains("pass --redis-cache / --redis-session"));
    assert!(text.contains("CRITICAL REDIS CONFIGURATION CONCERN:\n  • "));

    let up = RedisStatus { is_reachable: true, ..Default::default() };
    assert_eq!(bare(&write_redis_notes(&up, &up, &SanitizedEnvConfig::default())), "");
}

#[test]
fn the_page_cache_report_counts_punctures() {
    let mut fpc = FpcProbeStatus::default();
    let text = bare(&write_fpc_report(&fpc));
    assert!(text.contains("Varnish Reverse Proxy Reachable: NO / NOT DETECTED\n"));
    assert!(text.contains("Uncacheable Layout Blocks (cacheable=\"false\"): 0\n"));
    assert!(text.contains("✓ No storefront layout blocks found"));
    fpc.uncacheable_blocks.push(UncacheableBlock {
        module: "M".into(),
        layout_handle: "default".into(),
        block_name: "b".into(),
        class_name: None,
        template: None,
        source_file: "default.xml".into(),
        line: 7,
    });
    assert!(!bare(&write_fpc_report(&fpc)).contains("✓"));
    assert_eq!(
        write_puncture_row(&fpc.uncacheable_blocks[0]),
        vec!["M".to_string(), "default".into(), "b".into(), "default.xml:7".into()]
    );
}

#[test]
fn the_worker_report_shows_only_what_was_measured() {
    let absent = bare(&write_fpm_report(&PhpWorkerMetrics::default()));
    assert!(absent.contains("No PHP-FPM pool config or worker process found on this host."));
    assert!(absent.contains("mdoctor fpm --fpm-status http://web-1.internal/status"));

    let mut fpm = PhpWorkerMetrics {
        is_detected: true,
        source: WorkerMetricSource::FpmStatus,
        origin: Some("http://web-1:80/status?json".into()),
        pool_name: Some("www".into()),
        active_workers: Some(48),
        max_children: Some(50),
        listen_queue: Some(12),
        saturation_pct: Ratio::new(96, 1),
        worker_memory_mb: Ratio::new(321, 2),
        worker_memory_measured: true,
        ..Default::default()
    };
    let text = bare(&write_fpm_report(&fpm));
    assert!(text.contains("Read from:       http://web-1:80/status?json\n"));
    assert!(text.contains("Active Workers:  48/50 (96.0% saturation)\n"));
    assert!(text.contains("Idle Workers:    -\n"));
    assert!(text.contains("Worker Footprint: 160 MB (measured from process RSS)\n"));
    assert!(text.contains("WARNING: workers are saturated"));

    fpm.source = WorkerMetricSource::ProcScan;
    assert!(bare(&write_fpm_report(&fpm)).contains("Note: saturation and listen queue cannot be measured"));
    fpm.oom_risk = true;
    assert!(bare(&write_fpm_report(&fpm)).contains("CRITICAL: pm.max_children x worker footprint"));
    let calm = PhpWorkerMetrics {
        is_detected: true,
        source: WorkerMetricSource::FpmStatus,
        ..Default::default()
    };
    let text = bare(&write_fpm_report(&calm));
    assert!(text.contains("✓ Worker pool operating within safe memory"));
    assert!(text.contains("Worker Footprint: -\n"));
}

#[test]
fn the_nginx_report_warns_of_dropped_connections() {
    assert!(bare(&write_nginx_absence()).contains("No Nginx stub_status endpoint configured.\n"));
    let mut nginx = NginxStatus {
        is_detected: true,
        endpoint: Some("http://w/nginx_status".into()),
        active_connections: Some(291),
        dropped: Some(10),
        ..Default::default()
    };
    let text = bare(&write_nginx_report(&nginx));
    assert!(text.contains("Active Connections: 291\n"));
    assert!(text.contains("Reading / Writing / Waiting: - / - / -\n"));
    assert!(text.contains("WARNING: 10 connection(s) accepted but never handled."));
    nginx.dropped = Some(0);
    assert!(bare(&write_nginx_report(&nginx)).contains("✓ No dropped connections."));
    nginx.is_detected = false;
    nginx.probe = ProbeOutcome::failed("HTTP 403");
    assert!(bare(&write_nginx_report(&nginx)).contains("Probe:    failed: HTTP 403\n"));
}

#[test]
fn the_search_report_tells_missing_from_unknown() {
    let mut os = OpenSearchStatus { ..Default::default() };
    assert!(bare(&write_search_report(&os)).contains("No OpenSearch endpoint configured in env.php."));
    os.is_configured = true;
    os.is_reachable = true;
    os.status = Some("red".into());
    os.catalog_index_probe = ProbeOutcome::failed("HTTP 401");
    let text = bare(&write_search_report(&os));
    assert!(text.contains("Cluster Status:    RED (CRITICAL)\n"));
    assert!(text.contains("Catalog Index:     UNKNOWN (index listing failed: HTTP 401)\n"));
    os.catalog_index_probe = ProbeOutcome::Succeeded;
    assert!(bare(&write_search_report(&os)).contains("MISSING (run indexer:reindex"));
    os.has_catalog_index = true;
    os.catalog_index_names = vec!["a".into(), "b".into()];
    os.version = Some("2.11.0".into());
    let text = bare(&write_search_report(&os));
    assert!(text.contains("PRESENT (a, b)\n"));
    assert!(text.ends_with("Version:           2.11.0\n"));
}

fn module(name: &str, enabled: bool) -> ModuleInfo {
    ModuleInfo {
        name: name.into(),
        is_enabled: enabled,
        classification: "Custom".into(),
        package_name: Some("vendor/feed".into()),
        version: None,
        path: "app/code/Vendor/Feed".into(),
        sequence: vec!["Magento_Catalog".into()],
        footprint: ModuleFootprint {
            plugins_count: 1,
            preferences_count: 2,
            observers_count: 3,
            cron_jobs_count: 4,
            db_tables_count: 5,
            db_columns_count: 6,
            db_indexes_count: 7,
        },
    }
}

#[test]
fn modules_are_filtered_whatever_the_case() {
    let modules = vec![module("Vendor_Feed", true), module("Other_Pay", false)];
    assert_eq!(write_module_rows(&modules, None).len(), 2);
    assert_eq!(inventory_heading(&modules), "\nInstalled Modules Inventory (2)\n\n");
    let rows = write_module_rows(&modules, Some("vendor_"));
    assert_eq!(rows.len(), 1);
    let texts: Vec<&str> = rows[0].iter().map(|s| s.text.as_str()).collect();
    assert_eq!(texts, vec!["Vendor_Feed", "Custom", "enabled", "1", "2", "3", "4", "5"]);
}

#[test]
fn one_module_is_reported_with_its_reach() {
    let text = bare(&write_module_report(&module("Vendor_Feed", false)));
    assert_eq!(
        text,
        "\nVendor_Feed\n\nStatus: disabled\nPackage: vendor/feed\nClassification: Custom\n\
         Location: app/code/Vendor/Feed\n\nDependencies (sequence):\n  • Magento_Catalog\n\n\
         Magento Integration Footprint:\n  Plugins:      1\n  Preferences:  2\n  Observers:    3\n  \
         Cron jobs:    4\n  DB tables:    5\n  DB columns:   6\n  Indexes:      7\n"
    );
}

#[test]
fn cron_jobs_and_indexers_have_their_rows() {
    let job = CronJob {
        name: "j".into(),
        module: "M".into(),
        schedule: None,
        interval_seconds: Some(60),
        instance: "I".into(),
    };
    assert_eq!(write_cron_row(&job), vec!["j", "M", "none", "60s", "I"]);
    let custom = CronJob { interval_seconds: None, schedule: Some("* * * * *".into()), ..job };
    assert_eq!(write_cron_row(&custom)[2..4], ["* * * * *", "custom"]);
    let indexer =
        Indexer { id: "i".into(), view_id: "v".into(), title: "t".into(), module: "M".into() };
    assert_eq!(write_indexer_row(&indexer), vec!["i", "v", "t", "M"]);
    let summary = CronScheduleSummary {
        total_rows: 9,
        pending_rows: 5,
        running_rows: 1,
        missed_rows: 3,
        ..Default::default()
    };
    assert!(bare(&write_cron_heading(&summary))
        .ends_with("cron_schedule state: 9 rows (5 pending, 1 running, 3 missed)\n"));
    assert!(bare(&write_cron_heading(&CronScheduleSummary::default())).ends_with("Cron Forensics\n\n"));
}

#[test]
fn the_database_report_lists_ten_tables() {
    let table = |n: u64| TableSizeStat {
        table_name: format!("t{}", n),
        row_count: n,
        data_bytes: 0,
        index_bytes: 0,
        total_bytes: n * 1_048_576,
    };
    let sizes: Vec<TableSizeStat> = (1..=12).map(table).collect();
    let missing = vec![("quote".to_string(), "idx".to_string())];
    let text = bare(&write_database_report(40, &missing, 2, &sizes));
    assert!(text.contains("Declared tables: 40\nMissing declared indexes: 1\nOrphan tables: 2\n"));
    assert!(text.contains("\nMissing declared indexes:\n  • quote.idx\n"));
    assert!(text.contains(&format!("  • {:<35} {:>10} rows   {:>6} MB\n", "t1", 1, 1)));
    assert!(text.contains("t10") && !text.contains("t11"));
    let empty = bare(&write_database_report(0, &Vec::new(), 0, &Vec::new()));
    assert!(empty.ends_with("Orphan tables: 0\n"));
    assert_eq!(align_right("7", 3), "  7");
    assert_eq!(align_right("1234", 3), "1234");
}

#[test]
fn the_health_check_lists_critical_findings() {
    let mut critical =
        Finding::new("MD-X-1", "Bad", Severity::Critical, Confidence::High, Category::Search);
    critical.recommendation = "Fix it".to_string();
    let warning =
        Finding::new("MD-X-2", "Meh", Severity::Warning, Confidence::Low, Category::Search);
    let health = HealthFigures { overall: 60, critical_count: 1, warning_count: 1, info_count: 0 };
    let text = bare(&write_doctor_report(&health, &vec![critical, warning]));
    assert!(text.contains("Overall Health: 60 / 100\nCritical: 1  Warning: 1  Info: 0\n\n"));
    assert!(text.contains("CRITICAL CONCERNS:\n  • [MD-X-1] Bad\n    Fix it\n"));
    assert!(!text.contains("MD-X-2"));
    let fine = HealthFigures { overall: 100, critical_count: 0, warning_count: 0, info_count: 0 };
    assert!(bare(&write_doctor_report(&fine, &Vec::new())).contains("✓ No critical operational"));
}
