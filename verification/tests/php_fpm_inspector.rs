//! PHP-FPM pools.

use mdoctor::endpoints::HttpTarget;
use mdoctor::http_probe::{parse_response, HttpProbeError, HttpResponse};
use mdoctor::model::{PhpWorkerMetrics, WorkerMetricSource};
use mdoctor::php_fpm_inspector::{
    discover_fpm_conf, inspect_php_fpm, inspect_php_fpm_remote, merge_local_sizing, names_process,
    parse_fpm_status, parse_mem_total, parse_php_fpm_conf, parse_proc_state, parse_rss_kb,
    pool_conf_paths, status_path, FpmProcessScan,
};
use mdoctor::ratio::Ratio;

fn value(r: Option<Ratio>) -> Option<f64> {
    r.map(|r| {
        let (n, d) = r.parts();
        n as f64 / d as f64
    })
}

fn figure(v: f64) -> Option<Ratio> {
    Ratio::new(v as u64, 1)
}

#[test]
fn test_parse_php_fpm_conf() {
    let conf = r#"
[www]
pm = dynamic
pm.max_children = 50
pm.start_servers = 10
pm.max_requests = 1000
"#;
    let map = parse_php_fpm_conf(conf);
    assert_eq!(map.get("pm"), Some("dynamic"));
    assert_eq!(map.get("pm.max_children"), Some("50"));
    assert_eq!(map.get("pool"), Some("www"));
}

#[test]
fn test_parse_php_fpm_conf_strips_inline_comments() {
    let map = parse_php_fpm_conf("[www]\npm.max_children = 50 ; sized for 8GB\n");
    assert_eq!(map.get("pm.max_children"), Some("50"));
}

#[test]
fn test_parse_php_fpm_conf_stops_at_second_pool() {
    // Merging pools would let an admin pool's limits masquerade as the web pool's.
    let conf = "[www]\npm.max_children = 50\n\n[admin]\npm.max_children = 5\n";
    let map = parse_php_fpm_conf(conf);
    assert_eq!(map.get("pm.max_children"), Some("50"));
    assert_eq!(map.get("pool"), Some("www"));
}

#[test]
fn test_no_fpm_anywhere_reports_not_detected() {
    let paths = pool_conf_paths(Some("/nonexistent/mdoctor-test/www.conf"));
    assert_eq!(paths, vec!["/nonexistent/mdoctor-test/www.conf".to_string()]);
    let conf = discover_fpm_conf(&paths, &vec![None]);
    let metrics = inspect_php_fpm(&conf, &FpmProcessScan::default(), None);

    assert!(!metrics.is_detected);
    assert_eq!(metrics.source, WorkerMetricSource::NotDetected);
    assert_eq!(metrics.max_children, None, "no config means no ceiling");
    assert_eq!(metrics.pool_name, None);
    assert!(!metrics.oom_risk, "OOM risk cannot be asserted without real inputs");
    assert_eq!(value(metrics.total_pool_memory_mb), None);
}

#[test]
fn test_parse_fpm_status_text() {
    let body = "pool:                 www
process manager:      dynamic
start time:           01/Jan/2026:00:00:00 +0000
accepted conn:        120451
listen queue:         7
max listen queue:     31
listen queue len:     128
idle processes:       2
active processes:     48
total processes:      50
max active processes: 50
max children reached: 4
slow requests:        12
";
    let m = parse_fpm_status(body);
    assert!(m.is_detected);
    assert_eq!(m.source, WorkerMetricSource::FpmStatus);
    assert_eq!(m.pool_name.as_deref(), Some("www"));
    assert_eq!(m.active_workers, Some(48));
    assert_eq!(m.idle_workers, Some(2));
    assert_eq!(m.total_workers, Some(50));
    assert_eq!(m.listen_queue, Some(7));
    assert_eq!(m.listen_queue_len, Some(128));
    assert_eq!(m.max_children_reached, Some(4));
    assert_eq!(m.slow_requests, Some(12));
    assert!(m.source.has_reliable_saturation());
}

#[test]
fn test_parse_fpm_status_json() {
    let body = r#"{"pool":"www","process manager":"dynamic","listen queue":3,
            "idle processes":5,"active processes":45,"total processes":50,
            "max active processes":50,"max children reached":2,"slow requests":0}"#;
    let m = parse_fpm_status(body);
    assert_eq!(m.source, WorkerMetricSource::FpmStatus);
    assert_eq!(m.active_workers, Some(45));
    assert_eq!(m.listen_queue, Some(3));
    assert_eq!(value(m.saturation_pct), Some(90.0));
}

#[test]
fn test_parse_fpm_status_rejects_unrelated_body() {
    // A 200 from the storefront instead of the status path must not be believed.
    let m = parse_fpm_status("<html><body>Welcome to nginx!</body></html>");
    assert!(!m.is_detected);
    assert_eq!(m.source, WorkerMetricSource::NotDetected);
}

#[test]
fn test_merge_local_sizing_uses_real_max_children_and_ram() {
    let remote = parse_fpm_status("active processes: 40\nidle processes: 0\ntotal processes: 40\n");
    let local = PhpWorkerMetrics {
        is_detected: true,
        source: WorkerMetricSource::ConfigOnly,
        max_children: Some(100),
        worker_memory_mb: figure(160.0),
        worker_memory_measured: true,
        host_total_memory_mb: figure(8192.0),
        ..Default::default()
    };

    let merged = merge_local_sizing(remote, &local);
    assert_eq!(merged.max_children, Some(100));
    assert_eq!(value(merged.saturation_pct), Some(40.0));
    assert_eq!(value(merged.total_pool_memory_mb), Some(16000.0));
    assert!(merged.oom_risk, "16GB pool on an 8GB host is a real OOM risk");
    assert!(merged.worker_memory_measured);
}

#[test]
fn test_merge_local_sizing_without_host_memory_makes_no_oom_claim() {
    let remote = parse_fpm_status("active processes: 10\ntotal processes: 10\n");
    let local = PhpWorkerMetrics {
        is_detected: true,
        max_children: Some(500),
        worker_memory_mb: figure(150.0),
        host_total_memory_mb: None,
        ..Default::default()
    };

    let merged = merge_local_sizing(remote, &local);
    assert!(!merged.oom_risk, "no host RAM figure means no OOM verdict");
}

#[test]
fn test_process_scan_average_rss() {
    let scan = FpmProcessScan { workers: 4, running: 1, total_rss_kb: 4 * 160 * 1024 };
    assert_eq!(value(scan.average_rss_mb()), Some(160.0));

    assert_eq!(value(FpmProcessScan::default().average_rss_mb()), None);
}

#[test]
fn test_inspect_remote_status_page() {
    let body = r#"{"pool":"www","active processes":48,"idle processes":2,"total processes":50,"max active processes":50,"listen queue":9,"max children reached":3}"#;
    let resp = format!(
        "HTTP/1.1 200 OK\r\nContent-Type: application/json\r\nContent-Length: {}\r\n\r\n{}",
        body.len(),
        body
    );
    let target = HttpTarget::parse("http://127.0.0.1:40004/status", 80).unwrap();
    let req = status_path(&target.path);
    assert!(req.contains("json"), "status probe should request JSON: {}", req);
    let metrics = inspect_php_fpm_remote(&target, &parse_response(resp.as_bytes()));

    assert!(metrics.is_detected);
    assert_eq!(metrics.source, WorkerMetricSource::FpmStatus);
    assert_eq!(metrics.active_workers, Some(48));
    assert_eq!(metrics.listen_queue, Some(9));
    assert!(metrics.origin.is_some_and(|o| o.contains("127.0.0.1")));
}

#[test]
fn test_inspect_remote_status_page_http_error_is_not_detected() {
    let response: Result<HttpResponse, HttpProbeError> =
        parse_response(b"HTTP/1.1 404 Not Found\r\nContent-Length: 0\r\n\r\n");
    let target = HttpTarget::parse("http://127.0.0.1:40005/status", 80).unwrap();
    let metrics = inspect_php_fpm_remote(&target, &response);

    assert!(!metrics.is_detected);
    assert!(metrics.origin.is_some_and(|o| o.contains("404")), "the reason must reach the operator");
}

#[test]
fn a_status_path_asks_for_json_once() {
    assert_eq!(status_path("/status"), "/status?json");
    assert_eq!(status_path("/status?full"), "/status?full&json");
    assert_eq!(status_path("/status?json"), "/status?json");
}

#[test]
fn a_process_name_may_hold_brackets() {
    assert_eq!(parse_proc_state("12 (php-fpm: a) b) R 1 2 3"), Some('R'));
    assert_eq!(parse_proc_state("12 php-fpm"), None);
}

#[test]
fn processes_are_counted_without_their_master() {
    let mut scan = FpmProcessScan::default();
    scan.observe("php-fpm8.2", Some("php-fpm: master process (/etc)"), Some("1 (x) R"), Some("9 9"));
    assert_eq!(scan.workers, 0);
    scan.observe("php-fpm8.2", Some("php-fpm: pool www"), Some("2 (x) D 1"), Some("900 100 5"));
    scan.observe("php-fpm8.2", None, Some("3 (x) S 1"), None);
    scan.observe("nginx", None, Some("4 (x) R 1"), Some("900 100 5"));
    assert_eq!(scan.workers, 2);
    assert_eq!(scan.running, 1);
    assert_eq!(scan.total_rss_kb, 400);
    assert_eq!(parse_rss_kb("900 100 5"), Some(400));
    assert!(names_process("4711") && !names_process("self") && !names_process(""));
}

#[test]
fn host_memory_is_read_in_megabytes() {
    let mem = parse_mem_total("MemTotal:       16384000 kB\nMemFree: 1 kB\n");
    assert_eq!(value(mem), Some(16000.0));
    assert!(parse_mem_total("MemFree: 1 kB\n").is_none());
}

#[test]
fn a_pool_config_alone_gives_limits_but_no_pressure() {
    let paths = pool_conf_paths(None);
    let mut contents: Vec<Option<String>> = paths.iter().map(|_| None).collect();
    contents[0] = Some("[shop]\npm = static\npm.max_children = 20\n".to_string());
    let conf = discover_fpm_conf(&paths, &contents);
    let metrics = inspect_php_fpm(&conf, &FpmProcessScan::default(), figure(2048.0));
    assert!(metrics.is_detected);
    assert_eq!(metrics.source, WorkerMetricSource::ConfigOnly);
    assert_eq!(metrics.pool_name.as_deref(), Some("www"), "a pool is named after its file");
    assert_eq!(metrics.max_children, Some(20));
    assert_eq!(metrics.active_workers, None);
    assert!(!metrics.worker_memory_measured);
    assert_eq!(value(metrics.worker_memory_mb), Some(150.0));
    assert!(metrics.oom_risk, "20 workers of 150 MB exceed four fifths of 2 GB");
}

#[test]
fn nothing_behind_a_second_section_counts() {
    let first = "; pools\n[www]\r\npm = static\r";
    let content = format!("{}\n[other]\n{}", first, "pm = dynamic\n[third]\nuser = x");
    let (a, b) = (parse_php_fpm_conf(first), parse_php_fpm_conf(&content));
    for key in ["pool", "pm", "user"] {
        assert_eq!(a.get(key), b.get(key));
    }
    assert_eq!(b.get("pm"), Some("static"));
    assert_eq!(b.get("user"), None);
}

#[test]
fn a_pool_beyond_all_bounds_is_still_a_risk() {
    let remote = PhpWorkerMetrics {
        is_detected: true,
        worker_memory_mb: Ratio::new(u64::MAX, 2),
        ..Default::default()
    };
    let local = PhpWorkerMetrics {
        max_children: Some(u64::MAX),
        host_total_memory_mb: figure(8192.0),
        ..Default::default()
    };
    let merged = merge_local_sizing(remote, &local);
    assert!(merged.total_pool_memory_mb.is_some());
    assert!(merged.oom_risk);
}

#[test]
fn host_memory_is_read_in_any_notation() {
    assert_eq!(value(parse_mem_total("MemTotal: 1.6777216e7 kB\n")), Some(16384.0));
    assert_eq!(value(parse_mem_total("MemTotal: 1024.0000000000 kB\n")), Some(1.0));
}
