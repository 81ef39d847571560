//! What live MySQL queries say of a store.

use mdoctor::live_inspector::{
    inspect_live_database, query_timeout_secs, supplement_waits, DigestRow, JobRow, LiveReplies,
    LockRow, QueryFailure, StatementRow, StatusRow, TableRow, DIGEST_QUERY, LOCK_QUERY,
    STATEMENT_QUERY,
};
use mdoctor::model::ProbeOutcome;

fn silent() -> LiveReplies {
    LiveReplies {
        version: None,
        buffer_pool: None,
        tables: None,
        cron: None,
        oldest_job: None,
        threads: None,
        digests: Err(QueryFailure::TimedOut),
        locks: Err(QueryFailure::TimedOut),
        statements: None,
    }
}

fn statement(id: u64, state: &str) -> StatementRow {
    StatementRow {
        id,
        info: "SELECT * FROM sales_order_grid".into(),
        time_secs: 900,
        command: "Query".into(),
        user: "m2".into(),
        state: state.into(),
    }
}

fn lock(waiting: Option<u64>) -> LockRow {
    LockRow {
        waiting_id: waiting,
        waiting_query: "UPDATE quote SET x = 1".into(),
        blocking_id: Some(9),
        blocking_query: String::new(),
        wait_secs: -3,
    }
}

#[test]
fn a_silent_server_was_connected_and_nothing_more() {
    let m = inspect_live_database(&silent());
    assert!(m.is_connected);
    assert_eq!(m.server_version, None);
    assert_eq!(m.total_data_and_index_bytes, None);
    assert_eq!(m.cron_schedule.total_rows, 0);
    assert_eq!(
        m.digest_collection,
        ProbeOutcome::failed("performance_schema digest query timed out")
    );
    assert_eq!(m.lock_collection, ProbeOutcome::failed("lock wait query timed out"));
}

#[test]
fn failed_queries_say_why() {
    let denied = || QueryFailure::Failed { error: "SELECT denied".into() };
    let m = inspect_live_database(&LiveReplies {
        digests: Err(denied()),
        locks: Err(denied()),
        ..silent()
    });
    assert_eq!(
        m.digest_collection,
        ProbeOutcome::failed("performance_schema digest query failed: SELECT denied")
    );
    assert_eq!(
        m.lock_collection,
        ProbeOutcome::failed("data_lock_waits unavailable: SELECT denied")
    );
}

#[test]
fn sizes_are_summed() {
    let row = |name: &str, data: u64, index: u64| TableRow {
        name: name.into(),
        rows: 5,
        data_bytes: data,
        index_bytes: index,
    };
    let m = inspect_live_database(&LiveReplies {
        version: Some(vec!["8.0.36".into()]),
        buffer_pool: Some(vec!["134217728".into()]),
        threads: Some(vec!["many".into()]),
        tables: Some(vec![row("a", 100, 20), row("b", 7, 3)]),
        ..silent()
    });
    assert_eq!(m.server_version.as_deref(), Some("8.0.36"));
    assert_eq!(m.innodb_buffer_pool_bytes, Some(134217728));
    assert_eq!(m.active_connections, Some(0));
    assert_eq!(m.total_data_and_index_bytes, Some(130));
    assert_eq!(m.table_sizes[0].total_bytes, 120);
}

#[test]
fn the_cron_schedule_is_counted_by_state() {
    let row = |status: &str, count: u64| StatusRow { status: status.into(), count };
    let m = inspect_live_database(&LiveReplies {
        cron: Some(vec![
            row("Pending", 3),
            row("PENDING", 4),
            row("running", 1),
            row("success", 50),
            row("missed", 2),
            row("error", 5),
            row("odd", 1),
        ]),
        oldest_job: Some(vec![JobRow { job_code: "indexer".into(), seconds: Some(-4) }]),
        ..silent()
    });
    let cron = m.cron_schedule;
    assert_eq!(cron.total_rows, 66);
    assert_eq!(cron.pending_rows, 7);
    assert_eq!(cron.running_rows, 1);
    assert_eq!(cron.success_rows, 50);
    assert_eq!(cron.missed_rows, 2);
    assert_eq!(cron.error_rows, 5);
    assert_eq!(cron.oldest_running_job.as_deref(), Some("indexer"));
    assert_eq!(cron.oldest_running_seconds, Some(0));
}

#[test]
fn digests_average_their_rows() {
    let row = |count: u64| DigestRow {
        digest: "abc".into(),
        text: "SELECT * FROM `quote` WHERE id = ?".into(),
        count,
        sum_time: 9,
        avg_time: 3,
        max_time: 5,
        rows_examined: 100,
        rows_sent: 7,
        first_seen: String::new(),
        last_seen: "2026-09-12 10:00:00".into(),
    };
    let m = inspect_live_database(&LiveReplies { digests: Ok(vec![row(3), row(0)]), ..silent() });
    assert_eq!(m.digest_collection, ProbeOutcome::Succeeded);
    let d = &m.query_digests[0];
    assert_eq!((d.avg_rows_examined, d.avg_rows_sent), (33, 2));
    assert_eq!((d.total_time_ps, d.avg_time_ps, d.max_time_ps), (9, 3, 5));
    assert_eq!(d.tables_involved, vec!["quote".to_string()]);
    assert_eq!(d.first_seen, None);
    assert_eq!(d.last_seen.as_deref(), Some("2026-09-12 10:00:00"));
    assert_eq!(m.query_digests[1].avg_rows_examined, 0);
}

#[test]
fn confirmed_waits_come_first_and_once() {
    let m = inspect_live_database(&LiveReplies {
        locks: Ok(vec![lock(Some(11)), lock(None)]),
        statements: Some(vec![
            statement(11, ""),
            statement(12, "Waiting for table metadata LOCK"),
            statement(12, ""),
        ]),
        ..silent()
    });
    let ids: Vec<u64> = m.active_lock_waits.iter().map(|w| w.waiting_query_id).collect();
    assert_eq!(ids, vec![11, 0, 12]);
    let confirmed: Vec<bool> =
        m.active_lock_waits.iter().map(|w| w.is_confirmed_lock_wait).collect();
    assert_eq!(confirmed, vec![true, true, false]);
    assert_eq!(m.active_lock_waits[0].wait_time_secs, 0);
    assert_eq!(m.active_lock_waits[0].blocking_query, None);
    assert_eq!(m.active_lock_waits[0].table_name.as_deref(), Some("quote"));
    assert_eq!(
        m.active_lock_waits[2].command.as_deref(),
        Some("Query (Waiting for table metadata LOCK)")
    );
    assert_eq!(m.lock_collection, ProbeOutcome::Succeeded);
}

#[test]
fn a_processlist_alone_confirms_nothing() {
    let m = inspect_live_database(&LiveReplies { statements: Some(vec![statement(1, "")]), ..silent() });
    assert!(matches!(m.lock_collection, ProbeOutcome::Failed { .. }));
    assert_eq!(m.active_lock_waits.len(), 1);
    assert!(m.active_lock_waits.iter().all(|w| !w.is_confirmed_lock_wait));
    assert!(supplement_waits(Vec::new(), &Vec::new()).is_empty());
}

#[test]
fn queries_are_bounded_in_time_and_scope() {
    assert_eq!(query_timeout_secs(0), 1);
    assert_eq!(query_timeout_secs(3), 3);
    assert_eq!(query_timeout_secs(60), 5);
    assert!(DIGEST_QUERY.contains("SCHEMA_NAME = DATABASE()"));
    assert!(LOCK_QUERY.contains("performance_schema.data_lock_waits"));
    assert!(STATEMENT_QUERY.contains("ID <> CONNECTION_ID()"));
    assert!(STATEMENT_QUERY.contains("TIME BETWEEN 3 AND 86400"));
}

#[test]
fn unread_locks_are_told_apart_from_a_clean_system() {
    let m = inspect_live_database(&LiveReplies {
        locks: Err(QueryFailure::Failed { error: "denied".to_string() }),
        statements: Some(Vec::new()),
        ..silent()
    });
    assert!(m.active_lock_waits.is_empty());
    assert_eq!(m.lock_collection, ProbeOutcome::failed("data_lock_waits unavailable: denied"));

    let m = inspect_live_database(&LiveReplies {
        locks: Err(QueryFailure::TimedOut),
        statements: Some(vec![statement(4, "")]),
        ..silent()
    });
    assert_eq!(m.active_lock_waits.len(), 1);
    assert_eq!(m.lock_collection, ProbeOutcome::failed("lock wait query timed out"));
}
