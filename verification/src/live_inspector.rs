//! What live MySQL queries say of a store.

use crate::correlation::{self, extract_tables_from_sql};
use crate::model::{
    ActiveLockWait, ActiveLockWaitView, CronScheduleSummary, CronScheduleSummaryView,
    DatabaseMetrics, DatabaseMetricsView, ProbeOutcome, ProbeOutcomeView, QueryDigest,
    QueryDigestView, TableSizeStat, TableSizeStatView,
};
use crate::number::{self, parse_u64};
use crate::text::{self, contains, is_blank, same, to_lowercase};
use vstd::prelude::*;
use vstd::string::*;

verus! {

/// The version of the server.
pub const VERSION_QUERY: &'static str = "SELECT VERSION()";

/// The size of the buffer pool.
pub const BUFFER_POOL_QUERY: &'static str = "SHOW VARIABLES LIKE 'innodb_buffer_pool_size'";

/// The number of open connections.
pub const THREADS_QUERY: &'static str = "SHOW STATUS LIKE 'Threads_connected'";

/// The largest tables of the store.
pub const TABLE_QUERY: &'static str =
    "SELECT table_name, IFNULL(table_rows, 0), IFNULL(data_length, 0), IFNULL(index_length, \
    0) FROM information_schema.tables WHERE table_schema = DATABASE() ORDER BY \
    (IFNULL(data_length, 0) + IFNULL(index_length, 0)) DESC LIMIT 50";

/// The states of the cron schedule.
pub const CRON_QUERY: &'static str =
    "SELECT status, COUNT(*) FROM cron_schedule GROUP BY status";

/// The cron job that has been running longest.
pub const OLDEST_JOB_QUERY: &'static str =
    "SELECT job_code, TIMESTAMPDIFF(SECOND, executed_at, NOW()) FROM cron_schedule WHERE \
    status = 'running' AND executed_at IS NOT NULL ORDER BY executed_at ASC LIMIT 1";

/// Statement digests, of this store's schema alone: the other workloads of a shared server
/// are none of its modules'.
pub const DIGEST_QUERY: &'static str =
    "SELECT IFNULL(DIGEST, ''), IFNULL(DIGEST_TEXT, ''), IFNULL(COUNT_STAR, 0), \
    IFNULL(SUM_TIMER_WAIT, 0), IFNULL(AVG_TIMER_WAIT, 0), IFNULL(MAX_TIMER_WAIT, 0), \
    IFNULL(SUM_ROWS_EXAMINED, 0), IFNULL(SUM_ROWS_SENT, 0), IFNULL(DATE_FORMAT(FIRST_SEEN, \
    '%Y-%m-%d %H:%i:%s'), ''), IFNULL(DATE_FORMAT(LAST_SEEN, '%Y-%m-%d %H:%i:%s'), '') FROM \
    performance_schema.events_statements_summary_by_digest WHERE DIGEST_TEXT IS NOT NULL AND \
    SCHEMA_NAME = DATABASE() AND DIGEST_TEXT NOT LIKE '%performance_schema%' AND DIGEST_TEXT \
    NOT LIKE 'SHOW %' AND DIGEST_TEXT NOT LIKE 'SELECT VERSION%' ORDER BY SUM_TIMER_WAIT \
    DESC LIMIT 15";

/// Pairs of a blocked and a blocking transaction.
pub const LOCK_QUERY: &'static str =
    "SELECT r.trx_mysql_thread_id, IFNULL(r.trx_query, ''), b.trx_mysql_thread_id, \
    IFNULL(b.trx_query, ''), IFNULL(TIMESTAMPDIFF(SECOND, r.trx_wait_started, NOW()), 0) \
    FROM performance_schema.data_lock_waits w JOIN information_schema.innodb_trx r ON \
    r.trx_id = w.requesting_engine_transaction_id JOIN information_schema.innodb_trx b ON \
    b.trx_id = w.blocking_engine_transaction_id LIMIT 10";

/// Statements running long, without the replication, daemon and scheduler threads, whose
/// time is that of the server.
pub const STATEMENT_QUERY: &'static str =
    "SELECT ID, IFNULL(INFO, ''), IFNULL(TIME, 0), IFNULL(COMMAND, ''), IFNULL(USER, ''), \
    IFNULL(STATE, '') FROM information_schema.processlist WHERE ID <> CONNECTION_ID() AND \
    COMMAND NOT IN ('Sleep', 'Binlog Dump', 'Binlog Dump GTID', 'Daemon', 'Connect') AND \
    USER NOT IN ('system user', 'event_scheduler') AND DB = DATABASE() AND INFO IS NOT NULL \
    AND TIME BETWEEN 3 AND 86400 ORDER BY TIME DESC LIMIT 10";

/// One row of [`TABLE_QUERY`].
#[derive(Debug, Clone)]
pub struct TableRow {
    pub name: String,
    pub rows: u64,
    pub data_bytes: u64,
    pub index_bytes: u64,
}

/// What a [`TableRow`] holds.
#[verifier::ext_equal]
pub struct TableRowView {
    pub name: Seq<char>,
    pub rows: u64,
    pub data_bytes: u64,
    pub index_bytes: u64,
}

impl View for TableRow {
    type V = TableRowView;

    open spec fn view(&self) -> TableRowView {
        TableRowView {
            name: self.name@,
            rows: self.rows,
            data_bytes: self.data_bytes,
            index_bytes: self.index_bytes,
        }
    }
}

/// What a list of table rows holds.
pub open spec fn table_rows(rows: Seq<TableRow>) -> Seq<TableRowView> {
    Seq::new(rows.len(), |i: int| rows[i]@)
}

/// One row of [`CRON_QUERY`].
#[derive(Debug, Clone)]
pub struct StatusRow {
    pub status: String,
    pub count: u64,
}

/// What a [`StatusRow`] holds.
#[verifier::ext_equal]
pub struct StatusRowView {
    pub status: Seq<char>,
    pub count: u64,
}

impl View for StatusRow {
    type V = StatusRowView;

    open spec fn view(&self) -> StatusRowView {
        StatusRowView {
            status: self.status@,
            count: self.count,
        }
    }
}

/// What a list of status rows holds.
pub open spec fn status_rows(rows: Seq<StatusRow>) -> Seq<StatusRowView> {
    Seq::new(rows.len(), |i: int| rows[i]@)
}

/// One row of [`OLDEST_JOB_QUERY`].
#[derive(Debug, Clone)]
pub struct JobRow {
    pub job_code: String,
    pub seconds: Option<i64>,
}

/// What a [`JobRow`] holds.
#[verifier::ext_equal]
pub struct JobRowView {
    pub job_code: Seq<char>,
    pub seconds: Option<i64>,
}

impl View for JobRow {
    type V = JobRowView;

    open spec fn view(&self) -> JobRowView {
        JobRowView {
            job_code: self.job_code@,
            seconds: self.seconds,
        }
    }
}

/// What a list of job rows holds.
pub open spec fn job_rows(rows: Seq<JobRow>) -> Seq<JobRowView> {
    Seq::new(rows.len(), |i: int| rows[i]@)
}

/// One row of [`DIGEST_QUERY`], times in picoseconds.
#[derive(Debug, Clone)]
pub struct DigestRow {
    pub digest: String,
    pub text: String,
    pub count: u64,
    pub sum_time: u64,
    pub avg_time: u64,
    pub max_time: u64,
    pub rows_examined: u64,
    pub rows_sent: u64,
    pub first_seen: String,
    pub last_seen: String,
}

/// What a [`DigestRow`] holds.
#[verifier::ext_equal]
pub struct DigestRowView {
    pub digest: Seq<char>,
    pub text: Seq<char>,
    pub count: u64,
    pub sum_time: u64,
    pub avg_time: u64,
    pub max_time: u64,
    pub rows_examined: u64,
    pub rows_sent: u64,
    pub first_seen: Seq<char>,
    pub last_seen: Seq<char>,
}

impl View for DigestRow {
    type V = DigestRowView;

    open spec fn view(&self) -> DigestRowView {
        DigestRowView {
            digest: self.digest@,
            text: self.text@,
            count: self.count,
            sum_time: self.sum_time,
            avg_time: self.avg_time,
            max_time: self.max_time,
            rows_examined: self.rows_examined,
            rows_sent: self.rows_sent,
            first_seen: self.first_seen@,
            last_seen: self.last_seen@,
        }
    }
}

/// What a list of digest rows holds.
pub open spec fn digest_rows(rows: Seq<DigestRow>) -> Seq<DigestRowView> {
    Seq::new(rows.len(), |i: int| rows[i]@)
}

/// One row of [`LOCK_QUERY`].
#[derive(Debug, Clone)]
pub struct LockRow {
    pub waiting_id: Option<u64>,
    pub waiting_query: String,
    pub blocking_id: Option<u64>,
    pub blocking_query: String,
    pub wait_secs: i64,
}

/// What a [`LockRow`] holds.
#[verifier::ext_equal]
pub struct LockRowView {
    pub waiting_id: Option<u64>,
    pub waiting_query: Seq<char>,
    pub blocking_id: Option<u64>,
    pub blocking_query: Seq<char>,
    pub wait_secs: i64,
}

impl View for LockRow {
    type V = LockRowView;

    open spec fn view(&self) -> LockRowView {
        LockRowView {
            waiting_id: self.waiting_id,
            waiting_query: self.waiting_query@,
            blocking_id: self.blocking_id,
            blocking_query: self.blocking_query@,
            wait_secs: self.wait_secs,
        }
    }
}

/// What a list of lock rows holds.
pub open spec fn lock_rows(rows: Seq<LockRow>) -> Seq<LockRowView> {
    Seq::new(rows.len(), |i: int| rows[i]@)
}

/// One row of [`STATEMENT_QUERY`].
#[derive(Debug, Clone)]
pub struct StatementRow {
    pub id: u64,
    pub info: String,
    pub time_secs: i64,
    pub command: String,
    pub user: String,
    pub state: String,
}

/// What a [`StatementRow`] holds.
#[verifier::ext_equal]
pub struct StatementRowView {
    pub id: u64,
    pub info: Seq<char>,
    pub time_secs: i64,
    pub command: Seq<char>,
    pub user: Seq<char>,
    pub state: Seq<char>,
}

impl View for StatementRow {
    type V = StatementRowView;

    open spec fn view(&self) -> StatementRowView {
        StatementRowView {
            id: self.id,
            info: self.info@,
            time_secs: self.time_secs,
            command: self.command@,
            user: self.user@,
            state: self.state@,
        }
    }
}

/// What a list of statement rows holds.
pub open spec fn statement_rows(rows: Seq<StatementRow>) -> Seq<StatementRowView> {
    Seq::new(rows.len(), |i: int| rows[i]@)
}

/// Why a query gave no rows.
#[derive(Debug, Clone)]
pub enum QueryFailure {
    Failed { error: String },
    TimedOut,
}

/// What a [`QueryFailure`] says.
pub enum QueryFailureView {
    Failed { error: Seq<char> },
    TimedOut,
}

impl View for QueryFailure {
    type V = QueryFailureView;

    open spec fn view(&self) -> QueryFailureView {
        match self {
            QueryFailure::Failed { error } => QueryFailureView::Failed { error: error@ },
            QueryFailure::TimedOut => QueryFailureView::TimedOut,
        }
    }
}

/// What each query came to. A query that failed or timed out has no rows.
#[derive(Debug)]
pub struct LiveReplies {
    pub version: Option<Vec<String>>,
    pub buffer_pool: Option<Vec<String>>,
    pub tables: Option<Vec<TableRow>>,
    pub cron: Option<Vec<StatusRow>>,
    pub oldest_job: Option<Vec<JobRow>>,
    pub threads: Option<Vec<String>>,
    pub digests: Result<Vec<DigestRow>, QueryFailure>,
    pub locks: Result<Vec<LockRow>, QueryFailure>,
    pub statements: Option<Vec<StatementRow>>,
}

/// What [`LiveReplies`] hold.
#[verifier::ext_equal]
pub struct LiveRepliesView {
    pub version: Option<Seq<Seq<char>>>,
    pub buffer_pool: Option<Seq<Seq<char>>>,
    pub tables: Option<Seq<TableRowView>>,
    pub cron: Option<Seq<StatusRowView>>,
    pub oldest_job: Option<Seq<JobRowView>>,
    pub threads: Option<Seq<Seq<char>>>,
    pub digests: Result<Seq<DigestRowView>, QueryFailureView>,
    pub locks: Result<Seq<LockRowView>, QueryFailureView>,
    pub statements: Option<Seq<StatementRowView>>,
}

impl View for LiveReplies {
    type V = LiveRepliesView;

    open spec fn view(&self) -> LiveRepliesView {
        LiveRepliesView {
            version: match self.version {
                Some(rows) => Some(text::texts(rows@)),
                None => None,
            },
            buffer_pool: match self.buffer_pool {
                Some(rows) => Some(text::texts(rows@)),
                None => None,
            },
            tables: match self.tables {
                Some(rows) => Some(table_rows(rows@)),
                None => None,
            },
            cron: match self.cron {
                Some(rows) => Some(status_rows(rows@)),
                None => None,
            },
            oldest_job: match self.oldest_job {
                Some(rows) => Some(job_rows(rows@)),
                None => None,
            },
            threads: match self.threads {
                Some(rows) => Some(text::texts(rows@)),
                None => None,
            },
            digests: match self.digests {
                Ok(rows) => Ok(digest_rows(rows@)),
                Err(e) => Err(e@),
            },
            locks: match self.locks {
                Ok(rows) => Ok(lock_rows(rows@)),
                Err(e) => Err(e@),
            },
            statements: match self.statements {
                Some(rows) => Some(statement_rows(rows@)),
                None => None,
            },
        }
    }
}

/// The seconds that one query may take.
pub open spec fn query_limit(timeout_secs: u64) -> u64 {
    if timeout_secs < 1 {
        1
    } else if timeout_secs > 5 {
        5
    } else {
        timeout_secs
    }
}

/// The seconds that one query may take: the timeout, within one and five.
pub fn query_timeout_secs(timeout_secs: u64) -> (r: u64)
    ensures
        r == query_limit(timeout_secs),
{
    if timeout_secs < 1 {
        1
    } else if timeout_secs > 5 {
        5
    } else {
        timeout_secs
    }
}

/// A sum, or the largest count where it exceeds that.
pub open spec fn capped(n: int) -> u64 {
    if n > u64::MAX {
        u64::MAX
    } else {
        n as u64
    }
}

/// A time that is not negative.
pub open spec fn not_negative(n: i64) -> u64 {
    if n > 0 {
        n as u64
    } else {
        0
    }
}

fn clip_negative(n: i64) -> (r: u64)
    ensures
        r == not_negative(n),
{
    if n > 0 {
        n as u64
    } else {
        0
    }
}

/// The first row of a reply, if there is one.
pub open spec fn first_row(rows: Option<Seq<Seq<char>>>) -> Option<Seq<char>> {
    match rows {
        Some(list) => if list.len() > 0 {
            Some(list[0])
        } else {
            None
        },
        None => None,
    }
}

/// The texts of a reply.
pub open spec fn reply_texts(rows: Option<Vec<String>>) -> Option<Seq<Seq<char>>> {
    match rows {
        Some(list) => Some(text::texts(list@)),
        None => None,
    }
}

fn take_first(rows: &Option<Vec<String>>) -> (r: Option<String>)
    ensures
        text::text_opt(r) == first_row(reply_texts(*rows)),
{
    match rows {
        Some(list) => if list.len() > 0 {
            Some(list[0].clone())
        } else {
            None
        },
        None => None,
    }
}

/// The size of one table.
pub open spec fn size_of_row(row: TableRowView) -> TableSizeStatView {
    TableSizeStatView {
        table_name: row.name,
        row_count: row.rows,
        data_bytes: row.data_bytes,
        index_bytes: row.index_bytes,
        total_bytes: capped(row.data_bytes + row.index_bytes),
    }
}

/// The sizes of tables.
pub open spec fn sizes_of(rows: Seq<TableRowView>) -> Seq<TableSizeStatView> {
    Seq::new(rows.len(), |i: int| size_of_row(rows[i]))
}

/// All bytes of tables and indexes together.
pub open spec fn bytes_of(rows: Seq<TableRowView>) -> int
    decreases rows.len(),
{
    if rows.len() == 0 {
        0
    } else {
        bytes_of(rows.drop_last()) + rows.last().data_bytes + rows.last().index_bytes
    }
}

/// What a list of table sizes holds.
pub open spec fn size_views(s: Seq<TableSizeStat>) -> Seq<TableSizeStatView> {
    Seq::new(s.len(), |i: int| s[i]@)
}

/// The sizes of tables, and all of them together.
pub fn measure_tables(rows: &Vec<TableRow>) -> (r: (Vec<TableSizeStat>, u64))
    ensures
        size_views(r.0@) == sizes_of(table_rows(rows@)),
        r.1 == capped(bytes_of(table_rows(rows@))),
{
    let ghost all = table_rows(rows@);
    let mut out: Vec<TableSizeStat> = Vec::new();
    let mut sum: u64 = 0;
    let mut i: usize = 0;
    while i < rows.len()
        invariant
            i <= rows@.len(),
            all == table_rows(rows@),
            out@.len() == i,
            forall|k: int| 0 <= k < i ==> (#[trigger] out@[k])@ == size_of_row(all[k]),
            bytes_of(all.take(i as int)) >= 0,
            sum == capped(bytes_of(all.take(i as int))),
        decreases rows@.len() - i,
    {
        let row = &rows[i];
        assert(all.take(i + 1).drop_last() =~= all.take(i as int));
        assert(all.take(i + 1).last() == row@);
        let total_bytes: u64 = row.data_bytes.saturating_add(row.index_bytes);
        out.push(
            TableSizeStat {
                table_name: row.name.clone(),
                row_count: row.rows,
                data_bytes: row.data_bytes,
                index_bytes: row.index_bytes,
                total_bytes,
            },
        );
        sum = sum.saturating_add(total_bytes);
        i += 1;
    }
    assert(all.take(i as int) =~= all);
    assert(size_views(out@) =~= sizes_of(all));
    (out, sum)
}

/// All rows of the cron schedule.
pub open spec fn count_all(rows: Seq<StatusRowView>) -> int
    decreases rows.len(),
{
    if rows.len() == 0 {
        0
    } else {
        count_all(rows.drop_last()) + rows.last().count
    }
}

/// The rows of the cron schedule in one state, whatever the case of its letters.
pub open spec fn count_in(rows: Seq<StatusRowView>, status: Seq<char>) -> int
    decreases rows.len(),
{
    if rows.len() == 0 {
        0
    } else {
        let before = count_in(rows.drop_last(), status);
        if text::lowercase_of(rows.last().status) == status {
            before + rows.last().count
        } else {
            before
        }
    }
}

fn sum_all(rows: &Vec<StatusRow>) -> (r: u64)
    ensures
        r == capped(count_all(status_rows(rows@))),
{
    let ghost all = status_rows(rows@);
    let mut sum: u64 = 0;
    let mut i: usize = 0;
    while i < rows.len()
        invariant
            i <= rows@.len(),
            all == status_rows(rows@),
            count_all(all.take(i as int)) >= 0,
            sum == capped(count_all(all.take(i as int))),
        decreases rows@.len() - i,
    {
        assert(all.take(i + 1).drop_last() =~= all.take(i as int));
        assert(all.take(i + 1).last() == rows@[i as int]@);
        sum = sum.saturating_add(rows[i].count);
        i += 1;
    }
    assert(all.take(i as int) =~= all);
    sum
}

fn sum_in(rows: &Vec<StatusRow>, status: &str) -> (r: u64)
    ensures
        r == capped(count_in(status_rows(rows@), status@)),
{
    let ghost all = status_rows(rows@);
    let mut sum: u64 = 0;
    let mut i: usize = 0;
    while i < rows.len()
        invariant
            i <= rows@.len(),
            all == status_rows(rows@),
            count_in(all.take(i as int), status@) >= 0,
            sum == capped(count_in(all.take(i as int), status@)),
        decreases rows@.len() - i,
    {
        assert(all.take(i + 1).drop_last() =~= all.take(i as int));
        assert(all.take(i + 1).last() == rows@[i as int]@);
        if same(&to_lowercase(&rows[i].status), status) {
            sum = sum.saturating_add(rows[i].count);
        }
        i += 1;
    }
    assert(all.take(i as int) =~= all);
    sum
}

/// The cron schedule, from its states and the jobs running longest.
pub open spec fn cron_of(
    rows: Option<Seq<StatusRowView>>,
    jobs: Option<Seq<JobRowView>>,
) -> CronScheduleSummaryView {
    let states = match rows {
        Some(list) => list,
        None => Seq::empty(),
    };
    let oldest = match jobs {
        Some(list) => if list.len() > 0 {
            Some(list[0])
        } else {
            None
        },
        None => None,
    };
    CronScheduleSummaryView {
        total_rows: capped(count_all(states)),
        pending_rows: capped(count_in(states, "pending"@)),
        running_rows: capped(count_in(states, "running"@)),
        success_rows: capped(count_in(states, "success"@)),
        missed_rows: capped(count_in(states, "missed"@)),
        error_rows: capped(count_in(states, "error"@)),
        oldest_running_job: match oldest {
            Some(job) => Some(job.job_code),
            None => None,
        },
        oldest_running_seconds: match oldest {
            Some(job) => Some(
                match job.seconds {
                    Some(s) => not_negative(s),
                    None => 0,
                },
            ),
            None => None,
        },
    }
}

/// Summarises the cron schedule.
pub fn summarize_cron(rows: &Option<Vec<StatusRow>>, jobs: &Option<Vec<JobRow>>) -> (r:
    CronScheduleSummary)
    ensures
        r@ == cron_of(
            match *rows {
                Some(list) => Some(status_rows(list@)),
                None => None,
            },
            match *jobs {
                Some(list) => Some(job_rows(list@)),
                None => None,
            },
        ),
{
    let mut summary = CronScheduleSummary::default();
    if let Some(list) = rows {
        summary.total_rows = sum_all(list);
        summary.pending_rows = sum_in(list, "pending");
        summary.running_rows = sum_in(list, "running");
        summary.success_rows = sum_in(list, "success");
        summary.missed_rows = sum_in(list, "missed");
        summary.error_rows = sum_in(list, "error");
    }
    if let Some(list) = jobs {
        if list.len() > 0 {
            let secs: u64 = match list[0].seconds {
                Some(s) => clip_negative(s),
                None => 0,
            };
            summary.oldest_running_job = Some(list[0].job_code.clone());
            summary.oldest_running_seconds = Some(secs);
        }
    }
    summary
}

/// A text, unless it is empty.
pub open spec fn unless_empty(s: Seq<char>) -> Option<Seq<char>> {
    if s.len() == 0 {
        None
    } else {
        Some(s)
    }
}

fn own_unless_empty(s: &str) -> (r: Option<String>)
    ensures
        text::text_opt(r) == unless_empty(s@),
{
    if is_blank(s) {
        None
    } else {
        Some(s.to_owned())
    }
}

/// An average of whole numbers, zero of none.
pub open spec fn average(sum: u64, count: u64) -> u64 {
    if count == 0 {
        0
    } else {
        sum / count
    }
}

fn average_of(sum: u64, count: u64) -> (r: u64)
    ensures
        r == average(sum, count),
{
    if count == 0 {
        0
    } else {
        sum / count
    }
}

/// The digest that a row gives.
pub open spec fn digest_of(row: DigestRowView) -> QueryDigestView {
    QueryDigestView {
        digest_id: row.digest,
        fingerprint: row.text,
        execution_count: row.count,
        total_time_ps: row.sum_time,
        avg_time_ps: row.avg_time,
        max_time_ps: row.max_time,
        avg_rows_examined: average(row.rows_examined, row.count),
        avg_rows_sent: average(row.rows_sent, row.count),
        tables_involved: correlation::tables_of_sql(row.text),
        first_seen: unless_empty(row.first_seen),
        last_seen: unless_empty(row.last_seen),
    }
}

/// The digests that rows give.
pub open spec fn digests_of(rows: Seq<DigestRowView>) -> Seq<QueryDigestView> {
    Seq::new(rows.len(), |i: int| digest_of(rows[i]))
}

/// What a list of digests holds.
pub open spec fn digest_views(s: Seq<QueryDigest>) -> Seq<QueryDigestView> {
    Seq::new(s.len(), |i: int| s[i]@)
}

/// Turns digest rows into digests.
pub fn collect_digests(rows: &Vec<DigestRow>) -> (r: Vec<QueryDigest>)
    ensures
        digest_views(r@) == digests_of(digest_rows(rows@)),
{
    let ghost all = digest_rows(rows@);
    let mut out: Vec<QueryDigest> = Vec::new();
    let mut i: usize = 0;
    while i < rows.len()
        invariant
            i <= rows@.len(),
            all == digest_rows(rows@),
            out@.len() == i,
            forall|k: int| 0 <= k < i ==> (#[trigger] out@[k])@ == digest_of(all[k]),
        decreases rows@.len() - i,
    {
        let row = &rows[i];
        assert(all[i as int] == row@);
        out.push(
            QueryDigest {
                digest_id: row.digest.clone(),
                fingerprint: row.text.clone(),
                execution_count: row.count,
                total_time_ps: row.sum_time,
                avg_time_ps: row.avg_time,
                max_time_ps: row.max_time,
                avg_rows_examined: average_of(row.rows_examined, row.count),
                avg_rows_sent: average_of(row.rows_sent, row.count),
                tables_involved: extract_tables_from_sql(&row.text),
                first_seen: own_unless_empty(&row.first_seen),
                last_seen: own_unless_empty(&row.last_seen),
            },
        );
        i += 1;
    }
    assert(digest_views(out@) =~= digests_of(all));
    out
}

/// The first table that a statement names.
pub open spec fn first_table_of(sql: Seq<char>) -> Option<Seq<char>> {
    let tables = correlation::tables_of_sql(sql);
    if tables.len() > 0 {
        Some(tables[0])
    } else {
        None
    }
}

fn first_table(sql: &str) -> (r: Option<String>)
    ensures
        text::text_opt(r) == first_table_of(sql@),
{
    let tables = extract_tables_from_sql(sql);
    assert(text::texts(tables@).len() == tables@.len());
    if tables.len() > 0 {
        assert(text::texts(tables@)[0] == tables@[0]@);
        Some(tables[0].clone())
    } else {
        None
    }
}

/// The confirmed lock wait that a row gives.
pub open spec fn lock_of(row: LockRowView) -> ActiveLockWaitView {
    ActiveLockWaitView {
        waiting_query_id: match row.waiting_id {
            Some(id) => id,
            None => 0,
        },
        waiting_query: row.waiting_query,
        blocking_query_id: row.blocking_id,
        blocking_query: unless_empty(row.blocking_query),
        wait_time_secs: not_negative(row.wait_secs),
        table_name: first_table_of(row.waiting_query),
        is_confirmed_lock_wait: true,
        command: None,
        user: None,
    }
}

/// The long-running statement that a row gives. A state that mentions a lock is suggestive,
/// but only `performance_schema` can confirm a blocker, so none is claimed.
pub open spec fn statement_of(row: StatementRowView) -> ActiveLockWaitView {
    ActiveLockWaitView {
        waiting_query_id: row.id,
        waiting_query: row.info,
        blocking_query_id: None,
        blocking_query: None,
        wait_time_secs: not_negative(row.time_secs),
        table_name: first_table_of(row.info),
        is_confirmed_lock_wait: false,
        command: Some(
            if text::contains_text(text::lowercase_of(row.state), "lock"@) {
                row.command + " ("@ + row.state + ")"@
            } else {
                row.command
            },
        ),
        user: Some(row.user),
    }
}

/// What a list of waits holds.
pub open spec fn wait_views(s: Seq<ActiveLockWait>) -> Seq<ActiveLockWaitView> {
    Seq::new(s.len(), |i: int| s[i]@)
}

/// The lock waits that rows give.
pub open spec fn locks_of(rows: Seq<LockRowView>) -> Seq<ActiveLockWaitView> {
    Seq::new(rows.len(), |i: int| lock_of(rows[i]))
}

/// The statements that rows give.
pub open spec fn statements_of(rows: Seq<StatementRowView>) -> Seq<ActiveLockWaitView> {
    Seq::new(rows.len(), |i: int| statement_of(rows[i]))
}

/// Turns lock rows into confirmed lock waits.
pub fn collect_locks(rows: &Vec<LockRow>) -> (r: Vec<ActiveLockWait>)
    ensures
        wait_views(r@) == locks_of(lock_rows(rows@)),
{
    let ghost all = lock_rows(rows@);
    let mut out: Vec<ActiveLockWait> = Vec::new();
    let mut i: usize = 0;
    while i < rows.len()
        invariant
            i <= rows@.len(),
            all == lock_rows(rows@),
            out@.len() == i,
            forall|k: int| 0 <= k < i ==> (#[trigger] out@[k])@ == lock_of(all[k]),
        decreases rows@.len() - i,
    {
        let row = &rows[i];
        assert(all[i as int] == row@);
        let waiting_query_id: u64 = match row.waiting_id {
            Some(id) => id,
            None => 0,
        };
        out.push(
            ActiveLockWait {
                waiting_query_id,
                waiting_query: row.waiting_query.clone(),
                blocking_query_id: row.blocking_id,
                blocking_query: own_unless_empty(&row.blocking_query),
                wait_time_secs: clip_negative(row.wait_secs),
                table_name: first_table(&row.waiting_query),
                is_confirmed_lock_wait: true,
                command: None,
                user: None,
            },
        );
        i += 1;
    }
    assert(wait_views(out@) =~= locks_of(all));
    out
}

fn read_statement(row: &StatementRow) -> (r: ActiveLockWait)
    ensures
        r@ == statement_of(row@),
{
    let command = if contains(&to_lowercase(&row.state), "lock") {
        row.command.clone().concat(" (").concat(row.state.as_str()).concat(")")
    } else {
        row.command.clone()
    };
    ActiveLockWait {
        waiting_query_id: row.id,
        waiting_query: row.info.clone(),
        blocking_query_id: None,
        blocking_query: None,
        wait_time_secs: clip_negative(row.time_secs),
        table_name: first_table(&row.info),
        is_confirmed_lock_wait: false,
        command: Some(command),
        user: Some(row.user.clone()),
    }
}

/// Whether some wait is of the query with this number.
pub open spec fn waits_for(waits: Seq<ActiveLockWaitView>, id: u64) -> bool {
    exists|k: int| 0 <= k < waits.len() && (#[trigger] waits[k]).waiting_query_id == id
}

fn is_waiting(waits: &Vec<ActiveLockWait>, id: u64) -> (r: bool)
    ensures
        r == waits_for(wait_views(waits@), id),
{
    let ghost all = wait_views(waits@);
    let mut i: usize = 0;
    while i < waits.len()
        invariant
            i <= waits@.len(),
            all == wait_views(waits@),
            forall|k: int| 0 <= k < i ==> (#[trigger] all[k]).waiting_query_id != id,
        decreases waits@.len() - i,
    {
        assert(all[i as int] == waits@[i as int]@);
        if waits[i].waiting_query_id == id {
            return true;
        }
        i += 1;
    }
    false
}

/// Waits with the statements of other queries behind them.
pub open spec fn supplemented(
    waits: Seq<ActiveLockWaitView>,
    statements: Seq<ActiveLockWaitView>,
) -> Seq<ActiveLockWaitView>
    decreases statements.len(),
{
    if statements.len() == 0 {
        waits
    } else {
        let before = supplemented(waits, statements.drop_last());
        if waits_for(before, statements.last().waiting_query_id) {
            before
        } else {
            before.push(statements.last())
        }
    }
}

/// Adds the long-running statements to the lock waits. Confirmed lock waits take precedence:
/// the statement of a query that already stands there is left out.
pub fn supplement_waits(waits: Vec<ActiveLockWait>, rows: &Vec<StatementRow>) -> (r: Vec<
    ActiveLockWait,
>)
    ensures
        wait_views(r@) == supplemented(
            wait_views(waits@),
            statements_of(statement_rows(rows@)),
        ),
{
    let ghost first = wait_views(waits@);
    let ghost all = statements_of(statement_rows(rows@));
    let mut out = waits;
    let mut i: usize = 0;
    while i < rows.len()
        invariant
            i <= rows@.len(),
            all == statements_of(statement_rows(rows@)),
            wait_views(out@) == supplemented(first, all.take(i as int)),
        decreases rows@.len() - i,
    {
        let wait = read_statement(&rows[i]);
        assert(all.take(i + 1).drop_last() =~= all.take(i as int));
        assert(all.take(i + 1).last() == wait@);
        if !is_waiting(&out, wait.waiting_query_id) {
            let ghost before = out@;
            out.push(wait);
            assert(wait_views(out@) =~= wait_views(before).push(wait@));
        }
        i += 1;
    }
    assert(all.take(i as int) =~= all);
    out
}

/// What became of the digest query. An empty list from a disabled `performance_schema` or
/// without the grant would otherwise look like a store without slow queries.
pub open spec fn digest_outcome(
    reply: Result<Seq<DigestRowView>, QueryFailureView>,
) -> ProbeOutcomeView {
    match reply {
        Ok(_) => ProbeOutcomeView::Succeeded,
        Err(QueryFailureView::Failed { error }) => ProbeOutcomeView::Failed {
            reason: "performance_schema digest query failed: "@ + error,
        },
        Err(QueryFailureView::TimedOut) => ProbeOutcomeView::Failed {
            reason: "performance_schema digest query timed out"@,
        },
    }
}

/// What became of the lock query. Long-running statements only add to the waits: without the
/// grant or with `performance_schema` disabled, an empty list stays told apart from a store
/// that waits for nothing.
pub open spec fn lock_outcome(
    reply: Result<Seq<LockRowView>, QueryFailureView>,
) -> ProbeOutcomeView {
    match reply {
        Ok(_) => ProbeOutcomeView::Succeeded,
        Err(QueryFailureView::Failed { error }) => ProbeOutcomeView::Failed {
            reason: "data_lock_waits unavailable: "@ + error,
        },
        Err(QueryFailureView::TimedOut) => ProbeOutcomeView::Failed {
            reason: "lock wait query timed out"@,
        },
    }
}

/// The lock waits and long-running statements of a database.
pub open spec fn waits_of(replies: LiveRepliesView) -> Seq<ActiveLockWaitView> {
    let waits = match replies.locks {
        Ok(rows) => locks_of(rows),
        Err(_) => Seq::empty(),
    };
    match replies.statements {
        Some(rows) => supplemented(waits, statements_of(rows)),
        None => waits,
    }
}

/// What the replies say of the database.
pub open spec fn metrics_of(replies: LiveRepliesView) -> DatabaseMetricsView {
    DatabaseMetricsView {
        is_connected: true,
        server_version: first_row(replies.version),
        innodb_buffer_pool_bytes: match first_row(replies.buffer_pool) {
            Some(t) => number::parsed_u64(t),
            None => None,
        },
        total_data_and_index_bytes: match replies.tables {
            Some(rows) => Some(capped(bytes_of(rows))),
            None => None,
        },
        table_sizes: match replies.tables {
            Some(rows) => sizes_of(rows),
            None => Seq::empty(),
        },
        cron_schedule: cron_of(replies.cron, replies.oldest_job),
        active_connections: match first_row(replies.threads) {
            Some(t) => Some(
                match number::parsed_u64(t) {
                    Some(n) => n,
                    None => 0,
                },
            ),
            None => None,
        },
        query_digests: match replies.digests {
            Ok(rows) => digests_of(rows),
            Err(_) => Seq::empty(),
        },
        digest_collection: digest_outcome(replies.digests),
        active_lock_waits: waits_of(replies),
        lock_collection: lock_outcome(replies.locks),
    }
}

fn gather_waits(replies: &LiveReplies) -> (r: Vec<ActiveLockWait>)
    ensures
        wait_views(r@) == waits_of(replies@),
{
    let waits: Vec<ActiveLockWait> = match &replies.locks {
        Ok(rows) => collect_locks(rows),
        Err(_) => {
            let none: Vec<ActiveLockWait> = Vec::new();
            assert(wait_views(none@) =~= Seq::<ActiveLockWaitView>::empty());
            none
        },
    };
    match &replies.statements {
        Some(rows) => supplement_waits(waits, rows),
        None => waits,
    }
}

fn digest_probe(reply: &Result<Vec<DigestRow>, QueryFailure>) -> (r: ProbeOutcome)
    ensures
        r@ == digest_outcome(
            match *reply {
                Ok(rows) => Ok(digest_rows(rows@)),
                Err(e) => Err(e@),
            },
        ),
{
    match reply {
        Ok(_) => ProbeOutcome::Succeeded,
        Err(QueryFailure::Failed { error }) => ProbeOutcome::failed(
            "performance_schema digest query failed: ".to_owned().concat(error.as_str()).as_str(),
        ),
        Err(QueryFailure::TimedOut) => ProbeOutcome::failed(
            "performance_schema digest query timed out",
        ),
    }
}

fn lock_probe(replies: &LiveReplies) -> (r: ProbeOutcome)
    ensures
        r@ == lock_outcome(replies@.locks),
{
    match &replies.locks {
        Ok(_) => ProbeOutcome::Succeeded,
        Err(QueryFailure::Failed { error }) => ProbeOutcome::failed(
            "data_lock_waits unavailable: ".to_owned().concat(error.as_str()).as_str(),
        ),
        Err(QueryFailure::TimedOut) => ProbeOutcome::failed("lock wait query timed out"),
    }
}

/// Puts together what the live queries say of the database of a store.
pub fn inspect_live_database(replies: &LiveReplies) -> (r: DatabaseMetrics)
    ensures
        r@ == metrics_of(replies@),
{
    let innodb_buffer_pool_bytes = match take_first(&replies.buffer_pool) {
        Some(t) => parse_u64(&t),
        None => None,
    };
    let active_connections = match take_first(&replies.threads) {
        Some(t) => Some(
            match parse_u64(&t) {
                Some(n) => n,
                None => 0,
            },
        ),
        None => None,
    };
    let mut metrics = DatabaseMetrics {
        is_connected: true,
        server_version: take_first(&replies.version),
        innodb_buffer_pool_bytes,
        cron_schedule: summarize_cron(&replies.cron, &replies.oldest_job),
        active_connections,
        digest_collection: digest_probe(&replies.digests),
        active_lock_waits: gather_waits(replies),
        lock_collection: lock_probe(replies),
        ..DatabaseMetrics::default()
    };
    if let Some(rows) = &replies.tables {
        let (table_sizes, total) = measure_tables(rows);
        metrics.total_data_and_index_bytes = Some(total);
        metrics.table_sizes = table_sizes;
    }
    if let Ok(rows) = &replies.digests {
        metrics.query_digests = collect_digests(rows);
    }
    proof {
        let want = metrics_of(replies@);
        assert(wait_views(metrics.active_lock_waits@) =~= metrics@.active_lock_waits);
        assert(size_views(metrics.table_sizes@) =~= metrics@.table_sizes);
        assert(digest_views(metrics.query_digests@) =~= metrics@.query_digests);
        assert(metrics@.table_sizes =~= want.table_sizes);
        assert(metrics@.query_digests =~= want.query_digests);
    }
    metrics
}

/// What was read is told apart from what is not there: each collection counts as read exactly
/// when its query was answered, whatever the processlist holds.
pub proof fn law_unread_is_not_clean(replies: LiveRepliesView)
    ensures
        metrics_of(replies).lock_collection is Succeeded <==> replies.locks is Ok,
        metrics_of(replies).digest_collection is Succeeded <==> replies.digests is Ok,
        replies.locks is Err ==> metrics_of(replies).lock_collection is Failed,
        replies.digests is Err ==> metrics_of(replies).digest_collection is Failed,
{
}

/// The waits come first, unchanged; behind them stand only statements of other queries; and
/// every query with a statement is there.
pub proof fn law_confirmed_waits_take_precedence(
    waits: Seq<ActiveLockWaitView>,
    statements: Seq<ActiveLockWaitView>,
)
    ensures
        ({
            let all = supplemented(waits, statements);
            &&& all.len() >= waits.len()
            &&& all.take(waits.len() as int) == waits
            &&& forall|k: int|
                waits.len() <= k < all.len() ==> statements.contains(#[trigger] all[k])
            &&& forall|j: int, k: int|
                0 <= j < k < all.len() && waits.len() <= k ==> (
                #[trigger] all[j]).waiting_query_id != (#[trigger] all[k]).waiting_query_id
            &&& forall|i: int|
                0 <= i < statements.len() ==> waits_for(
                    all,
                    (#[trigger] statements[i]).waiting_query_id,
                )
        }),
    decreases statements.len(),
{
    let all = supplemented(waits, statements);
    if statements.len() == 0 {
        assert(all.take(waits.len() as int) =~= waits);
    } else {
        let init = statements.drop_last();
        let before = supplemented(waits, init);
        let last = statements.last();
        law_confirmed_waits_take_precedence(waits, init);
        assert(all.take(waits.len() as int) =~= before.take(waits.len() as int));
        assert forall|k: int| waits.len() <= k < all.len() implies statements.contains(
            #[trigger] all[k],
        ) by {
            if k < before.len() {
                assert(all[k] == before[k]);
                let j = choose|j: int| 0 <= j < init.len() && init[j] == before[k];
                assert(statements[j] == before[k]);
            } else {
                assert(statements[statements.len() - 1] == last);
            }
        }
        assert forall|j: int, k: int| 0 <= j < k < all.len() && waits.len() <= k implies (
        #[trigger] all[j]).waiting_query_id != (#[trigger] all[k]).waiting_query_id by {
            assert(all[j] == before[j]);
            if k < before.len() {
                assert(all[k] == before[k]);
            }
        }
        assert forall|i: int| 0 <= i < statements.len() implies waits_for(
            all,
            (#[trigger] statements[i]).waiting_query_id,
        ) by {
            let id = statements[i].waiting_query_id;
            if i < init.len() {
                assert(init[i] == statements[i]);
                assert(waits_for(before, id));
            }
            if waits_for(before, id) {
                let k = choose|k: int|
                    0 <= k < before.len() && (#[trigger] before[k]).waiting_query_id == id;
                assert(all[k].waiting_query_id == id);
            } else {
                assert(all[all.len() - 1].waiting_query_id == id);
            }
        }
    }
}

/// A lock wait is confirmed only where `performance_schema` named the blocked transaction.
pub proof fn law_only_named_blockers_are_confirmed(replies: LiveRepliesView, k: int)
    requires
        0 <= k < waits_of(replies).len(),
        waits_of(replies)[k].is_confirmed_lock_wait,
    ensures
        replies.locks matches Ok(rows) && k < rows.len() && waits_of(replies)[k] == lock_of(
            rows[k],
        ),
{
    let waits = match replies.locks {
        Ok(rows) => locks_of(rows),
        Err(_) => Seq::empty(),
    };
    if let Some(rows) = replies.statements {
        let statements = statements_of(rows);
        let all = supplemented(waits, statements);
        law_confirmed_waits_take_precedence(waits, statements);
        if k >= waits.len() {
            assert(statements.contains(all[k]));
            let i = choose|i: int| 0 <= i < statements.len() && statements[i] == all[k];
            assert(!statement_of(rows[i]).is_confirmed_lock_wait);
        } else {
            assert(all.take(waits.len() as int)[k] == all[k]);
        }
    }
}

/// No count of a state exceeds that of all rows.
pub proof fn law_states_are_parts_of_the_schedule(rows: Seq<StatusRowView>, status: Seq<char>)
    ensures
        0 <= count_in(rows, status) <= count_all(rows),
        capped(count_in(rows, status)) <= capped(count_all(rows)),
    decreases rows.len(),
{
    if rows.len() > 0 {
        law_states_are_parts_of_the_schedule(rows.drop_last(), status);
    }
}

/// Each lock wait that was read stands at the place of its row, confirmed, and lasts exactly
/// the seconds that the row says, or none where the row says less than none.
pub proof fn law_lock_waits_are_those_of_the_rows(
    replies: LiveReplies,
    metrics: DatabaseMetrics,
    k: int,
)
    requires
        metrics@ == metrics_of(replies@),
        replies.locks matches Ok(rows) && 0 <= k < rows@.len(),
    ensures
        k < metrics.active_lock_waits@.len(),
        ({
            let row = replies.locks->Ok_0@[k];
            let wait = metrics.active_lock_waits@[k];
            &&& wait.wait_time_secs as int == if row.wait_secs >= 0 {
                row.wait_secs as int
            } else {
                0
            }
            &&& wait.is_confirmed_lock_wait
            &&& wait.waiting_query@ == row.waiting_query@
            &&& wait.blocking_query_id == row.blocking_id
            &&& row.waiting_id matches Some(id) ==> wait.waiting_query_id == id
            &&& row.waiting_id is None ==> wait.waiting_query_id == 0
            &&& row.blocking_query@.len() > 0 ==> text::text_opt(wait.blocking_query) == Some(
                row.blocking_query@,
            )
            &&& row.blocking_query@.len() == 0 ==> wait.blocking_query is None
            &&& wait.command is None && wait.user is None
            &&& ({
                let named = correlation::tables_of_sql(row.waiting_query@);
                if named.len() > 0 {
                    text::text_opt(wait.table_name) == Some(named[0])
                } else {
                    wait.table_name is None
                }
            })
        }),
{
    let rows = replies@.locks->Ok_0;
    let waits = locks_of(rows);
    let all = waits_of(replies@);
    if let Some(list) = replies@.statements {
        law_confirmed_waits_take_precedence(waits, statements_of(list));
        assert(all.take(waits.len() as int)[k] == all[k]);
    }
    assert(all[k] == waits[k]);
    assert(metrics@.active_lock_waits.len() == metrics.active_lock_waits@.len());
    assert(metrics@.active_lock_waits[k] == metrics.active_lock_waits@[k]@);
    assert(rows[k] == replies.locks->Ok_0@[k]@);
}

/// A wait behind those of the lock rows is a statement of the processlist: it lasts as long as
/// its row says, names no blocker, and its command tells the state where that speaks of a lock.
pub proof fn law_other_waits_are_statements(replies: LiveReplies, metrics: DatabaseMetrics, k: int)
    requires
        metrics@ == metrics_of(replies@),
        0 <= k < metrics.active_lock_waits@.len(),
        replies.locks matches Ok(rows) ==> k >= rows@.len(),
    ensures
        replies.statements is Some,
        exists|i: int|
            0 <= i < replies.statements->0@.len() && is_statement(
                metrics.active_lock_waits@[k],
                #[trigger] replies.statements->0@[i],
            ),
{
    let waits = match replies@.locks {
        Ok(rows) => locks_of(rows),
        Err(_) => Seq::empty(),
    };
    let all = waits_of(replies@);
    assert(metrics@.active_lock_waits[k] == metrics.active_lock_waits@[k]@);
    let list = replies@.statements->0;
    let statements = statements_of(list);
    law_confirmed_waits_take_precedence(waits, statements);
    assert(statements.contains(all[k]));
    let i = choose|i: int| 0 <= i < statements.len() && statements[i] == all[k];
    assert(list[i] == replies.statements->0@[i]@);
    assert(is_statement(metrics.active_lock_waits@[k], replies.statements->0@[i]));
}

/// Whether a wait says what a row of the processlist says.
pub open spec fn is_statement(wait: ActiveLockWait, row: StatementRow) -> bool {
    &&& wait.waiting_query_id == row.id
    &&& wait.waiting_query@ == row.info@
    &&& wait.wait_time_secs as int == if row.time_secs >= 0 {
        row.time_secs as int
    } else {
        0
    }
    &&& !wait.is_confirmed_lock_wait
    &&& wait.blocking_query_id is None
    &&& wait.blocking_query is None
    &&& text::text_opt(wait.user) == Some(row.user@)
    &&& wait.command is Some
    &&& text::contains_text(text::lowercase_of(row.state@), "lock"@) ==> wait.command->0@
        == row.command@ + " ("@ + row.state@ + ")"@
    &&& !text::contains_text(text::lowercase_of(row.state@), "lock"@) ==> wait.command->0@
        == row.command@
}

/// Every statement of the processlist is among the waits, unless one of the same query is.
pub proof fn law_no_statement_is_lost(replies: LiveReplies, metrics: DatabaseMetrics, i: int)
    requires
        metrics@ == metrics_of(replies@),
        replies.statements matches Some(rows) && 0 <= i < rows@.len(),
    ensures
        exists|k: int|
            0 <= k < metrics.active_lock_waits@.len() && (
            #[trigger] metrics.active_lock_waits@[k]).waiting_query_id
                == replies.statements->0@[i].id,
{
    let waits = match replies@.locks {
        Ok(rows) => locks_of(rows),
        Err(_) => Seq::empty(),
    };
    let list = replies@.statements->0;
    let statements = statements_of(list);
    let all = waits_of(replies@);
    law_confirmed_waits_take_precedence(waits, statements);
    assert(list[i] == replies.statements->0@[i]@);
    assert(waits_for(all, statements[i].waiting_query_id));
    let k = choose|k: int|
        0 <= k < all.len() && (#[trigger] all[k]).waiting_query_id
            == statements[i].waiting_query_id;
    assert(metrics@.active_lock_waits[k] == metrics.active_lock_waits@[k]@);
    assert(metrics.active_lock_waits@[k].waiting_query_id == replies.statements->0@[i].id);
}

/// Each digest carries the figures of its row, with the rows per execution rounded down.
pub proof fn law_digests_are_those_of_the_rows(
    replies: LiveReplies,
    metrics: DatabaseMetrics,
    k: int,
)
    requires
        metrics@ == metrics_of(replies@),
        replies.digests matches Ok(rows) && 0 <= k < rows@.len(),
    ensures
        metrics.query_digests@.len() == replies.digests->Ok_0@.len(),
        ({
            let row = replies.digests->Ok_0@[k];
            let d = metrics.query_digests@[k];
            &&& d.digest_id@ == row.digest@
            &&& d.fingerprint@ == row.text@
            &&& d.execution_count == row.count
            &&& d.total_time_ps == row.sum_time
            &&& d.avg_time_ps == row.avg_time
            &&& d.max_time_ps == row.max_time
            &&& row.count > 0 ==> d.avg_rows_examined * row.count <= row.rows_examined < (
            d.avg_rows_examined + 1) * row.count
            &&& row.count > 0 ==> d.avg_rows_sent * row.count <= row.rows_sent < (d.avg_rows_sent
                + 1) * row.count
            &&& row.count == 0 ==> d.avg_rows_examined == 0 && d.avg_rows_sent == 0
            &&& text::texts(d.tables_involved@) == correlation::tables_of_sql(row.text@)
            &&& text::text_opt(d.first_seen) == if row.first_seen@.len() > 0 {
                Some(row.first_seen@)
            } else {
                None
            }
            &&& text::text_opt(d.last_seen) == if row.last_seen@.len() > 0 {
                Some(row.last_seen@)
            } else {
                None
            }
        }),
{
    let row = replies.digests->Ok_0@[k];
    assert(metrics@.query_digests.len() == metrics.query_digests@.len());
    assert(metrics@.query_digests[k] == metrics.query_digests@[k]@);
    assert(replies@.digests->Ok_0[k] == row@);
    if row.count > 0 {
        lemma_average(row.rows_examined, row.count);
        lemma_average(row.rows_sent, row.count);
    }
}

proof fn lemma_average(sum: u64, count: u64)
    requires
        count > 0,
    ensures
        average(sum, count) * count <= sum < (average(sum, count) + 1) * count,
{
    let q = sum / count;
    assert(q * count <= sum < (q + 1) * count) by (nonlinear_arith)
        requires
            q == sum / count,
            count > 0,
    ;
}

/// Each table carries the figures of its row, and its size is that of data and index.
pub proof fn law_tables_are_those_of_the_rows(
    replies: LiveReplies,
    metrics: DatabaseMetrics,
    k: int,
)
    requires
        metrics@ == metrics_of(replies@),
        replies.tables matches Some(rows) && 0 <= k < rows@.len(),
    ensures
        metrics.table_sizes@.len() == replies.tables->0@.len(),
        ({
            let row = replies.tables->0@[k];
            let size = metrics.table_sizes@[k];
            &&& size.table_name@ == row.name@
            &&& size.row_count == row.rows
            &&& size.data_bytes == row.data_bytes
            &&& size.index_bytes == row.index_bytes
            &&& size.total_bytes as int == if row.data_bytes + row.index_bytes <= u64::MAX {
                row.data_bytes + row.index_bytes
            } else {
                u64::MAX as int
            }
        }),
{
    assert(metrics@.table_sizes.len() == metrics.table_sizes@.len());
    assert(metrics@.table_sizes[k] == metrics.table_sizes@[k]@);
    assert(replies@.tables->0[k] == replies.tables->0@[k]@);
}

/// One more table adds its data and its index to the size of the database, and an empty list
/// has none; without a reply the size is unknown.
pub proof fn law_database_size_adds_up(replies: LiveRepliesView, rows: Seq<TableRowView>, row: TableRowView)
    ensures
        ({
            let before = metrics_of(LiveRepliesView { tables: Some(rows), ..replies });
            let after = metrics_of(LiveRepliesView { tables: Some(rows.push(row)), ..replies });
            let sum = before.total_data_and_index_bytes->0 + row.data_bytes + row.index_bytes;
            &&& before.total_data_and_index_bytes is Some
            &&& after.total_data_and_index_bytes is Some
            &&& after.total_data_and_index_bytes->0 as int == if sum <= u64::MAX {
                sum
            } else {
                u64::MAX as int
            }
        }),
        metrics_of(
            LiveRepliesView { tables: Some(Seq::empty()), ..replies },
        ).total_data_and_index_bytes == Some(0u64),
        metrics_of(LiveRepliesView { tables: None, ..replies }).total_data_and_index_bytes is None,
        metrics_of(LiveRepliesView { tables: None, ..replies }).table_sizes.len() == 0,
{
    assert(rows.push(row).drop_last() =~= rows);
    lemma_bytes_positive(rows);
}

proof fn lemma_bytes_positive(rows: Seq<TableRowView>)
    ensures
        bytes_of(rows) >= 0,
    decreases rows.len(),
{
    if rows.len() > 0 {
        lemma_bytes_positive(rows.drop_last());
    }
}

/// A count with another added, up to the largest.
pub open spec fn raised(count: u64, by: int) -> int {
    if count + by <= u64::MAX {
        count + by
    } else {
        u64::MAX as int
    }
}

/// One more state of the cron schedule raises the count of all rows, and that of its own state
/// alone, whatever the case of its letters.
pub proof fn law_cron_states_add_up(
    rows: Seq<StatusRowView>,
    row: StatusRowView,
    jobs: Option<Seq<JobRowView>>,
)
    ensures
        ({
            let before = cron_of(Some(rows), jobs);
            let after = cron_of(Some(rows.push(row)), jobs);
            let state = text::lowercase_of(row.status);
            let share = |name: Seq<char>|
                if state == name {
                    row.count as int
                } else {
                    0int
                };
            &&& after.total_rows == raised(before.total_rows, row.count as int)
            &&& after.pending_rows == raised(before.pending_rows, share("pending"@))
            &&& after.running_rows == raised(before.running_rows, share("running"@))
            &&& after.success_rows == raised(before.success_rows, share("success"@))
            &&& after.missed_rows == raised(before.missed_rows, share("missed"@))
            &&& after.error_rows == raised(before.error_rows, share("error"@))
        }),
        ({
            let none = cron_of(None, jobs);
            &&& none.total_rows == 0 && none.pending_rows == 0 && none.running_rows == 0
            &&& none.success_rows == 0 && none.missed_rows == 0 && none.error_rows == 0
            &&& cron_of(Some(Seq::empty()), jobs) == none
        }),
{
    assert(rows.push(row).drop_last() =~= rows);
    law_states_are_parts_of_the_schedule(rows, "pending"@);
    law_states_are_parts_of_the_schedule(rows, "running"@);
    law_states_are_parts_of_the_schedule(rows, "success"@);
    law_states_are_parts_of_the_schedule(rows, "missed"@);
    law_states_are_parts_of_the_schedule(rows, "error"@);
}

/// The job that has been running longest is the first row, with its seconds.
pub proof fn law_oldest_job_is_the_first(replies: LiveReplies, metrics: DatabaseMetrics)
    requires
        metrics@ == metrics_of(replies@),
    ensures
        ({
            let cron = metrics.cron_schedule;
            match replies.oldest_job {
                Some(jobs) => if jobs@.len() > 0 {
                    &&& text::text_opt(cron.oldest_running_job) == Some(jobs@[0].job_code@)
                    &&& cron.oldest_running_seconds is Some
                    &&& jobs@[0].seconds matches Some(s) ==> cron.oldest_running_seconds->0 as int
                        == if s >= 0 {
                        s as int
                    } else {
                        0
                    }
                    &&& jobs@[0].seconds is None ==> cron.oldest_running_seconds == Some(0u64)
                } else {
                    cron.oldest_running_job is None && cron.oldest_running_seconds is None
                },
                None => cron.oldest_running_job is None && cron.oldest_running_seconds is None,
            }
        }),
{
    assert(metrics@.cron_schedule == metrics.cron_schedule@);
    if let Some(jobs) = replies.oldest_job {
        if jobs@.len() > 0 {
            assert(replies@.oldest_job->0[0] == jobs@[0]@);
        }
    }
}

/// Version, buffer pool and connections are what the first row of each reply says.
pub proof fn law_server_figures_are_read(replies: LiveReplies, metrics: DatabaseMetrics)
    requires
        metrics@ == metrics_of(replies@),
    ensures
        metrics.is_connected,
        text::text_opt(metrics.server_version) == match replies.version {
            Some(rows) if rows@.len() > 0 => Some(rows@[0]@),
            _ => None,
        },
        metrics.innodb_buffer_pool_bytes == match replies.buffer_pool {
            Some(rows) if rows@.len() > 0 => number::parsed_u64(rows@[0]@),
            _ => None,
        },
        metrics.active_connections == match replies.threads {
            Some(rows) if rows@.len() > 0 => match number::parsed_u64(rows@[0]@) {
                Some(n) => Some(n),
                None => Some(0u64),
            },
            _ => None,
        },
        replies.digests is Err ==> metrics.query_digests@.len() == 0,
        metrics.lock_collection@ == match replies.locks {
            Ok(_) => ProbeOutcomeView::Succeeded,
            Err(QueryFailure::Failed { error }) => ProbeOutcomeView::Failed {
                reason: "data_lock_waits unavailable: "@ + error@,
            },
            Err(QueryFailure::TimedOut) => ProbeOutcomeView::Failed {
                reason: "lock wait query timed out"@,
            },
        },
        metrics.digest_collection@ == match replies.digests {
            Ok(_) => ProbeOutcomeView::Succeeded,
            Err(QueryFailure::Failed { error }) => ProbeOutcomeView::Failed {
                reason: "performance_schema digest query failed: "@ + error@,
            },
            Err(QueryFailure::TimedOut) => ProbeOutcomeView::Failed {
                reason: "performance_schema digest query timed out"@,
            },
        },
{
    assert(metrics@.query_digests.len() == metrics.query_digests@.len());
}

/// A query may take the seconds that were asked for, but no fewer than one and no more than
/// five.
pub proof fn law_query_limit(timeout_secs: u64)
    ensures
        1 <= query_limit(timeout_secs) <= 5,
        1 <= timeout_secs <= 5 ==> query_limit(timeout_secs) == timeout_secs,
        timeout_secs > 5 ==> query_limit(timeout_secs) == 5,
        timeout_secs == 0 ==> query_limit(timeout_secs) == 1,
{
}

} // verus!
