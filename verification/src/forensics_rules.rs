//! Runtime forensics rules for MySQL digests, Redis internals, PHP workers, FPC, and
//! OpenSearch.

use crate::correlation::{self, correlate_query};
use crate::finding::{self, Category, Confidence, Finding, FindingView, Severity};
use crate::model::{
    ActiveLockWait, ActiveLockWaitView, MagentoInstallation, OpenSearchStatus, OpenSearchStatusView,
    PhpWorkerMetrics, PhpWorkerMetricsView, QueryDigest, QueryDigestView, RedisStatus,
    RedisStatusView, UncacheableBlock, UncacheableBlockView, WorkerMetricSource,
};
use crate::number::{self, is_positive, millis_text, num, num_or, or_zero};
use crate::ratio::{self, fixed_text_or, is_above, percent_text_or, Ratio};
use crate::text::{self, copy_texts, join, same, starts_with, str_or};
use vstd::prelude::*;
use vstd::string::*;

verus! {

/// Redis eviction policies that can discard a key which has no TTL.
///
/// Magento sets a TTL on every session key, so a `volatile-*` policy evicts only expired
/// sessions and is what Adobe Commerce documents for the session store. An `allkeys-*`
/// policy ignores TTLs and will drop live carts under memory pressure.
pub const SESSION_UNSAFE_POLICY_PREFIX: &'static str = "allkeys";

/// Average latency above which a digest is slow: one second, in picoseconds.
pub const SLOW_DIGEST_PS: u64 = 1_000_000_000_000;

/// Average of examined rows above which a digest scans heavily.
pub const HEAVY_SCAN_ROWS: u64 = 50_000;

/// A `DIGEST_TEXT` carries `?` placeholders, so it is not runnable as written.
pub const EXPLAIN_HINT: &'static str =
    "Substitute literal values for the ? placeholders, then run: EXPLAIN ANALYZE <query>";

pub const SLOW_DIGEST_TITLE: &'static str = "High latency MySQL query digest detected";

pub const SLOW_DIGEST_IMPACT: &'static str =
    "Heavy unindexed queries saturate MySQL threads, spike CPU usage, and cause cascading PHP-FPM worker exhaustion.";

pub const SLOW_DIGEST_FIX: &'static str =
    "Add missing composite indexes, optimize join conditions, or add collection pagination/caching.";

pub const LOCK_WAIT_TITLE: &'static str = "Active MySQL transaction lock wait detected";

pub const LONG_STATEMENT_TITLE: &'static str =
    "Long-running MySQL statement occupying a connection";

pub const LONG_STATEMENT_NOTE: &'static str =
    " seconds. performance_schema did not name a blocking transaction, so this is a slow statement rather than a confirmed lock wait.";

pub const LOCK_WAIT_IMPACT: &'static str =
    "Transactions queue up behind locks, holding PHP worker threads open until 504 Gateway Timeouts occur.";

pub const LOCK_WAIT_FIX: &'static str =
    "Identify and terminate blocking long-running transactions (SHOW PROCESSLIST, SHOW ENGINE INNODB STATUS) and minimize lock scope in custom transactions.";

pub const PROCESSLIST_COMMAND: &'static str = "SHOW FULL PROCESSLIST;";

pub const LOCK_WAITS_COMMAND: &'static str =
    "SELECT * FROM performance_schema.data_lock_waits;";

pub const SESSION_TITLE: &'static str = "Redis session store can evict live customer sessions";

pub const SESSION_SHARED_NOTE: &'static str =
    "Session and cache share one Redis instance, so evicted_keys cannot be attributed to sessions alone.";

pub const SESSION_IMPACT: &'static str =
    "Active shopping sessions are discarded under memory pressure, dropping carts and logging customers out mid-checkout.";

pub const SESSION_POLICY_FIX: &'static str =
    "Magento sets a TTL on every session key, so use 'volatile-lru' (Adobe's documented setting for the session store) or 'noeviction' with enough maxmemory. Avoid allkeys-* policies, which ignore TTLs.";

pub const SESSION_MEMORY_FIX: &'static str =
    "Raise maxmemory on the session instance, or give sessions a dedicated Redis instance so cache churn cannot pressure them.";

pub const SESSION_POLICY_COMMAND: &'static str =
    "redis-cli -h <session_host> -p <session_port> CONFIG GET maxmemory-policy";

pub const SESSION_STATS_COMMAND: &'static str =
    "redis-cli -h <session_host> -p <session_port> INFO stats | grep evicted_keys";

pub const MEMORY_TITLE: &'static str = "Redis memory pressure or severe memory fragmentation";

pub const MEMORY_UNLIMITED: &'static str = "Max memory: unlimited (maxmemory is 0)";

pub const MEMORY_IMPACT: &'static str =
    "High fragmentation causes operating system swap thrashing and OS OOM kills of the Redis daemon.";

pub const MEMORY_FIX: &'static str =
    "Enable active defragmentation (CONFIG SET activedefrag yes) or restart Redis during a maintenance window to compact memory.";

pub const HIT_RATIO_TITLE: &'static str = "Low Redis cache hit ratio (cache thrashing)";

pub const HIT_RATIO_IMPACT: &'static str =
    "Severe cache misses force every request to fall back to MySQL and PHP compilation, degrading storefront latency.";

pub const HIT_RATIO_FIX: &'static str =
    "Check for excessive cache flushing, increase maxmemory, or inspect volatile tags.";

pub const SATURATION_TITLE: &'static str = "PHP-FPM worker pool saturation / queue buildup";

pub const SATURATION_IMPACT: &'static str =
    "Incoming web requests are queued or dropped, producing Nginx/Apache 502 Bad Gateway and 504 Gateway Timeout errors.";

pub const SATURATION_FIX: &'static str =
    "Increase pm.max_children if host RAM allows, or optimize slow PHP execution paths holding workers open.";

pub const POOL_MEMORY_TITLE: &'static str =
    "PHP-FPM worker pool memory allocation exceeds host RAM (OOM risk)";

pub const POOL_MEMORY_IMPACT: &'static str =
    "Under traffic surges, the Linux OOM killer will terminate php-fpm or MySQL, crashing the store.";

pub const POOL_MEMORY_FIX: &'static str =
    "Lower pm.max_children in the pool configuration or add RAM so total pool memory stays under 75% of physical memory.";

pub const FOOTPRINT_MEASURED: &'static str = "measured from process RSS";

pub const FOOTPRINT_ESTIMATED: &'static str = "estimated; no live workers to measure";

pub const PUNCTURE_TITLE: &'static str =
    "Storefront layout block declared with cacheable=\"false\" (FPC bypass)";

pub const PUNCTURE_NOTE: &'static str =
    "' has cacheable=\"false\", completely disabling Full Page Cache for that page.";

pub const PUNCTURE_IMPACT: &'static str =
    "In Magento 2, setting cacheable=\"false\" on ANY block in a layout disables FPC for the entire page, forcing 100% PHP/MySQL execution on every page view.";

pub const PUNCTURE_FIX: &'static str =
    "Remove cacheable=\"false\" from the layout XML. Load dynamic content via private customer data (customer-data.js) or GraphQL/REST AJAX instead.";

pub const DEGRADED_TITLE: &'static str = "OpenSearch / Elasticsearch cluster health degraded";

pub const DEGRADED_IMPACT: &'static str =
    "A red cluster cannot execute search queries, returning 500 errors on catalog pages. Unassigned shards remove replica redundancy and degrade latency.";

pub const DEGRADED_FIX: &'static str =
    "Investigate unassigned shards via GET /_cluster/allocation/explain and verify disk space on data nodes.";

pub const SINGLE_NODE_TITLE: &'static str =
    "Single-node OpenSearch cluster has no replica redundancy";

pub const SINGLE_NODE_NOTE: &'static str =
    "' reports yellow because it runs on one node, so replica shards cannot be assigned. This is expected for a single-node deployment, not a fault.";

pub const SINGLE_NODE_IMPACT: &'static str =
    "Losing the single search node takes catalog search down with no failover.";

pub const SINGLE_NODE_FIX: &'static str =
    "Acceptable for staging. For production resilience add a second data node, or set number_of_replicas to 0 to make the green/yellow signal meaningful.";

pub const NO_INDEX_TITLE: &'static str =
    "No Magento catalog search index present in the cluster";

pub const NO_INDEX_SUMMARY: &'static str =
    "The cluster is reachable but holds no product or category search index, so catalog search and layered navigation cannot return results.";

pub const NO_INDEX_IMPACT: &'static str =
    "Category listing and search pages raise search adapter exceptions until the catalog is indexed.";

pub const NO_INDEX_FIX: &'static str =
    "Run bin/magento indexer:reindex catalogsearch_fulltext and confirm the configured Elasticsearch index prefix matches the cluster.";

pub const NO_INDEX_COMMAND: &'static str = "curl -s '<host>:9200/_cat/indices?v'";

/// Whether a digest is slow.
pub open spec fn is_slow(d: QueryDigestView) -> bool {
    d.avg_time_ps > SLOW_DIGEST_PS
}

/// Whether a digest examines many rows.
pub open spec fn scans_heavily(d: QueryDigestView) -> bool {
    d.avg_rows_examined > HEAVY_SCAN_ROWS
}

/// What is found of a slow or wide digest. One that is merely wide, such as a report, is
/// not automatically an incident; latency is the signal that holds a worker open.
pub open spec fn slow_digest_finding(
    d: QueryDigestView,
    installation: MagentoInstallation,
) -> FindingView {
    let modules = correlation::correlation_of(d.fingerprint, d.tables_involved, installation).candidate_modules;
    let heading = FindingView::heading(
        "MD-SQL-001"@,
        SLOW_DIGEST_TITLE@,
        if is_slow(d) {
            Severity::Critical
        } else {
            Severity::Warning
        },
        if is_slow(d) && scans_heavily(d) {
            Confidence::High
        } else {
            Confidence::Medium
        },
        Category::Queries,
    );
    let told = heading.with_summary(
        "Query digest executes with average latency "@ + number::millis(d.avg_time_ps, 1) + "ms (max "@
            + number::millis(d.max_time_ps, 1) + "ms), examining avg "@ + number::dec(d.avg_rows_examined as nat)
            + " rows."@,
    ).with_evidence("Query fingerprint: "@ + d.fingerprint).with_evidence(
        "Execution count: "@ + number::dec(d.execution_count as nat),
    );
    let tabled = if d.tables_involved.len() > 0 {
        told.with_evidence("Tables involved: "@ + text::joined(d.tables_involved, ", "@))
    } else {
        told
    };
    let owned = if modules.len() > 0 {
        FindingView {
            related_modules: modules,
            ..tabled.with_evidence("Candidate owning modules: "@ + text::joined(modules, ", "@))
        }
    } else {
        tabled
    };
    (FindingView { related_tables: d.tables_involved, ..owned }).with_advice(
        SLOW_DIGEST_IMPACT@,
        SLOW_DIGEST_FIX@,
    ).with_command(EXPLAIN_HINT@)
}

/// The findings on a list of digests, in its order.
pub open spec fn slow_digest_findings(
    digests: Seq<QueryDigestView>,
    installation: MagentoInstallation,
) -> Seq<FindingView>
    decreases digests.len(),
{
    if digests.len() == 0 {
        Seq::empty()
    } else {
        let before = slow_digest_findings(digests.drop_last(), installation);
        let d = digests.last();
        if is_slow(d) || scans_heavily(d) {
            before.push(slow_digest_finding(d, installation))
        } else {
            before
        }
    }
}

fn find_slow_digest(d: &QueryDigest, installation: &MagentoInstallation) -> (f: Finding)
    requires
        is_slow(d@) || scans_heavily(d@),
    ensures
        f@ == slow_digest_finding(d@, *installation),
{
    let slow = d.avg_time_ps > SLOW_DIGEST_PS;
    let wide = d.avg_rows_examined > HEAVY_SCAN_ROWS;
    let corr = correlate_query(d, installation);
    let mut f = Finding::new(
        "MD-SQL-001",
        SLOW_DIGEST_TITLE,
        if slow {
            Severity::Critical
        } else {
            Severity::Warning
        },
        if slow && wide {
            Confidence::High
        } else {
            Confidence::Medium
        },
        Category::Queries,
    );
    f.summarise(
        "Query digest executes with average latency ".to_owned().concat(
            millis_text(d.avg_time_ps, 1).as_str(),
        ).concat("ms (max ").concat(millis_text(d.max_time_ps, 1).as_str()).concat(
            "ms), examining avg ",
        ).concat(num(d.avg_rows_examined).as_str()).concat(" rows."),
    );
    f.add_evidence("Query fingerprint: ".to_owned().concat(d.fingerprint.as_str()));
    f.add_evidence("Execution count: ".to_owned().concat(num(d.execution_count).as_str()));
    if d.tables_involved.len() > 0 {
        f.add_evidence(
            "Tables involved: ".to_owned().concat(join(&d.tables_involved, ", ").as_str()),
        );
    }
    if corr.candidate_modules.len() > 0 {
        f.add_evidence(
            "Candidate owning modules: ".to_owned().concat(
                join(&corr.candidate_modules, ", ").as_str(),
            ),
        );
        f.related_modules = corr.candidate_modules;
    }
    f.related_tables = copy_texts(&d.tables_involved);
    f.advise(SLOW_DIGEST_IMPACT, SLOW_DIGEST_FIX);
    f.add_command(EXPLAIN_HINT);
    f
}

/// MD-SQL-001: high latency MySQL query digests.
pub fn evaluate_slow_digests(installation: &MagentoInstallation) -> (r: Vec<Finding>)
    ensures
        finding::finding_views(r@) == slow_digest_findings(
            installation.database_metrics@.query_digests,
            *installation,
        ),
{
    broadcast use {finding::lemma_findings_push, finding::lemma_findings_empty};

    let digests = &installation.database_metrics.query_digests;
    let ghost all = installation.database_metrics@.query_digests;
    let mut findings: Vec<Finding> = Vec::new();
    let mut i: usize = 0;
    while i < digests.len()
        invariant
            i <= digests@.len(),
            all.len() == digests@.len(),
            forall|k: int| 0 <= k < all.len() ==> all[k] == #[trigger] digests@[k]@,
            finding::finding_views(findings@) == slow_digest_findings(all.take(i as int), *installation),
        decreases digests@.len() - i,
    {
        let d = &digests[i];
        assert(all.take(i + 1).drop_last() =~= all.take(i as int));
        assert(all.take(i + 1).last() == d@);
        if d.avg_time_ps > SLOW_DIGEST_PS || d.avg_rows_examined > HEAVY_SCAN_ROWS {
            findings.push(find_slow_digest(d, installation));
        }
        i += 1;
    }
    assert(all.take(i as int) =~= all);
    findings
}

/// What is found of a statement that has been waiting or running for more than five
/// seconds. Only a confirmed blocker earns a critical finding.
pub open spec fn lock_wait_finding(lock: ActiveLockWaitView) -> FindingView {
    let named = if lock.is_confirmed_lock_wait {
        FindingView::heading(
            "MD-SQL-002"@,
            LOCK_WAIT_TITLE@,
            Severity::Critical,
            Confidence::High,
            Category::Database,
        ).with_summary(
            "Thread "@ + number::dec(lock.waiting_query_id as nat)
                + " has been blocked waiting for a lock for "@ + number::dec(lock.wait_time_secs as nat)
                + " seconds."@,
        ).with_labelled(
            "Blocking thread: "@,
            match lock.blocking_query_id {
                Some(id) => Some(number::dec(id as nat)),
                None => None,
            },
        ).with_labelled("Blocking query: "@, lock.blocking_query)
    } else {
        FindingView::heading(
            "MD-SQL-003"@,
            LONG_STATEMENT_TITLE@,
            Severity::Warning,
            Confidence::Medium,
            Category::Database,
        ).with_summary(
            "Thread "@ + number::dec(lock.waiting_query_id as nat) + " has been executing for "@ + number::dec(
                lock.wait_time_secs as nat,
            ) + LONG_STATEMENT_NOTE@,
        ).with_labelled("Command/state: "@, lock.command).with_labelled(
            "Connection user: "@,
            lock.user,
        )
    };
    let queried = named.with_evidence("Query: "@ + lock.waiting_query);
    let tabled = match lock.table_name {
        Some(t) => FindingView {
            related_tables: queried.related_tables.push(t),
            ..queried.with_evidence("Table: "@ + t)
        },
        None => queried,
    };
    tabled.with_advice(LOCK_WAIT_IMPACT@, LOCK_WAIT_FIX@).with_command(
        PROCESSLIST_COMMAND@,
    ).with_command(LOCK_WAITS_COMMAND@)
}

/// The findings on a list of waits, in its order.
pub open spec fn lock_wait_findings(locks: Seq<ActiveLockWaitView>) -> Seq<FindingView>
    decreases locks.len(),
{
    if locks.len() == 0 {
        Seq::empty()
    } else {
        let before = lock_wait_findings(locks.drop_last());
        if locks.last().wait_time_secs > 5 {
            before.push(lock_wait_finding(locks.last()))
        } else {
            before
        }
    }
}

fn find_lock_wait(lock: &ActiveLockWait) -> (f: Finding)
    ensures
        f@ == lock_wait_finding(lock@),
{
    broadcast use text::lemma_texts_push;

    let mut f = if lock.is_confirmed_lock_wait {
        let mut f = Finding::new(
            "MD-SQL-002",
            LOCK_WAIT_TITLE,
            Severity::Critical,
            Confidence::High,
            Category::Database,
        );
        f.summarise(
            "Thread ".to_owned().concat(num(lock.waiting_query_id).as_str()).concat(
                " has been blocked waiting for a lock for ",
            ).concat(num(lock.wait_time_secs).as_str()).concat(" seconds."),
        );
        if let Some(blocker) = lock.blocking_query_id {
            f.add_evidence("Blocking thread: ".to_owned().concat(num(blocker).as_str()));
        }
        f.add_labelled("Blocking query: ", &lock.blocking_query);
        f
    } else {
        let mut f = Finding::new(
            "MD-SQL-003",
            LONG_STATEMENT_TITLE,
            Severity::Warning,
            Confidence::Medium,
            Category::Database,
        );
        f.summarise(
            "Thread ".to_owned().concat(num(lock.waiting_query_id).as_str()).concat(
                " has been executing for ",
            ).concat(num(lock.wait_time_secs).as_str()).concat(LONG_STATEMENT_NOTE),
        );
        f.add_labelled("Command/state: ", &lock.command);
        f.add_labelled("Connection user: ", &lock.user);
        f
    };
    f.add_evidence("Query: ".to_owned().concat(lock.waiting_query.as_str()));
    if let Some(table) = &lock.table_name {
        f.add_evidence("Table: ".to_owned().concat(table.as_str()));
        f.related_tables.push(table.clone());
    }
    f.advise(LOCK_WAIT_IMPACT, LOCK_WAIT_FIX);
    f.add_command(PROCESSLIST_COMMAND);
    f.add_command(LOCK_WAITS_COMMAND);
    f
}

/// MD-SQL-002 and MD-SQL-003: lock contention. Only a confirmed blocker earns a critical
/// finding; a long-running query alone is reported as one, not as a lock wait.
pub fn evaluate_lock_waits(installation: &MagentoInstallation) -> (r: Vec<Finding>)
    ensures
        finding::finding_views(r@) == lock_wait_findings(installation.database_metrics@.active_lock_waits),
{
    broadcast use {finding::lemma_findings_push, finding::lemma_findings_empty};

    let locks = &installation.database_metrics.active_lock_waits;
    let ghost all = installation.database_metrics@.active_lock_waits;
    let mut findings: Vec<Finding> = Vec::new();
    let mut i: usize = 0;
    while i < locks.len()
        invariant
            i <= locks@.len(),
            all.len() == locks@.len(),
            forall|k: int| 0 <= k < all.len() ==> all[k] == #[trigger] locks@[k]@,
            finding::finding_views(findings@) == lock_wait_findings(all.take(i as int)),
        decreases locks@.len() - i,
    {
        let lock = &locks[i];
        assert(all.take(i + 1).drop_last() =~= all.take(i as int));
        assert(all.take(i + 1).last() == lock@);
        if lock.wait_time_secs > 5 {
            findings.push(find_lock_wait(lock));
        }
        i += 1;
    }
    assert(all.take(i as int) =~= all);
    findings
}

/// Whether both instances are the same server, so that server-wide counters such as
/// `evicted_keys` cannot be attributed to one of them alone.
pub open spec fn same_instance(a: RedisStatusView, b: RedisStatusView) -> bool {
    a.endpoint is Some && a.endpoint == b.endpoint
}

pub fn shares_instance(a: &RedisStatus, b: &RedisStatus) -> (r: bool)
    ensures
        r == same_instance(a@, b@),
{
    match (&a.endpoint, &b.endpoint) {
        (Some(x), Some(y)) => same(x, y),
        _ => false,
    }
}

/// Whether a policy discards keys that still hold a live session.
pub open spec fn is_unsafe_policy(policy: Seq<char>) -> bool {
    text::has_prefix(policy, SESSION_UNSAFE_POLICY_PREFIX@)
}

/// Whether the session instance evicts, or is set up to evict, live sessions. Evictions on
/// an instance that the cache shares may be entirely the cache's.
pub open spec fn sessions_at_risk(
    session: RedisStatusView,
    cache: RedisStatusView,
    policy: Seq<char>,
) -> bool {
    is_unsafe_policy(policy) || (number::positive(session.evicted_keys) && !same_instance(session, cache))
}

/// What is found of a session instance with a risky policy or evictions of its own.
pub open spec fn session_finding(
    session: RedisStatusView,
    cache: RedisStatusView,
    policy: Seq<char>,
    configured_host: Option<Seq<char>>,
) -> FindingView {
    let is_unsafe = is_unsafe_policy(policy);
    let evicted = number::dec(number::count_or_zero(session.evicted_keys) as nat);
    let told = FindingView::heading(
        "MD-RDS-001"@,
        SESSION_TITLE@,
        if is_unsafe {
            Severity::Critical
        } else {
            Severity::Warning
        },
        if is_unsafe && number::positive(session.evicted_keys) {
            Confidence::High
        } else {
            Confidence::Medium
        },
        Category::Cache,
    ).with_summary(
        if is_unsafe {
            "Session Redis uses maxmemory-policy '"@ + policy
                + "', which evicts keys regardless of TTL, with "@ + evicted
                + " keys evicted so far."@
        } else {
            "Session Redis has evicted "@ + evicted + " keys under policy '"@ + policy + "'."@
        },
    ).with_evidence(
        "Endpoint: "@ + text::text_or(session.endpoint, text::text_or(configured_host, "unknown"@)),
    ).with_evidence("maxmemory-policy: "@ + policy).with_evidence(
        "evicted_keys (server-wide): "@ + evicted,
    );
    let shared = if same_instance(session, cache) {
        told.with_evidence(SESSION_SHARED_NOTE@)
    } else {
        told
    };
    shared.with_advice(
        SESSION_IMPACT@,
        if is_unsafe {
            SESSION_POLICY_FIX@
        } else {
            SESSION_MEMORY_FIX@
        },
    ).with_command(SESSION_POLICY_COMMAND@).with_command(SESSION_STATS_COMMAND@)
}

/// The findings on the session instance: none without a reading of its policy.
pub open spec fn session_findings(
    session: RedisStatusView,
    cache: RedisStatusView,
    configured_host: Option<Seq<char>>,
) -> Seq<FindingView> {
    match session.maxmemory_policy {
        Some(policy) if session.is_reachable && sessions_at_risk(session, cache, policy) => seq![
            session_finding(session, cache, policy, configured_host),
        ],
        _ => Seq::empty(),
    }
}

/// MD-RDS-001: session store eviction risk.
pub fn evaluate_session_redis(installation: &MagentoInstallation) -> (r: Vec<Finding>)
    ensures
        finding::finding_views(r@) == session_findings(
            installation.runtime.redis_session@,
            installation.runtime.redis_default@,
            installation.env_config@.redis_session_host,
        ),
{
    broadcast use {finding::lemma_findings_push, finding::lemma_findings_empty};

    let session = &installation.runtime.redis_session;
    let mut findings: Vec<Finding> = Vec::new();
    if !session.is_reachable {
        return findings;
    }
    let policy = match &session.maxmemory_policy {
        Some(p) => p,
        None => {
            return findings;
        },
    };
    let policy_is_unsafe = starts_with(policy, SESSION_UNSAFE_POLICY_PREFIX);
    let evicted: u64 = or_zero(session.evicted_keys);
    let shared_with_cache = shares_instance(session, &installation.runtime.redis_default);
    let evictions_are_attributable = evicted > 0 && !shared_with_cache;
    if !policy_is_unsafe && !evictions_are_attributable {
        return findings;
    }
    let count = num(evicted);
    let mut f = Finding::new(
        "MD-RDS-001",
        SESSION_TITLE,
        if policy_is_unsafe {
            Severity::Critical
        } else {
            Severity::Warning
        },
        if policy_is_unsafe && evicted > 0 {
            Confidence::High
        } else {
            Confidence::Medium
        },
        Category::Cache,
    );
    f.summarise(
        if policy_is_unsafe {
            "Session Redis uses maxmemory-policy '".to_owned().concat(policy.as_str()).concat(
                "', which evicts keys regardless of TTL, with ",
            ).concat(count.as_str()).concat(" keys evicted so far.")
        } else {
            "Session Redis has evicted ".to_owned().concat(count.as_str()).concat(
                " keys under policy '",
            ).concat(policy.as_str()).concat("'.")
        },
    );
    f.add_evidence(
        "Endpoint: ".to_owned().concat(
            str_or(
                &session.endpoint,
                str_or(&installation.env_config.redis_session_host, "unknown"),
            ),
        ),
    );
    f.add_evidence("maxmemory-policy: ".to_owned().concat(policy.as_str()));
    f.add_evidence("evicted_keys (server-wide): ".to_owned().concat(count.as_str()));
    if shared_with_cache {
        f.add_evidence(SESSION_SHARED_NOTE.to_owned());
    }
    f.advise(
        SESSION_IMPACT,
        if policy_is_unsafe {
            SESSION_POLICY_FIX
        } else {
            SESSION_MEMORY_FIX
        },
    );
    f.add_command(SESSION_POLICY_COMMAND);
    f.add_command(SESSION_STATS_COMMAND);
    findings.push(f);
    assert(finding::finding_views(findings@) =~= seq![f@]);
    findings
}

/// The fragmentation that a cache instance reported, or none.
pub open spec fn fragmentation(cache: RedisStatusView) -> (nat, nat) {
    match cache.mem_fragmentation_ratio {
        Some(r) => r,
        None => (1, 1),
    }
}

/// Whether more than nine tenths of the memory limit are used.
pub open spec fn is_high_memory(cache: RedisStatusView) -> bool {
    let used = number::count_or_zero(cache.used_memory_bytes);
    let max = number::count_or_zero(cache.maxmemory_bytes);
    max > 0 && used * 10 > 9 * max
}

/// Whether a large instance is fragmented by more than a factor of 1.8.
pub open spec fn is_fragmented(cache: RedisStatusView) -> bool {
    let f = fragmentation(cache);
    f.0 * 5 > 9 * f.1 && number::count_or_zero(cache.used_memory_bytes) > 100_000_000
}

pub open spec fn memory_finding(cache: RedisStatusView) -> FindingView {
    let used = number::count_or_zero(cache.used_memory_bytes);
    let max = number::count_or_zero(cache.maxmemory_bytes);
    let frag = number::fixed(fragmentation(cache).0, fragmentation(cache).1, 2);
    FindingView::heading(
        "MD-RDS-002"@,
        MEMORY_TITLE@,
        Severity::Warning,
        Confidence::High,
        Category::Cache,
    ).with_summary(
        "Redis memory usage at "@ + (if max > 0 {
            number::fixed((used * 100) as nat, max as nat, 1)
        } else {
            "0.0"@
        }) + "% of maxmemory with fragmentation ratio "@ + frag + "."@,
    ).with_evidence("Used memory: "@ + number::dec((used / 0x10_0000) as nat) + " MB"@).with_evidence(
        if max > 0 {
            "Max memory: "@ + number::dec((max / 0x10_0000) as nat) + " MB"@
        } else {
            MEMORY_UNLIMITED@
        },
    ).with_evidence("Fragmentation ratio: "@ + frag).with_advice(MEMORY_IMPACT@, MEMORY_FIX@)
}

/// Whether a hit ratio is under seventy percent over a fair number of lookups.
pub open spec fn is_thrashing(cache: RedisStatusView) -> bool {
    match cache.hit_ratio {
        Some(r) => number::count_or_zero(cache.keyspace_hits) + number::count_or_zero(cache.keyspace_misses) > 5000
            && r.0 * 10 < 7 * r.1,
        None => false,
    }
}

pub open spec fn hit_ratio_finding(cache: RedisStatusView, ratio: (nat, nat)) -> FindingView {
    FindingView::heading(
        "MD-RDS-003"@,
        HIT_RATIO_TITLE@,
        Severity::Warning,
        Confidence::High,
        Category::Cache,
    ).with_summary(
        "Redis keyspace hit ratio is only "@ + number::fixed(ratio.0 * 100, ratio.1, 1) + "% ("@ + number::dec(
            number::count_or_zero(cache.keyspace_hits) as nat,
        ) + " hits / "@ + number::dec(number::count_or_zero(cache.keyspace_misses) as nat) + " misses)."@,
    ).with_advice(HIT_RATIO_IMPACT@, HIT_RATIO_FIX@)
}

/// The findings on the cache instance.
pub open spec fn cache_findings(cache: RedisStatusView) -> Seq<FindingView> {
    if !cache.is_reachable {
        Seq::empty()
    } else {
        (if is_high_memory(cache) || is_fragmented(cache) {
            seq![memory_finding(cache)]
        } else {
            Seq::empty()
        }) + (match cache.hit_ratio {
            Some(ratio) if is_thrashing(cache) => seq![hit_ratio_finding(cache, ratio)],
            _ => Seq::empty(),
        })
    }
}

fn find_memory_pressure(cache: &RedisStatus) -> (f: Finding)
    ensures
        f@ == memory_finding(cache@),
{
    let used: u64 = or_zero(cache.used_memory_bytes);
    let max: u64 = or_zero(cache.maxmemory_bytes);
    let frag = match cache.mem_fragmentation_ratio {
        Some(r) => r,
        None => Ratio::whole(1),
    };
    let frag_text = frag.fixed_text(2);
    let usage = match Ratio::percent(used, max) {
        Some(r) => r.fixed_text(1),
        None => "0.0".to_owned(),
    };
    let mut f = Finding::new(
        "MD-RDS-002",
        MEMORY_TITLE,
        Severity::Warning,
        Confidence::High,
        Category::Cache,
    );
    f.summarise(
        "Redis memory usage at ".to_owned().concat(usage.as_str()).concat(
            "% of maxmemory with fragmentation ratio ",
        ).concat(frag_text.as_str()).concat("."),
    );
    f.add_evidence("Used memory: ".to_owned().concat(num(used / 0x10_0000).as_str()).concat(" MB"));
    f.add_evidence(
        if max > 0 {
            "Max memory: ".to_owned().concat(num(max / 0x10_0000).as_str()).concat(" MB")
        } else {
            MEMORY_UNLIMITED.to_owned()
        },
    );
    f.add_evidence("Fragmentation ratio: ".to_owned().concat(frag_text.as_str()));
    f.advise(MEMORY_IMPACT, MEMORY_FIX);
    f
}

fn find_low_hit_ratio(cache: &RedisStatus, ratio: Ratio) -> (f: Finding)
    ensures
        f@ == hit_ratio_finding(cache@, ratio@),
{
    let mut f = Finding::new(
        "MD-RDS-003",
        HIT_RATIO_TITLE,
        Severity::Warning,
        Confidence::High,
        Category::Cache,
    );
    f.summarise(
        "Redis keyspace hit ratio is only ".to_owned().concat(ratio.percent_text().as_str()).concat(
            "% (",
        ).concat(num(or_zero(cache.keyspace_hits)).as_str()).concat(" hits / ").concat(
            num(or_zero(cache.keyspace_misses)).as_str(),
        ).concat(" misses)."),
    );
    f.advise(HIT_RATIO_IMPACT, HIT_RATIO_FIX);
    f
}

/// MD-RDS-002 and MD-RDS-003: cache instance memory pressure and hit ratio.
pub fn evaluate_cache_redis(installation: &MagentoInstallation) -> (r: Vec<Finding>)
    ensures
        finding::finding_views(r@) == cache_findings(installation.runtime.redis_default@),
{
    broadcast use {finding::lemma_findings_push, finding::lemma_findings_empty};

    let cache = &installation.runtime.redis_default;
    let mut findings: Vec<Finding> = Vec::new();
    if !cache.is_reachable {
        return findings;
    }
    let used: u64 = or_zero(cache.used_memory_bytes);
    let max: u64 = or_zero(cache.maxmemory_bytes);
    let high_memory = max > 0 && (used as u128) * 10 > 9 * (max as u128);
    let high_frag = used > 100_000_000 && match cache.mem_fragmentation_ratio {
        Some(r) => r.exceeds(9, 5),
        None => false,
    };
    if high_memory || high_frag {
        findings.push(find_memory_pressure(cache));
        assert(finding::finding_views(findings@) =~= seq![memory_finding(cache@)]);
    }
    let ghost first = finding::finding_views(findings@);
    if let Some(ratio) = cache.hit_ratio {
        let lookups: u128 = (or_zero(cache.keyspace_hits) as u128) + (or_zero(
            cache.keyspace_misses,
        ) as u128);
        if lookups > 5000 && ratio.below(7, 10) {
            findings.push(find_low_hit_ratio(cache, ratio));
            assert(first + seq![hit_ratio_finding(cache@, ratio@)] =~= first.push(
                hit_ratio_finding(cache@, ratio@),
            ));
        } else {
            assert(first + Seq::empty() =~= first);
        }
    } else {
        assert(first + Seq::empty() =~= first);
    }
    assert(finding::finding_views(findings@) =~= cache_findings(cache@));
    findings
}

/// Whether the pool is under pressure. Saturation and listen queue are only meaningful from
/// the scoreboard: a `/proc` scan counts a worker blocked on MySQL as idle.
pub open spec fn is_saturated(fpm: PhpWorkerMetricsView) -> bool {
    &&& fpm.source == WorkerMetricSource::FpmStatus
    &&& (ratio::exceeds_whole(fpm.saturation_pct, 85) || number::positive(fpm.listen_queue) || number::positive(
        fpm.max_children_reached,
    ))
}

pub open spec fn opt_dec(n: Option<u64>) -> Option<Seq<char>> {
    match n {
        Some(v) => Some(number::dec(v as nat)),
        None => None,
    }
}

pub open spec fn saturation_finding(fpm: PhpWorkerMetricsView) -> FindingView {
    FindingView::heading(
        "MD-FPM-001"@,
        SATURATION_TITLE@,
        if number::positive(fpm.listen_queue) || number::positive(fpm.max_children_reached) {
            Severity::Critical
        } else {
            Severity::Warning
        },
        Confidence::High,
        Category::Php,
    ).with_summary(
        "PHP-FPM pool '"@ + text::text_or(fpm.pool_name, "unknown"@) + "' is "@ + ratio::percent_or(
            fpm.saturation_pct,
            "unknown"@,
        ) + " saturated ("@ + number::dec_or(fpm.active_workers, "?"@) + " of "@ + number::dec_or(
            fpm.max_children,
            "?"@,
        ) + " workers active, listen queue "@ + number::dec_or(fpm.listen_queue, "?"@) + ")."@,
    ).with_evidence("Metric source: "@ + fpm.source.described()).with_labelled(
        "Read from: "@,
        fpm.origin,
    ).with_labelled("Process manager: "@, fpm.process_manager).with_labelled(
        "max children reached (cumulative): "@,
        opt_dec(fpm.max_children_reached),
    ).with_labelled("slow requests: "@, opt_dec(fpm.slow_requests)).with_advice(
        SATURATION_IMPACT@,
        SATURATION_FIX@,
    )
}

pub open spec fn pool_memory_finding(fpm: PhpWorkerMetricsView) -> FindingView {
    FindingView::heading(
        "MD-FPM-002"@,
        POOL_MEMORY_TITLE@,
        Severity::Critical,
        Confidence::High,
        Category::Php,
    ).with_summary(
        "Pool '"@ + text::text_or(fpm.pool_name, "unknown"@) + "' max_children ("@ + number::dec_or(
            fpm.max_children,
            "?"@,
        ) + ") can consume up to "@ + ratio::fixed_or(fpm.total_pool_memory_mb, 0, "0"@) + " MB against "@
            + ratio::fixed_or(fpm.host_total_memory_mb, 0, "0"@) + " MB of host RAM."@,
    ).with_evidence("Metric source: "@ + fpm.source.described()).with_labelled(
        "Read from: "@,
        fpm.origin,
    ).with_evidence(
        "Worker footprint: "@ + ratio::fixed_or(fpm.worker_memory_mb, 0, "0"@) + " MB ("@ + (
        if fpm.worker_memory_measured {
            FOOTPRINT_MEASURED@
        } else {
            FOOTPRINT_ESTIMATED@
        }) + ")"@,
    ).with_evidence(
        "Potential pool memory: "@ + ratio::fixed_or(fpm.total_pool_memory_mb, 0, "0"@) + " MB"@,
    ).with_advice(POOL_MEMORY_IMPACT@, POOL_MEMORY_FIX@)
}

/// The findings on the worker pool.
pub open spec fn worker_findings(fpm: PhpWorkerMetricsView) -> Seq<FindingView> {
    if !fpm.is_detected {
        Seq::empty()
    } else {
        (if is_saturated(fpm) {
            seq![saturation_finding(fpm)]
        } else {
            Seq::empty()
        }) + (if fpm.oom_risk {
            seq![pool_memory_finding(fpm)]
        } else {
            Seq::empty()
        })
    }
}

fn find_saturation(fpm: &PhpWorkerMetrics) -> (f: Finding)
    ensures
        f@ == saturation_finding(fpm@),
{
    let mut f = Finding::new(
        "MD-FPM-001",
        SATURATION_TITLE,
        if is_positive(fpm.listen_queue) || is_positive(fpm.max_children_reached) {
            Severity::Critical
        } else {
            Severity::Warning
        },
        Confidence::High,
        Category::Php,
    );
    f.summarise(
        "PHP-FPM pool '".to_owned().concat(str_or(&fpm.pool_name, "unknown")).concat(
            "' is ",
        ).concat(percent_text_or(fpm.saturation_pct, "unknown").as_str()).concat(
            " saturated (",
        ).concat(num_or(fpm.active_workers, "?").as_str()).concat(" of ").concat(
            num_or(fpm.max_children, "?").as_str(),
        ).concat(" workers active, listen queue ").concat(
            num_or(fpm.listen_queue, "?").as_str(),
        ).concat(")."),
    );
    f.add_evidence("Metric source: ".to_owned().concat(fpm.source.describe().as_str()));
    f.add_labelled("Read from: ", &fpm.origin);
    f.add_labelled("Process manager: ", &fpm.process_manager);
    if let Some(reached) = fpm.max_children_reached {
        f.add_evidence(
            "max children reached (cumulative): ".to_owned().concat(num(reached).as_str()),
        );
    }
    if let Some(slow) = fpm.slow_requests {
        f.add_evidence("slow requests: ".to_owned().concat(num(slow).as_str()));
    }
    f.advise(SATURATION_IMPACT, SATURATION_FIX);
    f
}

fn find_pool_memory(fpm: &PhpWorkerMetrics) -> (f: Finding)
    ensures
        f@ == pool_memory_finding(fpm@),
{
    let pool = fixed_text_or(fpm.total_pool_memory_mb, 0, "0");
    let mut f = Finding::new(
        "MD-FPM-002",
        POOL_MEMORY_TITLE,
        Severity::Critical,
        Confidence::High,
        Category::Php,
    );
    f.summarise(
        "Pool '".to_owned().concat(str_or(&fpm.pool_name, "unknown")).concat(
            "' max_children (",
        ).concat(num_or(fpm.max_children, "?").as_str()).concat(") can consume up to ").concat(
            pool.as_str(),
        ).concat(" MB against ").concat(
            fixed_text_or(fpm.host_total_memory_mb, 0, "0").as_str(),
        ).concat(" MB of host RAM."),
    );
    f.add_evidence("Metric source: ".to_owned().concat(fpm.source.describe().as_str()));
    f.add_labelled("Read from: ", &fpm.origin);
    f.add_evidence(
        "Worker footprint: ".to_owned().concat(
            fixed_text_or(fpm.worker_memory_mb, 0, "0").as_str(),
        ).concat(" MB (").concat(
            if fpm.worker_memory_measured {
                FOOTPRINT_MEASURED
            } else {
                FOOTPRINT_ESTIMATED
            },
        ).concat(")"),
    );
    f.add_evidence("Potential pool memory: ".to_owned().concat(pool.as_str()).concat(" MB"));
    f.advise(POOL_MEMORY_IMPACT, POOL_MEMORY_FIX);
    f
}

/// MD-FPM-001 and MD-FPM-002: worker saturation and pool sizing.
pub fn evaluate_php_workers(installation: &MagentoInstallation) -> (r: Vec<Finding>)
    ensures
        finding::finding_views(r@) == worker_findings(installation.runtime.php_workers@),
{
    broadcast use {finding::lemma_findings_push, finding::lemma_findings_empty};

    let fpm = &installation.runtime.php_workers;
    let mut findings: Vec<Finding> = Vec::new();
    if !fpm.is_detected {
        return findings;
    }
    if fpm.source.has_reliable_saturation() && (is_above(fpm.saturation_pct, 85) || is_positive(
        fpm.listen_queue,
    ) || is_positive(fpm.max_children_reached)) {
        findings.push(find_saturation(fpm));
    }
    let ghost first = finding::finding_views(findings@);
    if fpm.oom_risk {
        findings.push(find_pool_memory(fpm));
    }
    assert(finding::finding_views(findings@) =~= worker_findings(fpm@));
    findings
}

/// Layout handles of pages that every shopper sees.
pub open spec fn is_storefront_handle(handle: Seq<char>) -> bool {
    handle == "default"@ || text::has_prefix(handle, "catalog_"@) || text::has_prefix(handle, "cms_"@) || handle
        == "catalogsearch_result_index"@
}

/// Whether two declarations are of the same block: one in a module, say, and its override in
/// a theme.
pub open spec fn same_puncture(a: UncacheableBlockView, b: UncacheableBlockView) -> bool {
    a.layout_handle == b.layout_handle && a.block_name == b.block_name
}

pub open spec fn source_line(b: UncacheableBlockView) -> Seq<char> {
    b.source_file + ":"@ + number::dec(b.line as nat)
}

pub open spec fn puncture_finding(b: UncacheableBlockView) -> FindingView {
    let told = FindingView::heading(
        "MD-FPC-001"@,
        PUNCTURE_TITLE@,
        Severity::Critical,
        Confidence::High,
        Category::Cache,
    ).with_summary(
        "Block '"@ + b.block_name + "' in layout handle '"@ + b.layout_handle + PUNCTURE_NOTE@,
    ).with_evidence("Module: "@ + b.module).with_evidence(
        "Layout handle: "@ + b.layout_handle,
    ).with_evidence("Block name: "@ + b.block_name).with_labelled(
        "Class: "@,
        b.class_name,
    ).with_evidence("Source: "@ + source_line(b));
    (FindingView {
        related_modules: told.related_modules.push(b.module),
        related_files: told.related_files.push(source_line(b)),
        ..told
    }).with_advice(PUNCTURE_IMPACT@, PUNCTURE_FIX@)
}

/// The findings on a list of blocks: one for each storefront block that is not a further
/// declaration of an earlier one.
pub open spec fn puncture_findings(blocks: Seq<UncacheableBlockView>) -> Seq<FindingView>
    decreases blocks.len(),
{
    if blocks.len() == 0 {
        Seq::empty()
    } else {
        let before = puncture_findings(blocks.drop_last());
        let b = blocks.last();
        if is_storefront_handle(b.layout_handle) && (forall|k: int|
            0 <= k < blocks.len() - 1 ==> !same_puncture(#[trigger] blocks[k], b)) {
            before.push(puncture_finding(b))
        } else {
            before
        }
    }
}

pub fn source_line_text(b: &UncacheableBlock) -> (r: String)
    ensures
        r@ == source_line(b@),
{
    b.source_file.clone().concat(":").concat(num(b.line).as_str())
}

fn find_puncture(b: &UncacheableBlock) -> (f: Finding)
    ensures
        f@ == puncture_finding(b@),
{
    broadcast use text::lemma_texts_push;

    let mut f = Finding::new(
        "MD-FPC-001",
        PUNCTURE_TITLE,
        Severity::Critical,
        Confidence::High,
        Category::Cache,
    );
    f.summarise(
        "Block '".to_owned().concat(b.block_name.as_str()).concat("' in layout handle '").concat(
            b.layout_handle.as_str(),
        ).concat(PUNCTURE_NOTE),
    );
    f.add_evidence("Module: ".to_owned().concat(b.module.as_str()));
    f.add_evidence("Layout handle: ".to_owned().concat(b.layout_handle.as_str()));
    f.add_evidence("Block name: ".to_owned().concat(b.block_name.as_str()));
    f.add_labelled("Class: ", &b.class_name);
    f.add_evidence("Source: ".to_owned().concat(source_line_text(b).as_str()));
    f.related_modules.push(b.module.clone());
    f.related_files.push(source_line_text(b));
    f.advise(PUNCTURE_IMPACT, PUNCTURE_FIX);
    f
}

/// Whether an earlier block is another declaration of the block at `i`.
fn seen_before(blocks: &Vec<UncacheableBlock>, i: usize) -> (r: bool)
    requires
        i < blocks@.len(),
    ensures
        r == exists|k: int| 0 <= k < i && same_puncture(#[trigger] blocks@[k]@, blocks@[i as int]@),
{
    let mut k: usize = 0;
    while k < i
        invariant
            k <= i < blocks@.len(),
            forall|j: int|
                0 <= j < k ==> !same_puncture(#[trigger] blocks@[j]@, blocks@[i as int]@),
        decreases i - k,
    {
        if same(&blocks[k].layout_handle, &blocks[i].layout_handle) && same(
            &blocks[k].block_name,
            &blocks[i].block_name,
        ) {
            assert(same_puncture(blocks@[k as int]@, blocks@[i as int]@));
            return true;
        }
        k += 1;
    }
    false
}

/// MD-FPC-001: storefront layout punctures.
pub fn evaluate_fpc_punctures(installation: &MagentoInstallation) -> (r: Vec<Finding>)
    ensures
        finding::finding_views(r@) == puncture_findings(installation.runtime.fpc@.uncacheable_blocks),
{
    broadcast use {finding::lemma_findings_push, finding::lemma_findings_empty};

    let blocks = &installation.runtime.fpc.uncacheable_blocks;
    let ghost all = installation.runtime.fpc@.uncacheable_blocks;
    let mut findings: Vec<Finding> = Vec::new();
    let mut i: usize = 0;
    while i < blocks.len()
        invariant
            i <= blocks@.len(),
            all.len() == blocks@.len(),
            forall|k: int| 0 <= k < all.len() ==> #[trigger] all[k] == blocks@[k]@,
            finding::finding_views(findings@) == puncture_findings(all.take(i as int)),
        decreases blocks@.len() - i,
    {
        let b = &blocks[i];
        let ghost now = all.take(i + 1);
        assert(now.drop_last() =~= all.take(i as int));
        assert(now.last() == b@);
        let storefront = same(&b.layout_handle, "default") || starts_with(
            &b.layout_handle,
            "catalog_",
        ) || starts_with(&b.layout_handle, "cms_") || same(
            &b.layout_handle,
            "catalogsearch_result_index",
        );
        let repeated = seen_before(blocks, i);
        proof {
            assert(forall|k: int| 0 <= k < i ==> #[trigger] now[k] == blocks@[k]@);
            if repeated {
                let k = choose|k: int|
                    0 <= k < i && same_puncture(#[trigger] blocks@[k]@, blocks@[i as int]@);
                assert(same_puncture(now[k], b@));
            } else {
                assert forall|k: int| 0 <= k < now.len() - 1 implies !same_puncture(
                    #[trigger] now[k],
                    b@,
                ) by {
                    assert(now[k] == blocks@[k]@);
                }
            }
        }
        if storefront && !repeated {
            findings.push(find_puncture(b));
        }
        i += 1;
    }
    assert(all.take(i as int) =~= all);
    findings
}

pub open spec fn small_or_zero(n: Option<u32>) -> u32 {
    match n {
        Some(v) => v,
        None => 0,
    }
}

pub fn small_count(n: Option<u32>) -> (r: u32)
    ensures
        r == small_or_zero(n),
{
    match n {
        Some(v) => v,
        None => 0,
    }
}

/// Whether a cluster has one node at most; it is yellow by design, since replica shards have
/// nowhere to go.
pub open spec fn is_single_node(os: OpenSearchStatusView) -> bool {
    small_or_zero(os.number_of_nodes) <= 1
}

pub open spec fn is_degraded(os: OpenSearchStatusView, status: Seq<char>) -> bool {
    ||| status == "red"@
    ||| (!is_single_node(os) && (status == "yellow"@ || small_or_zero(os.unassigned_shards) > 0))
}

pub open spec fn degraded_finding(os: OpenSearchStatusView, status: Seq<char>) -> FindingView {
    let nodes = number::dec(small_or_zero(os.number_of_nodes) as nat);
    let unassigned = number::dec(small_or_zero(os.unassigned_shards) as nat);
    FindingView::heading(
        "MD-SRC-001"@,
        DEGRADED_TITLE@,
        if status == "red"@ {
            Severity::Critical
        } else {
            Severity::Warning
        },
        Confidence::High,
        Category::Search,
    ).with_summary(
        "OpenSearch cluster '"@ + text::text_or(os.cluster_name, "unknown"@) + "' status is '"@ + status
            + "' with "@ + unassigned + " unassigned shards across "@ + nodes + " node(s)."@,
    ).with_evidence("Nodes: "@ + nodes).with_evidence(
        "Active primary shards: "@ + number::dec(small_or_zero(os.active_primary_shards) as nat),
    ).with_evidence("Unassigned shards: "@ + unassigned).with_advice(
        DEGRADED_IMPACT@,
        DEGRADED_FIX@,
    )
}

pub open spec fn single_node_finding(os: OpenSearchStatusView) -> FindingView {
    FindingView::heading(
        "MD-SRC-002"@,
        SINGLE_NODE_TITLE@,
        Severity::Info,
        Confidence::High,
        Category::Search,
    ).with_summary(
        "Cluster '"@ + text::text_or(os.cluster_name, "unknown"@) + SINGLE_NODE_NOTE@,
    ).with_evidence("Nodes: "@ + number::dec(small_or_zero(os.number_of_nodes) as nat)).with_evidence(
        "Unassigned (replica) shards: "@ + number::dec(small_or_zero(os.unassigned_shards) as nat),
    ).with_advice(SINGLE_NODE_IMPACT@, SINGLE_NODE_FIX@)
}

pub open spec fn no_index_finding(os: OpenSearchStatusView) -> FindingView {
    FindingView::heading(
        "MD-SRC-003"@,
        NO_INDEX_TITLE@,
        Severity::Critical,
        Confidence::High,
        Category::Search,
    ).with_summary(NO_INDEX_SUMMARY@).with_evidence(
        "Cluster: "@ + text::text_or(os.cluster_name, "unknown"@),
    ).with_advice(NO_INDEX_IMPACT@, NO_INDEX_FIX@).with_command(NO_INDEX_COMMAND@)
}

/// Whether the listing of indices was read and shows no catalog index.
pub open spec fn lacks_catalog_index(os: OpenSearchStatusView) -> bool {
    os.catalog_index_probe is Succeeded && !os.has_catalog_index
}

/// The findings on the search cluster: none without a reading of its status.
pub open spec fn search_findings(os: OpenSearchStatusView) -> Seq<FindingView> {
    match os.status {
        Some(status) if os.is_reachable => (if is_degraded(os, status) {
            seq![degraded_finding(os, status)]
        } else if status == "yellow"@ {
            seq![single_node_finding(os)]
        } else {
            Seq::empty()
        }) + (if lacks_catalog_index(os) {
            seq![no_index_finding(os)]
        } else {
            Seq::empty()
        }),
        _ => Seq::empty(),
    }
}

fn find_degraded(os: &OpenSearchStatus, status: &str) -> (f: Finding)
    ensures
        f@ == degraded_finding(os@, status@),
{
    let nodes = num(small_count(os.number_of_nodes) as u64);
    let unassigned = num(small_count(os.unassigned_shards) as u64);
    let mut f = Finding::new(
        "MD-SRC-001",
        DEGRADED_TITLE,
        if same(status, "red") {
            Severity::Critical
        } else {
            Severity::Warning
        },
        Confidence::High,
        Category::Search,
    );
    f.summarise(
        "OpenSearch cluster '".to_owned().concat(str_or(&os.cluster_name, "unknown")).concat(
            "' status is '",
        ).concat(status).concat("' with ").concat(unassigned.as_str()).concat(
            " unassigned shards across ",
        ).concat(nodes.as_str()).concat(" node(s)."),
    );
    f.add_evidence("Nodes: ".to_owned().concat(nodes.as_str()));
    f.add_evidence(
        "Active primary shards: ".to_owned().concat(
            num(small_count(os.active_primary_shards) as u64).as_str(),
        ),
    );
    f.add_evidence("Unassigned shards: ".to_owned().concat(unassigned.as_str()));
    f.advise(DEGRADED_IMPACT, DEGRADED_FIX);
    f
}

fn find_single_node(os: &OpenSearchStatus) -> (f: Finding)
    ensures
        f@ == single_node_finding(os@),
{
    let mut f = Finding::new(
        "MD-SRC-002",
        SINGLE_NODE_TITLE,
        Severity::Info,
        Confidence::High,
        Category::Search,
    );
    f.summarise(
        "Cluster '".to_owned().concat(str_or(&os.cluster_name, "unknown")).concat(SINGLE_NODE_NOTE),
    );
    f.add_evidence(
        "Nodes: ".to_owned().concat(num(small_count(os.number_of_nodes) as u64).as_str()),
    );
    f.add_evidence(
        "Unassigned (replica) shards: ".to_owned().concat(
            num(small_count(os.unassigned_shards) as u64).as_str(),
        ),
    );
    f.advise(SINGLE_NODE_IMPACT, SINGLE_NODE_FIX);
    f
}

fn find_no_index(os: &OpenSearchStatus) -> (f: Finding)
    ensures
        f@ == no_index_finding(os@),
{
    let mut f = Finding::new(
        "MD-SRC-003",
        NO_INDEX_TITLE,
        Severity::Critical,
        Confidence::High,
        Category::Search,
    );
    f.summarise(NO_INDEX_SUMMARY.to_owned());
    f.add_evidence("Cluster: ".to_owned().concat(str_or(&os.cluster_name, "unknown")));
    f.advise(NO_INDEX_IMPACT, NO_INDEX_FIX);
    f.add_command(NO_INDEX_COMMAND);
    f
}

/// MD-SRC-001, MD-SRC-002 and MD-SRC-003: cluster health and catalog index presence.
pub fn evaluate_opensearch(installation: &MagentoInstallation) -> (r: Vec<Finding>)
    ensures
        finding::finding_views(r@) == search_findings(installation.runtime.opensearch@),
{
    broadcast use {finding::lemma_findings_push, finding::lemma_findings_empty};

    let os = &installation.runtime.opensearch;
    let mut findings: Vec<Finding> = Vec::new();
    if !os.is_reachable {
        return findings;
    }
    let status = match &os.status {
        Some(s) => s,
        None => {
            return findings;
        },
    };
    let single_node = small_count(os.number_of_nodes) <= 1;
    let unassigned: u32 = small_count(os.unassigned_shards);
    let yellow = same(status, "yellow");
    let degraded = same(status, "red") || (yellow && !single_node) || (unassigned > 0
        && !single_node);
    if degraded {
        findings.push(find_degraded(os, status));
    } else if yellow && single_node {
        findings.push(find_single_node(os));
    }
    if os.catalog_index_probe.is_success() && !os.has_catalog_index {
        findings.push(find_no_index(os));
    }
    assert(finding::finding_views(findings@) =~= search_findings(os@));
    findings
}

/// All findings of the runtime rules on a store, in the order of the rules.
pub open spec fn forensics_findings(installation: MagentoInstallation) -> Seq<FindingView> {
    let db = installation.database_metrics@;
    let runtime = installation.runtime;
    slow_digest_findings(db.query_digests, installation) + lock_wait_findings(db.active_lock_waits)
        + session_findings(
        runtime.redis_session@,
        runtime.redis_default@,
        installation.env_config@.redis_session_host,
    ) + cache_findings(runtime.redis_default@) + worker_findings(runtime.php_workers@)
        + puncture_findings(runtime.fpc@.uncacheable_blocks) + search_findings(runtime.opensearch@)
}

/// Evaluates all runtime forensics rules across MySQL, Redis, PHP-FPM, FPC, and OpenSearch.
pub fn evaluate_forensics_rules(installation: &MagentoInstallation) -> (r: Vec<Finding>)
    ensures
        finding::finding_views(r@) == forensics_findings(*installation),
{
    broadcast use finding::lemma_findings_add;

    let mut findings = evaluate_slow_digests(installation);
    let mut locks = evaluate_lock_waits(installation);
    findings.append(&mut locks);
    let mut session = evaluate_session_redis(installation);
    findings.append(&mut session);
    let mut cache = evaluate_cache_redis(installation);
    findings.append(&mut cache);
    let mut workers = evaluate_php_workers(installation);
    findings.append(&mut workers);
    let mut punctures = evaluate_fpc_punctures(installation);
    findings.append(&mut punctures);
    let mut search = evaluate_opensearch(installation);
    findings.append(&mut search);
    findings
}

/// Whether a rule is among the findings.
pub open spec fn raised(findings: Seq<FindingView>, rule_id: Seq<char>) -> bool {
    exists|i: int| 0 <= i < findings.len() && (#[trigger] findings[i]).rule_id == rule_id
}

proof fn lemma_raised_add(a: Seq<FindingView>, b: Seq<FindingView>, rule_id: Seq<char>)
    ensures
        raised(a + b, rule_id) == (raised(a, rule_id) || raised(b, rule_id)),
{
    if raised(a, rule_id) {
        let i = choose|i: int| 0 <= i < a.len() && (#[trigger] a[i]).rule_id == rule_id;
        assert((a + b)[i].rule_id == rule_id);
    }
    if raised(b, rule_id) {
        let i = choose|i: int| 0 <= i < b.len() && (#[trigger] b[i]).rule_id == rule_id;
        assert((a + b)[a.len() + i].rule_id == rule_id);
    }
    if raised(a + b, rule_id) {
        let i = choose|i: int| 0 <= i < (a + b).len() && (#[trigger] (a + b)[i]).rule_id == rule_id;
        if i < a.len() {
            assert(a[i].rule_id == rule_id);
        } else {
            assert(b[i - a.len()].rule_id == rule_id);
        }
    }
}

/// Two rule identifiers that differ in their area or in their last digit.
spec fn differs(a: Seq<char>, b: Seq<char>) -> bool {
    a.len() == 10 && b.len() == 10 && (a[3] != b[3] || a[4] != b[4] || a[5] != b[5] || a[9] != b[9])
}

proof fn lemma_rule_ids()
    ensures
        forall|a: Seq<char>, b: Seq<char>| #[trigger] differs(a, b) ==> a != b,
        "MD-SQL-001"@.len() == 10 && "MD-SQL-001"@[3] == 'S' && "MD-SQL-001"@[4] == 'Q'
            && "MD-SQL-001"@[9] == '1',
        "MD-SQL-002"@.len() == 10 && "MD-SQL-002"@[3] == 'S' && "MD-SQL-002"@[4] == 'Q'
            && "MD-SQL-002"@[9] == '2',
        "MD-SQL-003"@.len() == 10 && "MD-SQL-003"@[3] == 'S' && "MD-SQL-003"@[4] == 'Q'
            && "MD-SQL-003"@[9] == '3',
        "MD-RDS-001"@.len() == 10 && "MD-RDS-001"@[3] == 'R' && "MD-RDS-001"@[9] == '1',
        "MD-RDS-002"@.len() == 10 && "MD-RDS-002"@[3] == 'R' && "MD-RDS-002"@[9] == '2',
        "MD-RDS-003"@.len() == 10 && "MD-RDS-003"@[3] == 'R' && "MD-RDS-003"@[9] == '3',
        "MD-FPM-001"@.len() == 10 && "MD-FPM-001"@[3] == 'F' && "MD-FPM-001"@[5] == 'M'
            && "MD-FPM-001"@[9] == '1',
        "MD-FPM-002"@.len() == 10 && "MD-FPM-002"@[3] == 'F' && "MD-FPM-002"@[5] == 'M'
            && "MD-FPM-002"@[9] == '2',
        "MD-FPC-001"@.len() == 10 && "MD-FPC-001"@[3] == 'F' && "MD-FPC-001"@[5] == 'C'
            && "MD-FPC-001"@[9] == '1',
        "MD-SRC-001"@.len() == 10 && "MD-SRC-001"@[3] == 'S' && "MD-SRC-001"@[4] == 'R'
            && "MD-SRC-001"@[9] == '1',
        "MD-SRC-002"@.len() == 10 && "MD-SRC-002"@[3] == 'S' && "MD-SRC-002"@[4] == 'R'
            && "MD-SRC-002"@[9] == '2',
        "MD-SRC-003"@.len() == 10 && "MD-SRC-003"@[3] == 'S' && "MD-SRC-003"@[4] == 'R'
            && "MD-SRC-003"@[9] == '3',
{
    reveal_strlit("MD-SQL-001");
    reveal_strlit("MD-SQL-002");
    reveal_strlit("MD-SQL-003");
    reveal_strlit("MD-RDS-001");
    reveal_strlit("MD-RDS-002");
    reveal_strlit("MD-RDS-003");
    reveal_strlit("MD-FPM-001");
    reveal_strlit("MD-FPM-002");
    reveal_strlit("MD-FPC-001");
    reveal_strlit("MD-SRC-001");
    reveal_strlit("MD-SRC-002");
    reveal_strlit("MD-SRC-003");
}

/// Which rules the list on digests can raise.
proof fn lemma_slow_digest_ids(digests: Seq<QueryDigestView>, installation: MagentoInstallation)
    ensures
        forall|i: int|
            0 <= i < slow_digest_findings(digests, installation).len() ==> (
            #[trigger] slow_digest_findings(digests, installation)[i]).rule_id == "MD-SQL-001"@,
        raised(slow_digest_findings(digests, installation), "MD-SQL-001"@) <==> exists|i: int|
            0 <= i < digests.len() && (is_slow(#[trigger] digests[i]) || scans_heavily(digests[i])),
    decreases digests.len(),
{
    let all = slow_digest_findings(digests, installation);
    if digests.len() > 0 {
        lemma_slow_digest_ids(digests.drop_last(), installation);
        let before = slow_digest_findings(digests.drop_last(), installation);
        let d = digests.last();
        assert(d == digests[digests.len() - 1]);
        if is_slow(d) || scans_heavily(d) {
            assert(all[all.len() - 1].rule_id == "MD-SQL-001"@);
        } else {
            if exists|i: int|
                0 <= i < digests.len() && (is_slow(#[trigger] digests[i]) || scans_heavily(
                    digests[i],
                )) {
                let i = choose|i: int|
                    0 <= i < digests.len() && (is_slow(#[trigger] digests[i]) || scans_heavily(
                        digests[i],
                    ));
                assert(digests.drop_last()[i] == digests[i]);
            }
            if exists|i: int|
                0 <= i < digests.drop_last().len() && (is_slow(#[trigger] digests.drop_last()[i])
                    || scans_heavily(digests.drop_last()[i])) {
                let i = choose|i: int|
                    0 <= i < digests.drop_last().len() && (is_slow(
                        #[trigger] digests.drop_last()[i],
                    ) || scans_heavily(digests.drop_last()[i]));
                assert(digests.drop_last()[i] == digests[i]);
            }
        }
    }
}

/// Which rules the list on waits can raise, and when.
proof fn lemma_lock_wait_ids(locks: Seq<ActiveLockWaitView>)
    ensures
        forall|i: int|
            0 <= i < lock_wait_findings(locks).len() ==> (#[trigger] lock_wait_findings(
                locks,
            )[i]).rule_id == "MD-SQL-002"@ || lock_wait_findings(locks)[i].rule_id
                == "MD-SQL-003"@,
        raised(lock_wait_findings(locks), "MD-SQL-002"@) <==> exists|i: int|
            0 <= i < locks.len() && (#[trigger] locks[i]).wait_time_secs > 5
                && locks[i].is_confirmed_lock_wait,
    decreases locks.len(),
{
    lemma_rule_ids();
    assert(differs("MD-SQL-002"@, "MD-SQL-003"@));
    let all = lock_wait_findings(locks);
    if locks.len() > 0 {
        let rest = locks.drop_last();
        lemma_lock_wait_ids(rest);
        let before = lock_wait_findings(rest);
        let lock = locks.last();
        assert(lock == locks[locks.len() - 1]);
        assert(forall|i: int| 0 <= i < rest.len() ==> #[trigger] rest[i] == locks[i]);
        if lock.wait_time_secs > 5 {
            lemma_raised_add(before, seq![lock_wait_finding(lock)], "MD-SQL-002"@);
            assert(before + seq![lock_wait_finding(lock)] =~= all);
            let one = seq![lock_wait_finding(lock)];
            assert(raised(one, "MD-SQL-002"@) == lock.is_confirmed_lock_wait) by {
                if lock.is_confirmed_lock_wait {
                    assert(one[0].rule_id == "MD-SQL-002"@);
                }
            }
        }
        if exists|i: int|
            0 <= i < rest.len() && (#[trigger] rest[i]).wait_time_secs > 5
                && rest[i].is_confirmed_lock_wait {
            let i = choose|i: int|
                0 <= i < rest.len() && (#[trigger] rest[i]).wait_time_secs > 5
                    && rest[i].is_confirmed_lock_wait;
            assert(locks[i].wait_time_secs > 5 && locks[i].is_confirmed_lock_wait);
        }
        if exists|i: int|
            0 <= i < locks.len() && (#[trigger] locks[i]).wait_time_secs > 5
                && locks[i].is_confirmed_lock_wait {
            let i = choose|i: int|
                0 <= i < locks.len() && (#[trigger] locks[i]).wait_time_secs > 5
                    && locks[i].is_confirmed_lock_wait;
            if i < rest.len() {
                assert(rest[i].wait_time_secs > 5 && rest[i].is_confirmed_lock_wait);
            }
        }
    }
}

/// Which rule the list on layout blocks can raise.
proof fn lemma_puncture_ids(blocks: Seq<UncacheableBlockView>)
    ensures
        forall|i: int|
            0 <= i < puncture_findings(blocks).len() ==> (#[trigger] puncture_findings(
                blocks,
            )[i]).rule_id == "MD-FPC-001"@,
    decreases blocks.len(),
{
    if blocks.len() > 0 {
        lemma_puncture_ids(blocks.drop_last());
    }
}

/// A rule is raised on a store exactly when one of the lists raises it.
proof fn lemma_raised_by_list(installation: MagentoInstallation, id: Seq<char>)
    ensures
        ({
            let db = installation.database_metrics@;
            let runtime = installation.runtime;
            raised(forensics_findings(installation), id) == (raised(
                slow_digest_findings(db.query_digests, installation),
                id,
            ) || raised(lock_wait_findings(db.active_lock_waits), id) || raised(
                session_findings(
                    runtime.redis_session@,
                    runtime.redis_default@,
                    installation.env_config@.redis_session_host,
                ),
                id,
            ) || raised(cache_findings(runtime.redis_default@), id) || raised(
                worker_findings(runtime.php_workers@),
                id,
            ) || raised(puncture_findings(runtime.fpc@.uncacheable_blocks), id) || raised(
                search_findings(runtime.opensearch@),
                id,
            ))
        }),
{
    let db = installation.database_metrics@;
    let runtime = installation.runtime;
    let a = slow_digest_findings(db.query_digests, installation);
    let b = lock_wait_findings(db.active_lock_waits);
    let c = session_findings(
        runtime.redis_session@,
        runtime.redis_default@,
        installation.env_config@.redis_session_host,
    );
    let d = cache_findings(runtime.redis_default@);
    let e = worker_findings(runtime.php_workers@);
    let f = puncture_findings(runtime.fpc@.uncacheable_blocks);
    let g = search_findings(runtime.opensearch@);
    lemma_raised_add(a, b, id);
    lemma_raised_add(a + b, c, id);
    lemma_raised_add(a + b + c, d, id);
    lemma_raised_add(a + b + c + d, e, id);
    lemma_raised_add(a + b + c + d + e, f, id);
    lemma_raised_add(a + b + c + d + e + f, g, id);
}

proof fn lemma_area_ids(installation: MagentoInstallation)
    ensures
        ({
            let db = installation.database_metrics@;
            let runtime = installation.runtime;
            let digests = slow_digest_findings(db.query_digests, installation);
            let locks = lock_wait_findings(db.active_lock_waits);
            let punctures = puncture_findings(runtime.fpc@.uncacheable_blocks);
            &&& forall|i: int|
                0 <= i < digests.len() ==> (#[trigger] digests[i]).rule_id == "MD-SQL-001"@
            &&& forall|i: int|
                0 <= i < locks.len() ==> (#[trigger] locks[i]).rule_id == "MD-SQL-002"@
                    || locks[i].rule_id == "MD-SQL-003"@
            &&& forall|i: int|
                0 <= i < punctures.len() ==> (#[trigger] punctures[i]).rule_id == "MD-FPC-001"@
        }),
{
    lemma_slow_digest_ids(installation.database_metrics@.query_digests, installation);
    lemma_lock_wait_ids(installation.database_metrics@.active_lock_waits);
    lemma_puncture_ids(installation.runtime.fpc@.uncacheable_blocks);
}

/// The session rule is raised exactly for a reachable session instance whose policy was read
/// and either ignores TTLs or saw evictions on an instance of its own: `volatile-*` and
/// `noeviction` without such evictions are never flagged, nor is an unreachable instance.
pub proof fn law_session_rule(installation: MagentoInstallation)
    ensures
        ({
            let session = installation.runtime.redis_session@;
            let cache = installation.runtime.redis_default@;
            raised(forensics_findings(installation), "MD-RDS-001"@) <==> {
                &&& session.is_reachable
                &&& session.maxmemory_policy is Some
                &&& sessions_at_risk(session, cache, session.maxmemory_policy->0)
            }
        }),
{
    lemma_rule_ids();
    lemma_area_ids(installation);
    let id = "MD-RDS-001"@;
    lemma_raised_by_list(installation, id);
    assert(differs(id, "MD-SQL-001"@) && differs(id, "MD-SQL-002"@) && differs(id, "MD-SQL-003"@)
        && differs(id, "MD-RDS-002"@) && differs(id, "MD-RDS-003"@) && differs(id, "MD-FPM-001"@)
        && differs(id, "MD-FPM-002"@) && differs(id, "MD-FPC-001"@) && differs(id, "MD-SRC-001"@)
        && differs(id, "MD-SRC-002"@) && differs(id, "MD-SRC-003"@));
    let list = session_findings(
        installation.runtime.redis_session@,
        installation.runtime.redis_default@,
        installation.env_config@.redis_session_host,
    );
    if list.len() > 0 {
        assert(list[0].rule_id == id);
    }
}

/// Worker saturation is raised exactly for a detected pool whose scoreboard shows pressure:
/// never from a `/proc` scan or from a pool config alone.
pub proof fn law_saturation_rule(installation: MagentoInstallation)
    ensures
        raised(forensics_findings(installation), "MD-FPM-001"@) <==> {
            let fpm = installation.runtime.php_workers@;
            fpm.is_detected && is_saturated(fpm)
        },
        installation.runtime.php_workers@.source != WorkerMetricSource::FpmStatus ==> !raised(
            forensics_findings(installation),
            "MD-FPM-001"@,
        ),
{
    lemma_rule_ids();
    lemma_area_ids(installation);
    let id = "MD-FPM-001"@;
    lemma_raised_by_list(installation, id);
    assert(differs(id, "MD-SQL-001"@) && differs(id, "MD-SQL-002"@) && differs(id, "MD-SQL-003"@)
        && differs(id, "MD-RDS-001"@) && differs(id, "MD-RDS-002"@) && differs(id, "MD-RDS-003"@)
        && differs(id, "MD-FPM-002"@) && differs(id, "MD-FPC-001"@) && differs(id, "MD-SRC-001"@)
        && differs(id, "MD-SRC-002"@) && differs(id, "MD-SRC-003"@));
    let fpm = installation.runtime.php_workers@;
    if fpm.is_detected && is_saturated(fpm) {
        assert(worker_findings(fpm)[0].rule_id == id);
    }
}

/// A missing catalog index is raised exactly for a reachable cluster whose status was read
/// and whose listing of indices was read and shows none: a listing that could not be read
/// never counts as a missing index.
pub proof fn law_missing_index_rule(installation: MagentoInstallation)
    ensures
        raised(forensics_findings(installation), "MD-SRC-003"@) <==> {
            let os = installation.runtime.opensearch@;
            os.is_reachable && os.status is Some && os.catalog_index_probe is Succeeded
                && !os.has_catalog_index
        },
{
    lemma_rule_ids();
    lemma_area_ids(installation);
    let id = "MD-SRC-003"@;
    lemma_raised_by_list(installation, id);
    assert(differs(id, "MD-SQL-001"@) && differs(id, "MD-SQL-002"@) && differs(id, "MD-SQL-003"@)
        && differs(id, "MD-RDS-001"@) && differs(id, "MD-RDS-002"@) && differs(id, "MD-RDS-003"@)
        && differs(id, "MD-FPM-001"@) && differs(id, "MD-FPM-002"@) && differs(id, "MD-FPC-001"@)
        && differs(id, "MD-SRC-001"@) && differs(id, "MD-SRC-002"@));
    let os = installation.runtime.opensearch@;
    let list = search_findings(os);
    if os.is_reachable && os.status is Some && lacks_catalog_index(os) {
        assert(list[list.len() - 1].rule_id == id);
    }
}

/// A degraded cluster is raised exactly for a reachable cluster that is red, or that has
/// more than one node and is yellow or leaves shards unassigned: a single yellow node never
/// is.
pub proof fn law_degraded_cluster_rule(installation: MagentoInstallation)
    ensures
        raised(forensics_findings(installation), "MD-SRC-001"@) <==> {
            let os = installation.runtime.opensearch@;
            os.is_reachable && os.status is Some && is_degraded(os, os.status->0)
        },
{
    lemma_rule_ids();
    lemma_area_ids(installation);
    let id = "MD-SRC-001"@;
    lemma_raised_by_list(installation, id);
    assert(differs(id, "MD-SQL-001"@) && differs(id, "MD-SQL-002"@) && differs(id, "MD-SQL-003"@)
        && differs(id, "MD-RDS-001"@) && differs(id, "MD-RDS-002"@) && differs(id, "MD-RDS-003"@)
        && differs(id, "MD-FPM-001"@) && differs(id, "MD-FPM-002"@) && differs(id, "MD-FPC-001"@)
        && differs(id, "MD-SRC-002"@) && differs(id, "MD-SRC-003"@));
    let os = installation.runtime.opensearch@;
    let list = search_findings(os);
    if os.is_reachable && os.status is Some && is_degraded(os, os.status->0) {
        assert(list[0].rule_id == id);
    }
}

/// A lock wait is raised exactly when a confirmed one has lasted more than five seconds; a
/// statement that merely runs long never is a lock wait, nor critical.
pub proof fn law_lock_wait_rule(installation: MagentoInstallation)
    ensures
        raised(forensics_findings(installation), "MD-SQL-002"@) <==> {
            let locks = installation.database_metrics@.active_lock_waits;
            exists|i: int|
                0 <= i < locks.len() && (#[trigger] locks[i]).wait_time_secs > 5
                    && locks[i].is_confirmed_lock_wait
        },
        forall|lock: ActiveLockWaitView|
            (#[trigger] lock_wait_finding(lock)).severity == Severity::Critical
                <==> lock.is_confirmed_lock_wait,
{
    lemma_rule_ids();
    lemma_area_ids(installation);
    let id = "MD-SQL-002"@;
    lemma_raised_by_list(installation, id);
    lemma_lock_wait_ids(installation.database_metrics@.active_lock_waits);
    assert(differs(id, "MD-SQL-001"@) && differs(id, "MD-RDS-001"@) && differs(id, "MD-RDS-002"@)
        && differs(id, "MD-RDS-003"@) && differs(id, "MD-FPM-001"@) && differs(id, "MD-FPM-002"@)
        && differs(id, "MD-FPC-001"@) && differs(id, "MD-SRC-001"@) && differs(id, "MD-SRC-002"@)
        && differs(id, "MD-SRC-003"@));
}

/// A further declaration of a block that was listed before, such as a theme's override of a
/// module's layout, adds no finding.
pub proof fn law_punctures_are_deduplicated(
    blocks: Seq<UncacheableBlockView>,
    again: UncacheableBlockView,
    k: int,
)
    requires
        0 <= k < blocks.len(),
        same_puncture(blocks[k], again),
    ensures
        puncture_findings(blocks.push(again)) == puncture_findings(blocks),
{
    let all = blocks.push(again);
    assert(all.drop_last() =~= blocks);
    assert(same_puncture(all[k], again));
}

/// Nothing is found in a store of which only the root is known.
pub proof fn law_clean_store_has_no_findings(installation: MagentoInstallation)
    requires
        installation.is_clean(),
    ensures
        forensics_findings(installation).len() == 0,
{
}

/// The command that verifies a slow digest is the same for all of them: a digest, whose
/// placeholders are not runnable SQL, is never pasted into it.
pub proof fn law_digests_are_not_pasted_into_commands(
    d: QueryDigestView,
    installation: MagentoInstallation,
)
    ensures
        slow_digest_finding(d, installation).verification_commands == seq![EXPLAIN_HINT@],
{
    assert(slow_digest_finding(d, installation).verification_commands =~= seq![EXPLAIN_HINT@]);
}

/// MD-SQL-001 is raised exactly when a digest takes more than a second on average, or examines
/// more than fifty thousand rows.
pub proof fn law_slow_digest_rule(installation: MagentoInstallation)
    ensures
        raised(forensics_findings(installation), "MD-SQL-001"@) <==> exists|i: int|
            0 <= i < installation.database_metrics.query_digests@.len() && ({
                let d = #[trigger] installation.database_metrics.query_digests@[i];
                d.avg_time_ps > 1_000_000_000_000 || d.avg_rows_examined > 50_000
            }),
{
    let exec = installation.database_metrics.query_digests@;
    let all = installation.database_metrics@.query_digests;
    assert(all.len() == exec.len());
    assert(forall|i: int| 0 <= i < all.len() ==> #[trigger] all[i] == exec[i]@);
    lemma_rule_ids();
    lemma_area_ids(installation);
    let id = "MD-SQL-001"@;
    lemma_raised_by_list(installation, id);
    assert(differs(id, "MD-SQL-002"@) && differs(id, "MD-SQL-003"@) && differs(id, "MD-RDS-001"@) && differs(id, "MD-RDS-002"@) && differs(id, "MD-RDS-003"@) && differs(id, "MD-FPM-001"@) && differs(id, "MD-FPM-002"@) && differs(id, "MD-FPC-001"@) && differs(id, "MD-SRC-001"@) && differs(id, "MD-SRC-002"@) && differs(id, "MD-SRC-003"@));
    lemma_slow_digest_ids(all, installation);
    if exists|i: int| 0 <= i < all.len() && (is_slow(#[trigger] all[i]) || scans_heavily(all[i])) {
        let i = choose|i: int|
            0 <= i < all.len() && (is_slow(#[trigger] all[i]) || scans_heavily(all[i]));
        assert(exec[i].avg_time_ps > 1_000_000_000_000 || exec[i].avg_rows_examined > 50_000);
    }
    if exists|i: int|
        0 <= i < exec.len() && ({
            let d = #[trigger] exec[i];
            d.avg_time_ps > 1_000_000_000_000 || d.avg_rows_examined > 50_000
        }) {
        let i = choose|i: int|
            0 <= i < exec.len() && ({
                let d = #[trigger] exec[i];
                d.avg_time_ps > 1_000_000_000_000 || d.avg_rows_examined > 50_000
            });
        assert(is_slow(all[i]) || scans_heavily(all[i]));
    }
}

/// Whether a digest is to be reported.
pub open spec fn is_reported_digest(d: QueryDigestView) -> bool {
    d.avg_time_ps > 1_000_000_000_000 || d.avg_rows_examined > 50_000
}

/// Every digest that is to be reported has its finding, in the order of the digests, and no
/// other has one.
pub proof fn law_slow_digests_are_reported_in_order(
    digests: Seq<QueryDigestView>,
    installation: MagentoInstallation,
)
    ensures
        slow_digest_findings(digests, installation) == digests.filter(
            |d: QueryDigestView| is_reported_digest(d),
        ).map_values(|d: QueryDigestView| slow_digest_finding(d, installation)),
    decreases digests.len(),
{
    let keep = |d: QueryDigestView| is_reported_digest(d);
    let told = |d: QueryDigestView| slow_digest_finding(d, installation);
    reveal(Seq::filter);
    if digests.len() > 0 {
        law_slow_digests_are_reported_in_order(digests.drop_last(), installation);
        let before = digests.drop_last().filter(keep);
        if is_reported_digest(digests.last()) {
            assert(before.push(digests.last()).map_values(told) =~= before.map_values(told).push(
                told(digests.last()),
            ));
        }
    }
    assert(slow_digest_findings(digests, installation) =~= digests.filter(keep).map_values(told));
}

/// What the finding on a digest says: critical where it takes more than a second on average,
/// and beyond doubt where it also examines more than fifty thousand rows.
pub proof fn law_slow_digest_finding(d: QueryDigestView, installation: MagentoInstallation)
    ensures
        ({
            let f = slow_digest_finding(d, installation);
            let modules = correlation::correlation_of(
                d.fingerprint,
                d.tables_involved,
                installation,
            ).candidate_modules;
            &&& f.rule_id == "MD-SQL-001"@
            &&& f.title == "High latency MySQL query digest detected"@
            &&& f.severity == if d.avg_time_ps > 1_000_000_000_000 {
                Severity::Critical
            } else {
                Severity::Warning
            }
            &&& f.confidence == if d.avg_time_ps > 1_000_000_000_000 && d.avg_rows_examined
                > 50_000 {
                Confidence::High
            } else {
                Confidence::Medium
            }
            &&& f.category == Category::Queries
            &&& f.summary == "Query digest executes with average latency "@ + number::fixed(
                d.avg_time_ps as nat,
                1_000_000_000,
                1,
            ) + "ms (max "@ + number::fixed(d.max_time_ps as nat, 1_000_000_000, 1)
                + "ms), examining avg "@ + number::dec(d.avg_rows_examined as nat) + " rows."@
            &&& f.evidence.len() >= 2
            &&& f.evidence[0] == "Query fingerprint: "@ + d.fingerprint
            &&& f.evidence[1] == "Execution count: "@ + number::dec(d.execution_count as nat)
            &&& d.tables_involved.len() > 0 ==> f.evidence.len() > 2 && f.evidence[2]
                == "Tables involved: "@ + text::joined(d.tables_involved, ", "@)
            &&& modules.len() > 0 ==> f.evidence.last() == "Candidate owning modules: "@
                + text::joined(modules, ", "@)
            &&& f.related_modules == modules
            &&& f.related_tables == d.tables_involved
            &&& f.verification_commands
                == seq!["Substitute literal values for the ? placeholders, then run: EXPLAIN ANALYZE <query>"@]
        }),
{
    let f = slow_digest_finding(d, installation);
    let modules = correlation::correlation_of(
        d.fingerprint,
        d.tables_involved,
        installation,
    ).candidate_modules;
    assert(f.verification_commands
        =~= seq!["Substitute literal values for the ? placeholders, then run: EXPLAIN ANALYZE <query>"@]);
    if modules.len() == 0 {
        assert(f.related_modules =~= modules);
    }
}

/// Every wait of more than five seconds has its finding, in the order of the waits, and no
/// other has one.
pub proof fn law_long_waits_are_reported_in_order(locks: Seq<ActiveLockWaitView>)
    ensures
        lock_wait_findings(locks) == locks.filter(
            |l: ActiveLockWaitView| l.wait_time_secs > 5,
        ).map_values(|l: ActiveLockWaitView| lock_wait_finding(l)),
    decreases locks.len(),
{
    let keep = |l: ActiveLockWaitView| l.wait_time_secs > 5;
    let told = |l: ActiveLockWaitView| lock_wait_finding(l);
    reveal(Seq::filter);
    if locks.len() > 0 {
        law_long_waits_are_reported_in_order(locks.drop_last());
        let before = locks.drop_last().filter(keep);
        if locks.last().wait_time_secs > 5 {
            assert(before.push(locks.last()).map_values(told) =~= before.map_values(told).push(
                told(locks.last()),
            ));
        }
    }
    assert(lock_wait_findings(locks) =~= locks.filter(keep).map_values(told));
}

/// What the finding on a wait says: a confirmed lock wait is critical and beyond doubt, a long
/// statement a warning.
pub proof fn law_lock_wait_finding(lock: ActiveLockWaitView)
    ensures
        ({
            let f = lock_wait_finding(lock);
            &&& f.category == Category::Database
            &&& lock.is_confirmed_lock_wait ==> {
                &&& f.rule_id == "MD-SQL-002"@
                &&& f.title == "Active MySQL transaction lock wait detected"@
                &&& f.severity == Severity::Critical
                &&& f.confidence == Confidence::High
                &&& f.summary == "Thread "@ + number::dec(lock.waiting_query_id as nat)
                    + " has been blocked waiting for a lock for "@ + number::dec(
                    lock.wait_time_secs as nat,
                ) + " seconds."@
                &&& lock.blocking_query_id matches Some(id) ==> f.evidence.contains(
                    "Blocking thread: "@ + number::dec(id as nat),
                )
                &&& lock.blocking_query matches Some(q) ==> f.evidence.contains(
                    "Blocking query: "@ + q,
                )
            }
            &&& !lock.is_confirmed_lock_wait ==> {
                &&& f.rule_id == "MD-SQL-003"@
                &&& f.title == "Long-running MySQL statement occupying a connection"@
                &&& f.severity == Severity::Warning
                &&& f.confidence == Confidence::Medium
                &&& f.summary == "Thread "@ + number::dec(lock.waiting_query_id as nat)
                    + " has been executing for "@ + number::dec(lock.wait_time_secs as nat)
                    + " seconds. performance_schema did not name a blocking transaction, so this is a slow statement rather than a confirmed lock wait."@
                &&& lock.command matches Some(c) ==> f.evidence.contains("Command/state: "@ + c)
                &&& lock.user matches Some(u) ==> f.evidence.contains("Connection user: "@ + u)
            }
            &&& f.evidence.contains("Query: "@ + lock.waiting_query)
            &&& lock.table_name matches Some(t) ==> f.evidence.contains("Table: "@ + t)
                && f.related_tables == seq![t]
            &&& lock.table_name is None ==> f.related_tables.len() == 0
        }),
{
    let f = lock_wait_finding(lock);
    let n = f.evidence.len() as int;
    let at = if lock.table_name is Some {
        n - 2
    } else {
        n - 1
    };
    assert(f.evidence[at] == "Query: "@ + lock.waiting_query);
    if lock.table_name is Some {
        assert(f.evidence[n - 1] == "Table: "@ + lock.table_name->0);
        assert(f.related_tables =~= seq![lock.table_name->0]);
    }
    if lock.is_confirmed_lock_wait {
        if lock.blocking_query_id is Some {
            assert(f.evidence[0] == "Blocking thread: "@ + number::dec(
                lock.blocking_query_id->0 as nat,
            ));
        }
        if lock.blocking_query is Some {
            assert(f.evidence[at - 1] == "Blocking query: "@ + lock.blocking_query->0);
        }
    } else {
        if lock.command is Some {
            assert(f.evidence[0] == "Command/state: "@ + lock.command->0);
        }
        if lock.user is Some {
            assert(f.evidence[at - 1] == "Connection user: "@ + lock.user->0);
        }
    }
}

/// MD-RDS-001 is raised exactly when the session instance answered, tells its policy, and
/// either evicts keys whatever their lifetime or evicted keys of its own.
pub proof fn law_session_store_rule(installation: MagentoInstallation)
    ensures
        raised(forensics_findings(installation), "MD-RDS-001"@) <==> ({
            let session = installation.runtime.redis_session;
            let cache = installation.runtime.redis_default;
            &&& session.is_reachable
            &&& session.maxmemory_policy is Some
            &&& text::has_prefix(session.maxmemory_policy->0@, "allkeys"@) || ((
            session.evicted_keys matches Some(n) && n > 0) && !(session.endpoint is Some
                && text::text_opt(session.endpoint) == text::text_opt(cache.endpoint)))
        }),
{
    law_session_rule(installation);
}

/// What the finding on the session store says: critical where the policy is at fault, and
/// beyond doubt where keys were evicted under it.
pub proof fn law_session_finding(
    session: RedisStatusView,
    cache: RedisStatusView,
    policy: Seq<char>,
    host: Option<Seq<char>>,
)
    ensures
        ({
            let f = session_finding(session, cache, policy, host);
            let at_fault = text::has_prefix(policy, "allkeys"@);
            let evicted = match session.evicted_keys {
                Some(n) => n as nat,
                None => 0,
            };
            &&& f.rule_id == "MD-RDS-001"@
            &&& f.title == "Redis session store can evict live customer sessions"@
            &&& f.severity == if at_fault {
                Severity::Critical
            } else {
                Severity::Warning
            }
            &&& f.confidence == if at_fault && evicted > 0 {
                Confidence::High
            } else {
                Confidence::Medium
            }
            &&& f.category == Category::Cache
            &&& at_fault ==> f.summary == "Session Redis uses maxmemory-policy '"@ + policy
                + "', which evicts keys regardless of TTL, with "@ + number::dec(evicted)
                + " keys evicted so far."@
            &&& !at_fault ==> f.summary == "Session Redis has evicted "@ + number::dec(evicted)
                + " keys under policy '"@ + policy + "'."@
            &&& f.evidence.len() >= 3
            &&& session.endpoint matches Some(e) ==> f.evidence[0] == "Endpoint: "@ + e
            &&& session.endpoint is None && host is Some ==> f.evidence[0] == "Endpoint: "@
                + host->0
            &&& session.endpoint is None && host is None ==> f.evidence[0] == "Endpoint: "@
                + "unknown"@
            &&& f.evidence[1] == "maxmemory-policy: "@ + policy
            &&& f.evidence[2] == "evicted_keys (server-wide): "@ + number::dec(evicted)
            &&& session.endpoint is Some && session.endpoint == cache.endpoint <==> f.evidence.len()
                == 4
        }),
{
}

/// MD-RDS-002 is raised exactly when the cache answered and takes more than nine tenths of its
/// memory, or takes more than a hundred million bytes with a fragmentation above 1.8.
pub proof fn law_memory_rule(installation: MagentoInstallation)
    ensures
        raised(forensics_findings(installation), "MD-RDS-002"@) <==> ({
            let cache = installation.runtime.redis_default;
            let used = match cache.used_memory_bytes {
                Some(n) => n as int,
                None => 0,
            };
            &&& cache.is_reachable
            &&& (cache.maxmemory_bytes matches Some(max) && max > 0 && 10 * used > 9 * max) || (
            used > 100_000_000 && (cache.mem_fragmentation_ratio matches Some(f) && 10 * f.num()
                > 18 * f.den()))
        }),
{
    lemma_rule_ids();
    lemma_area_ids(installation);
    let id = "MD-RDS-002"@;
    lemma_raised_by_list(installation, id);
    assert(differs(id, "MD-SQL-001"@) && differs(id, "MD-SQL-002"@) && differs(id, "MD-SQL-003"@) && differs(id, "MD-RDS-001"@) && differs(id, "MD-RDS-003"@) && differs(id, "MD-FPM-001"@) && differs(id, "MD-FPM-002"@) && differs(id, "MD-FPC-001"@) && differs(id, "MD-SRC-001"@) && differs(id, "MD-SRC-002"@) && differs(id, "MD-SRC-003"@));
    let cache = installation.runtime.redis_default@;
    let list = cache_findings(cache);
    if cache.is_reachable && (is_high_memory(cache) || is_fragmented(cache)) {
        assert(list[0].rule_id == id);
    }
}

/// What the finding on memory says.
pub proof fn law_memory_finding(cache: RedisStatusView)
    ensures
        ({
            let f = memory_finding(cache);
            let used = match cache.used_memory_bytes {
                Some(n) => n as nat,
                None => 0,
            };
            let max = match cache.maxmemory_bytes {
                Some(n) => n as nat,
                None => 0,
            };
            &&& f.rule_id == "MD-RDS-002"@
            &&& f.title == "Redis memory pressure or severe memory fragmentation"@
            &&& f.severity == Severity::Warning
            &&& f.confidence == Confidence::High
            &&& f.category == Category::Cache
            &&& f.evidence.len() == 3
            &&& f.evidence[0] == "Used memory: "@ + number::dec(used / 1_048_576) + " MB"@
            &&& max > 0 ==> f.evidence[1] == "Max memory: "@ + number::dec(max / 1_048_576)
                + " MB"@
            &&& max == 0 ==> f.evidence[1] == "Max memory: unlimited (maxmemory is 0)"@
            &&& cache.mem_fragmentation_ratio matches Some(r) ==> f.evidence[2]
                == "Fragmentation ratio: "@ + number::fixed(r.0, r.1, 2)
            &&& max > 0 && cache.mem_fragmentation_ratio is Some ==> f.summary
                == "Redis memory usage at "@ + number::fixed(used * 100, max, 1)
                + "% of maxmemory with fragmentation ratio "@ + number::fixed(
                (cache.mem_fragmentation_ratio->0).0,
                (cache.mem_fragmentation_ratio->0).1,
                2,
            ) + "."@
        }),
{
}

/// MD-RDS-003 is raised exactly when the cache answered, and of more than five thousand
/// lookups fewer than seven in ten were hits.
pub proof fn law_hit_ratio_rule(installation: MagentoInstallation)
    ensures
        raised(forensics_findings(installation), "MD-RDS-003"@) <==> ({
            let cache = installation.runtime.redis_default;
            let hits = match cache.keyspace_hits {
                Some(n) => n as int,
                None => 0,
            };
            let misses = match cache.keyspace_misses {
                Some(n) => n as int,
                None => 0,
            };
            &&& cache.is_reachable
            &&& hits + misses > 5000
            &&& cache.hit_ratio matches Some(r) && 10 * r.num() < 7 * r.den()
        }),
{
    lemma_rule_ids();
    lemma_area_ids(installation);
    let id = "MD-RDS-003"@;
    lemma_raised_by_list(installation, id);
    assert(differs(id, "MD-SQL-001"@) && differs(id, "MD-SQL-002"@) && differs(id, "MD-SQL-003"@) && differs(id, "MD-RDS-001"@) && differs(id, "MD-RDS-002"@) && differs(id, "MD-FPM-001"@) && differs(id, "MD-FPM-002"@) && differs(id, "MD-FPC-001"@) && differs(id, "MD-SRC-001"@) && differs(id, "MD-SRC-002"@) && differs(id, "MD-SRC-003"@));
    let cache = installation.runtime.redis_default@;
    let list = cache_findings(cache);
    if cache.is_reachable && is_thrashing(cache) {
        assert(list[list.len() - 1].rule_id == id);
    }
}

/// What the finding on the hit ratio says.
pub proof fn law_hit_ratio_finding(cache: RedisStatusView, ratio: (nat, nat))
    ensures
        ({
            let f = hit_ratio_finding(cache, ratio);
            &&& f.rule_id == "MD-RDS-003"@
            &&& f.title == "Low Redis cache hit ratio (cache thrashing)"@
            &&& f.severity == Severity::Warning
            &&& f.confidence == Confidence::High
            &&& f.category == Category::Cache
            &&& cache.keyspace_hits is Some && cache.keyspace_misses is Some ==> f.summary
                == "Redis keyspace hit ratio is only "@ + number::fixed(ratio.0 * 100, ratio.1, 1)
                + "% ("@ + number::dec(cache.keyspace_hits->0 as nat) + " hits / "@ + number::dec(
                cache.keyspace_misses->0 as nat,
            ) + " misses)."@
        }),
{
}

/// MD-FPM-001 is raised exactly when the scoreboard of a pool shows more than 85 percent of
/// the workers active, requests in the queue, or the ceiling reached; each alone will do.
pub proof fn law_worker_saturation_rule(installation: MagentoInstallation)
    ensures
        raised(forensics_findings(installation), "MD-FPM-001"@) <==> ({
            let fpm = installation.runtime.php_workers;
            &&& fpm.is_detected
            &&& fpm.source == WorkerMetricSource::FpmStatus
            &&& (fpm.saturation_pct matches Some(s) && s.num() > 85 * s.den()) || (
            fpm.listen_queue matches Some(n) && n > 0) || (fpm.max_children_reached matches Some(n)
                && n > 0)
        }),
{
    law_saturation_rule(installation);
}

/// What the finding on saturation says: critical as soon as requests queue or the ceiling was
/// reached.
pub proof fn law_saturation_finding(fpm: PhpWorkerMetricsView)
    ensures
        ({
            let f = saturation_finding(fpm);
            &&& f.rule_id == "MD-FPM-001"@
            &&& f.title == "PHP-FPM worker pool saturation / queue buildup"@
            &&& f.severity == if (fpm.listen_queue matches Some(n) && n > 0) || (
            fpm.max_children_reached matches Some(n) && n > 0) {
                Severity::Critical
            } else {
                Severity::Warning
            }
            &&& f.confidence == Confidence::High
            &&& f.category == Category::Php
            &&& f.evidence.contains("Metric source: "@ + fpm.source.described())
            &&& fpm.max_children_reached matches Some(n) ==> f.evidence.contains(
                "max children reached (cumulative): "@ + number::dec(n as nat),
            )
            &&& fpm.slow_requests matches Some(n) ==> f.evidence.contains(
                "slow requests: "@ + number::dec(n as nat),
            )
            &&& fpm.pool_name is Some && fpm.saturation_pct is Some && fpm.active_workers is Some
                && fpm.max_children is Some && fpm.listen_queue is Some ==> f.summary
                == "PHP-FPM pool '"@ + fpm.pool_name->0 + "' is "@ + (number::fixed(
                (fpm.saturation_pct->0).0,
                (fpm.saturation_pct->0).1,
                1,
            ) + "%"@) + " saturated ("@ + number::dec(fpm.active_workers->0 as nat) + " of "@
                + number::dec(fpm.max_children->0 as nat) + " workers active, listen queue "@
                + number::dec(fpm.listen_queue->0 as nat) + ")."@
        }),
{
    let f = saturation_finding(fpm);
    let n = f.evidence.len() as int;
    assert(f.evidence[0] == "Metric source: "@ + fpm.source.described());
    if fpm.slow_requests is Some {
        assert(f.evidence[n - 1] == "slow requests: "@ + number::dec(fpm.slow_requests->0 as nat));
    }
    if fpm.max_children_reached is Some {
        let at = if fpm.slow_requests is Some {
            n - 2
        } else {
            n - 1
        };
        assert(f.evidence[at] == "max children reached (cumulative): "@ + number::dec(
            fpm.max_children_reached->0 as nat,
        ));
    }
}

/// MD-FPM-002 is raised exactly when a detected pool may outgrow the memory of the host.
pub proof fn law_pool_memory_rule(installation: MagentoInstallation)
    ensures
        raised(forensics_findings(installation), "MD-FPM-002"@) <==> (
        installation.runtime.php_workers.is_detected && installation.runtime.php_workers.oom_risk),
{
    lemma_rule_ids();
    lemma_area_ids(installation);
    let id = "MD-FPM-002"@;
    lemma_raised_by_list(installation, id);
    assert(differs(id, "MD-SQL-001"@) && differs(id, "MD-SQL-002"@) && differs(id, "MD-SQL-003"@) && differs(id, "MD-RDS-001"@) && differs(id, "MD-RDS-002"@) && differs(id, "MD-RDS-003"@) && differs(id, "MD-FPM-001"@) && differs(id, "MD-FPC-001"@) && differs(id, "MD-SRC-001"@) && differs(id, "MD-SRC-002"@) && differs(id, "MD-SRC-003"@));
    let fpm = installation.runtime.php_workers@;
    let list = worker_findings(fpm);
    if fpm.is_detected && fpm.oom_risk {
        assert(list[list.len() - 1].rule_id == id);
    }
}

/// What the finding on the memory of a pool says.
pub proof fn law_pool_memory_finding(fpm: PhpWorkerMetricsView)
    ensures
        ({
            let f = pool_memory_finding(fpm);
            &&& f.rule_id == "MD-FPM-002"@
            &&& f.title == "PHP-FPM worker pool memory allocation exceeds host RAM (OOM risk)"@
            &&& f.severity == Severity::Critical
            &&& f.confidence == Confidence::High
            &&& f.category == Category::Php
            &&& fpm.pool_name is Some && fpm.max_children is Some && fpm.total_pool_memory_mb
                is Some && fpm.host_total_memory_mb is Some ==> f.summary == "Pool '"@
                + fpm.pool_name->0 + "' max_children ("@ + number::dec(fpm.max_children->0 as nat)
                + ") can consume up to "@ + number::fixed(
                (fpm.total_pool_memory_mb->0).0,
                (fpm.total_pool_memory_mb->0).1,
                0,
            ) + " MB against "@ + number::fixed(
                (fpm.host_total_memory_mb->0).0,
                (fpm.host_total_memory_mb->0).1,
                0,
            ) + " MB of host RAM."@
            &&& fpm.worker_memory_mb is Some && fpm.worker_memory_measured ==> f.evidence.contains(
                "Worker footprint: "@ + number::fixed(
                    (fpm.worker_memory_mb->0).0,
                    (fpm.worker_memory_mb->0).1,
                    0,
                ) + " MB ("@ + "measured from process RSS"@ + ")"@,
            )
            &&& fpm.worker_memory_mb is Some && !fpm.worker_memory_measured ==> f.evidence.contains(
                "Worker footprint: "@ + number::fixed(
                    (fpm.worker_memory_mb->0).0,
                    (fpm.worker_memory_mb->0).1,
                    0,
                ) + " MB ("@ + "estimated; no live workers to measure"@ + ")"@,
            )
        }),
{
    let f = pool_memory_finding(fpm);
    let n = f.evidence.len() as int;
    if fpm.worker_memory_mb is Some {
        let size = "Worker footprint: "@ + number::fixed(
            (fpm.worker_memory_mb->0).0,
            (fpm.worker_memory_mb->0).1,
            0,
        ) + " MB ("@;
        assert(f.evidence[n - 2] == size + (if fpm.worker_memory_measured {
            "measured from process RSS"@
        } else {
            "estimated; no live workers to measure"@
        }) + ")"@);
    }
}

/// Whether a block lies in a handle that shoppers reach: the one of every page, a catalog or
/// CMS page, or the search result.
pub open spec fn is_storefront_block(b: UncacheableBlock) -> bool {
    ||| b.layout_handle@ == "default"@
    ||| b.layout_handle@ == "catalogsearch_result_index"@
    ||| text::has_prefix(b.layout_handle@, "catalog_"@)
    ||| text::has_prefix(b.layout_handle@, "cms_"@)
}

/// MD-FPC-001 is raised exactly when a block in a storefront handle is uncacheable.
pub proof fn law_puncture_rule(installation: MagentoInstallation)
    ensures
        raised(forensics_findings(installation), "MD-FPC-001"@) <==> exists|i: int|
            0 <= i < installation.runtime.fpc.uncacheable_blocks@.len() && ({
                let handle = (
                #[trigger] installation.runtime.fpc.uncacheable_blocks@[i]).layout_handle@;
                ||| handle == "default"@
                ||| handle == "catalogsearch_result_index"@
                ||| text::has_prefix(handle, "catalog_"@)
                ||| text::has_prefix(handle, "cms_"@)
            }),
{
    let exec = installation.runtime.fpc.uncacheable_blocks@;
    let all = installation.runtime.fpc@.uncacheable_blocks;
    assert(all.len() == exec.len());
    assert(forall|i: int| 0 <= i < all.len() ==> #[trigger] all[i] == exec[i]@);
    lemma_rule_ids();
    lemma_area_ids(installation);
    let id = "MD-FPC-001"@;
    lemma_raised_by_list(installation, id);
    assert(differs(id, "MD-SQL-001"@) && differs(id, "MD-SQL-002"@) && differs(id, "MD-SQL-003"@) && differs(id, "MD-RDS-001"@) && differs(id, "MD-RDS-002"@) && differs(id, "MD-RDS-003"@) && differs(id, "MD-FPM-001"@) && differs(id, "MD-FPM-002"@) && differs(id, "MD-SRC-001"@) && differs(id, "MD-SRC-002"@) && differs(id, "MD-SRC-003"@));
    if exists|i: int| 0 <= i < exec.len() && is_storefront_block(#[trigger] exec[i]) {
        let i = choose|i: int| 0 <= i < exec.len() && is_storefront_block(#[trigger] exec[i]);
        law_each_puncture_has_its_finding(all, i);
        let list = puncture_findings(all);
        let k = choose|k: int|
            0 <= k < list.len() && exists|j: int|
                0 <= j < all.len() && all[j].layout_handle == all[i].layout_handle
                    && all[j].block_name == all[i].block_name && #[trigger] list[k]
                    == puncture_finding(#[trigger] all[j]);
        assert(list[k].rule_id == id);
    }
    if raised(puncture_findings(all), id) {
        let list = puncture_findings(all);
        let k = choose|k: int| 0 <= k < list.len() && (#[trigger] list[k]).rule_id == id;
        lemma_puncture_from(all, k);
        let j = choose|j: int|
            0 <= j < all.len() && is_storefront_handle((#[trigger] all[j]).layout_handle) && list[k]
                == puncture_finding(all[j]);
        assert(is_storefront_block(exec[j]));
    }
}

proof fn lemma_puncture_from(blocks: Seq<UncacheableBlockView>, k: int)
    requires
        0 <= k < puncture_findings(blocks).len(),
    ensures
        exists|j: int|
            0 <= j < blocks.len() && is_storefront_handle((#[trigger] blocks[j]).layout_handle)
                && puncture_findings(blocks)[k] == puncture_finding(blocks[j]),
    decreases blocks.len(),
{
    let init = blocks.drop_last();
    let before = puncture_findings(init);
    if k < before.len() {
        lemma_puncture_from(init, k);
        let j = choose|j: int|
            0 <= j < init.len() && is_storefront_handle((#[trigger] init[j]).layout_handle)
                && before[k] == puncture_finding(init[j]);
        assert(blocks[j] == init[j]);
    } else {
        assert(blocks[blocks.len() - 1] == blocks.last());
    }
}

/// Each storefront handle and block name of the uncacheable blocks has a finding of its own.
pub proof fn law_each_puncture_has_its_finding(blocks: Seq<UncacheableBlockView>, i: int)
    requires
        0 <= i < blocks.len(),
        blocks[i].layout_handle == "default"@ || blocks[i].layout_handle
            == "catalogsearch_result_index"@ || text::has_prefix(
            blocks[i].layout_handle,
            "catalog_"@,
        ) || text::has_prefix(blocks[i].layout_handle, "cms_"@),
    ensures
        exists|k: int|
            0 <= k < puncture_findings(blocks).len() && exists|j: int|
                0 <= j < blocks.len() && blocks[j].layout_handle == blocks[i].layout_handle
                    && blocks[j].block_name == blocks[i].block_name
                    && #[trigger] puncture_findings(blocks)[k] == puncture_finding(
                    #[trigger] blocks[j],
                ),
    decreases blocks.len(),
{
    let init = blocks.drop_last();
    let before = puncture_findings(init);
    let now = puncture_findings(blocks);
    if i < init.len() {
        assert(init[i] == blocks[i]);
        law_each_puncture_has_its_finding(init, i);
        let k = choose|k: int|
            0 <= k < before.len() && exists|j: int|
                0 <= j < init.len() && init[j].layout_handle == init[i].layout_handle
                    && init[j].block_name == init[i].block_name && #[trigger] before[k]
                    == puncture_finding(#[trigger] init[j]);
        let j = choose|j: int|
            0 <= j < init.len() && init[j].layout_handle == init[i].layout_handle
                && init[j].block_name == init[i].block_name && before[k] == puncture_finding(
                #[trigger] init[j],
            );
        assert(now[k] == puncture_finding(blocks[j]));
    } else {
        let b = blocks.last();
        assert(b == blocks[i]);
        if forall|k: int| 0 <= k < blocks.len() - 1 ==> !same_puncture(#[trigger] blocks[k], b) {
            assert(now[now.len() - 1] == puncture_finding(blocks[i]));
        } else {
            let m = choose|m: int| 0 <= m < blocks.len() - 1 && same_puncture(#[trigger] blocks[m], b);
            assert(init[m] == blocks[m]);
            law_each_puncture_has_its_finding(init, m);
            let k = choose|k: int|
                0 <= k < before.len() && exists|j: int|
                    0 <= j < init.len() && init[j].layout_handle == init[m].layout_handle
                        && init[j].block_name == init[m].block_name && #[trigger] before[k]
                        == puncture_finding(#[trigger] init[j]);
            let j = choose|j: int|
                0 <= j < init.len() && init[j].layout_handle == init[m].layout_handle
                    && init[j].block_name == init[m].block_name && before[k] == puncture_finding(
                    #[trigger] init[j],
                );
            assert(now[k] == puncture_finding(blocks[j]));
        }
    }
}

/// No two findings are on the same block of the same handle: there are as many as there are
/// storefront blocks that no earlier one repeats.
pub proof fn law_no_puncture_is_reported_twice(
    blocks: Seq<UncacheableBlockView>,
    next: UncacheableBlockView,
)
    ensures
        puncture_findings(blocks.push(next)) == if (next.layout_handle == "default"@
            || next.layout_handle == "catalogsearch_result_index"@ || text::has_prefix(
            next.layout_handle,
            "catalog_"@,
        ) || text::has_prefix(next.layout_handle, "cms_"@)) && !(exists|k: int|
            0 <= k < blocks.len() && (#[trigger] blocks[k]).layout_handle == next.layout_handle
                && blocks[k].block_name == next.block_name) {
            puncture_findings(blocks).push(puncture_finding(next))
        } else {
            puncture_findings(blocks)
        },
{
    let all = blocks.push(next);
    assert(all.drop_last() =~= blocks);
    assert(forall|k: int| 0 <= k < blocks.len() ==> #[trigger] all[k] == blocks[k]);
    if exists|k: int|
        0 <= k < blocks.len() && (#[trigger] blocks[k]).layout_handle == next.layout_handle
            && blocks[k].block_name == next.block_name {
        let k = choose|k: int|
            0 <= k < blocks.len() && (#[trigger] blocks[k]).layout_handle == next.layout_handle
                && blocks[k].block_name == next.block_name;
        assert(same_puncture(all[k], next));
    } else {
        assert forall|k: int| 0 <= k < all.len() - 1 implies !same_puncture(
            #[trigger] all[k],
            next,
        ) by {
            assert(all[k] == blocks[k]);
        }
    }
}

/// What the finding on an uncacheable block says.
pub proof fn law_puncture_finding(b: UncacheableBlockView)
    ensures
        ({
            let f = puncture_finding(b);
            let at = b.source_file + ":"@ + number::dec(b.line as nat);
            &&& f.rule_id == "MD-FPC-001"@
            &&& f.title
                == "Storefront layout block declared with cacheable=\"false\" (FPC bypass)"@
            &&& f.severity == Severity::Critical
            &&& f.confidence == Confidence::High
            &&& f.category == Category::Cache
            &&& f.summary == "Block '"@ + b.block_name + "' in layout handle '"@ + b.layout_handle
                + "' has cacheable=\"false\", completely disabling Full Page Cache for that page."@
            &&& f.evidence.len() >= 4
            &&& f.evidence[0] == "Module: "@ + b.module
            &&& f.evidence[1] == "Layout handle: "@ + b.layout_handle
            &&& f.evidence[2] == "Block name: "@ + b.block_name
            &&& b.class_name matches Some(c) ==> f.evidence[3] == "Class: "@ + c
            &&& f.evidence.last() == "Source: "@ + at
            &&& f.related_modules == seq![b.module]
            &&& f.related_files == seq![at]
        }),
{
    let f = puncture_finding(b);
    assert(f.related_modules =~= seq![b.module]);
    assert(f.related_files =~= seq![source_line(b)]);
}

/// MD-SRC-001 is raised exactly when a cluster that answered is red or, with more than one
/// node, is yellow or leaves shards unassigned.
pub proof fn law_cluster_health_rule(installation: MagentoInstallation)
    ensures
        raised(forensics_findings(installation), "MD-SRC-001"@) <==> ({
            let os = installation.runtime.opensearch;
            &&& os.is_reachable
            &&& os.status is Some
            &&& os.status->0@ == "red"@ || ((os.number_of_nodes matches Some(n) && n > 1) && (
            os.status->0@ == "yellow"@ || (os.unassigned_shards matches Some(n) && n > 0)))
        }),
{
    law_degraded_cluster_rule(installation);
}

/// MD-SRC-002 is raised exactly when a cluster of one node that answered is yellow.
pub proof fn law_single_node_rule(installation: MagentoInstallation)
    ensures
        raised(forensics_findings(installation), "MD-SRC-002"@) <==> ({
            let os = installation.runtime.opensearch;
            &&& os.is_reachable
            &&& os.status is Some
            &&& os.status->0@ == "yellow"@
            &&& os.number_of_nodes matches Some(n) ==> n <= 1
        }),
{
    lemma_rule_ids();
    lemma_area_ids(installation);
    let id = "MD-SRC-002"@;
    lemma_raised_by_list(installation, id);
    assert(differs(id, "MD-SQL-001"@) && differs(id, "MD-SQL-002"@) && differs(id, "MD-SQL-003"@) && differs(id, "MD-RDS-001"@) && differs(id, "MD-RDS-002"@) && differs(id, "MD-RDS-003"@) && differs(id, "MD-FPM-001"@) && differs(id, "MD-FPM-002"@) && differs(id, "MD-FPC-001"@) && differs(id, "MD-SRC-001"@) && differs(id, "MD-SRC-003"@));
    let os = installation.runtime.opensearch@;
    let list = search_findings(os);
    reveal_strlit("red");
    reveal_strlit("yellow");
    assert("red"@ != "yellow"@) by {
        assert("red"@.len() != "yellow"@.len());
    }
    if os.is_reachable && os.status is Some && os.status->0 == "yellow"@ && is_single_node(os) {
        assert(list[0].rule_id == id);
    }
}

/// What the findings on a cluster say.
pub proof fn law_search_findings(os: OpenSearchStatusView, status: Seq<char>)
    ensures
        ({
            let f = degraded_finding(os, status);
            &&& f.rule_id == "MD-SRC-001"@
            &&& f.severity == if status == "red"@ {
                Severity::Critical
            } else {
                Severity::Warning
            }
            &&& f.confidence == Confidence::High
            &&& f.category == Category::Search
            &&& os.cluster_name is Some && os.unassigned_shards is Some && os.number_of_nodes
                is Some ==> f.summary == "OpenSearch cluster '"@ + os.cluster_name->0
                + "' status is '"@ + status + "' with "@ + number::dec(
                os.unassigned_shards->0 as nat,
            ) + " unassigned shards across "@ + number::dec(os.number_of_nodes->0 as nat)
                + " node(s)."@
            &&& f.evidence.len() == 3
            &&& os.number_of_nodes matches Some(n) ==> f.evidence[0] == "Nodes: "@ + number::dec(
                n as nat,
            )
            &&& os.active_primary_shards matches Some(n) ==> f.evidence[1]
                == "Active primary shards: "@ + number::dec(n as nat)
            &&& os.unassigned_shards matches Some(n) ==> f.evidence[2] == "Unassigned shards: "@
                + number::dec(n as nat)
        }),
        ({
            let f = single_node_finding(os);
            &&& f.rule_id == "MD-SRC-002"@
            &&& f.severity == Severity::Info
            &&& f.confidence == Confidence::High
            &&& f.category == Category::Search
        }),
        ({
            let f = no_index_finding(os);
            &&& f.rule_id == "MD-SRC-003"@
            &&& f.severity == Severity::Critical
            &&& f.confidence == Confidence::High
            &&& f.category == Category::Search
            &&& os.cluster_name matches Some(c) ==> f.evidence == seq!["Cluster: "@ + c]
        }),
{
    if os.cluster_name is Some {
        assert(no_index_finding(os).evidence =~= seq!["Cluster: "@ + os.cluster_name->0]);
    }
}

/// Each list of findings holds nothing but what its rule finds: the session store, the cache,
/// the workers and the cluster give at most one finding for each of their rules.
pub proof fn law_findings_of_services(installation: MagentoInstallation)
    ensures
        session_findings(
            installation.runtime.redis_session@,
            installation.runtime.redis_default@,
            installation.env_config@.redis_session_host,
        ).len() <= 1,
        cache_findings(installation.runtime.redis_default@).len() <= 2,
        worker_findings(installation.runtime.php_workers@).len() <= 2,
        search_findings(installation.runtime.opensearch@).len() <= 2,
{
}

} // verus!
