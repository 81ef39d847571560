//! Multi-dimensional root cause analysis: correlates runtime measurements with the code.

use crate::causal::{self, CausalNodeType, InvestigationResult, InvestigationResultView};
use crate::correlation::{self, correlate_query};
use crate::finding::Confidence;
use crate::forensics_rules::{
    self, shares_instance, small_count, source_line_text, EXPLAIN_HINT,
    SESSION_UNSAFE_POLICY_PREFIX, SLOW_DIGEST_PS,
};
use crate::model::{
    ActiveLockWait, ActiveLockWaitView, AstFinding, CronScheduleSummary, CronScheduleSummaryView,
    DatabaseMetrics, FpcProbeStatus, MagentoInstallation, OpenSearchStatusView, OperationType,
    PhpWorkerMetrics, PhpWorkerMetricsView, Plugin, PluginType, QueryDigest, QueryDigestView,
    RedisStatusView, SanitizedEnvConfig, UncacheableBlockView, WorkerMetricSource,
};
use crate::number::{self, is_positive, millis_text, num, num_or, or_zero, wide_num};
use crate::ratio::{self, is_above, percent_text_or};
use crate::redis_check::{self, check_redis_config, RedisIssue};
use crate::signals::{self, CRITICAL_IMPACT, Draft, DraftView};
use crate::text::{self, contains, join, replace_char, same, starts_with, str_or, to_lowercase};
use vstd::prelude::*;
use vstd::string::*;

verus! {

pub const WORKER_TARGET: &'static str = "504-slow-timeouts";

pub const WORKER_SYMPTOM: &'static str =
    "Intermittent HTTP 504 Gateway Timeouts & High Web Latency";

pub const WORKER_REMEDY: &'static str =
    "Increase pm.max_children if host RAM allows, or shorten the slow paths holding workers open.";

pub const WORKER_FALLBACK_REMEDY: &'static str =
    "Increase pm.max_children if RAM permits, and optimize heavy database queries.";

pub const LOCK_REMEDY: &'static str =
    "Terminate the blocking transaction and narrow the lock scope in the code that opened it.";

pub const CRON_COMPETITION: &'static str =
    " pending, competing with storefront traffic for MySQL and CPU";

pub const CRON_REMEDY: &'static str =
    "Clear the cron_schedule backlog and stagger heavy job groups away from peak traffic.";

pub const STARVED_BY_QUERIES: &'static str =
    "Web Worker Starvation Caused by High-Latency MySQL Query Digests";

pub const STARVED_BY_QUERIES_SUMMARY: &'static str =
    "PHP-FPM workers are held open waiting for long-running MySQL queries, saturating the listen queue and producing 504 timeouts.";

pub const STARVED_BY_LOCKS: &'static str = "Web Worker Starvation Behind MySQL Lock Contention";

pub const STARVED_BY_LOCKS_SUMMARY: &'static str =
    "PHP-FPM workers are held open by transactions blocked on MySQL locks, saturating the pool.";

pub const POOL_SATURATED: &'static str = "PHP-FPM Worker Pool Saturation";

pub const POOL_SATURATED_SUMMARY: &'static str =
    "The PHP-FPM scoreboard shows the pool at or near its ceiling with requests queuing. No slow query or lock wait was measured, so the time is being spent in PHP or an external call.";

pub const SLOW_AND_LOCKED: &'static str = "MySQL Latency and Lock Contention on the Request Path";

pub const SLOW_AND_LOCKED_SUMMARY: &'static str =
    "Slow query digests and a confirmed lock wait were measured. PHP-FPM worker data was not available, so the web-tier effect is inferred from the database evidence alone.";

pub const SLOW_QUERIES: &'static str = "High-Latency MySQL Query Digests on the Request Path";

pub const SLOW_QUERIES_SUMMARY: &'static str =
    "Slow query digests were measured in performance_schema. PHP-FPM worker data was not available, so worker saturation has not been confirmed.";

pub const LOCKS_ONLY: &'static str = "MySQL Lock Contention Blocking Transactions";

pub const LOCKS_ONLY_SUMMARY: &'static str =
    "performance_schema reports transactions blocked behind another transaction's locks.";

pub const CRON_ONLY: &'static str = "Cron Backlog Competing With Storefront Traffic";

pub const CRON_ONLY_SUMMARY: &'static str =
    "The cron_schedule table shows a backlog of running and pending jobs. No worker, query-latency or lock evidence was collected, so this is the only measured signal.";

/// Whether the scoreboard shows worker pressure. A `/proc` scan sees a worker waiting on
/// MySQL as idle, so its saturation figure cannot support a claim either way.
pub open spec fn has_worker_pressure(fpm: PhpWorkerMetricsView) -> bool {
    &&& fpm.is_detected
    &&& fpm.source == WorkerMetricSource::FpmStatus
    &&& (ratio::exceeds_whole(fpm.saturation_pct, 75) || number::positive(fpm.listen_queue) || number::positive(
        fpm.max_children_reached,
    ))
}

pub open spec fn with_pressure(d: DraftView, fpm: PhpWorkerMetricsView) -> DraftView {
    if !has_worker_pressure(fpm) {
        d
    } else {
        d.signal(
            "PHP-FPM scoreboard: "@ + number::dec_or(fpm.active_workers, "?"@) + " of "@ + number::dec_or(
                fpm.max_children,
                "?"@,
            ) + " workers active, listen queue "@ + number::dec_or(fpm.listen_queue, "?"@),
            45,
        ).measured(
            CausalNodeType::Symptom,
            "PHP-FPM"@,
            "Worker pool '"@ + text::text_or(fpm.pool_name, "unknown"@) + "' is under pressure ("@
                + ratio::percent_or(fpm.saturation_pct, "?"@) + " active, "@ + number::dec_or(
                fpm.listen_queue,
                "0"@,
            ) + " queued)"@,
            number::dec_or(fpm.active_workers, "?"@) + "/"@ + number::dec_or(fpm.max_children, "?"@)
                + " workers"@,
        ).remedy(WORKER_REMEDY@)
    }
}

fn add_pressure(d: &mut Draft, fpm: &PhpWorkerMetrics) -> (pressure: bool)
    ensures
        pressure == has_worker_pressure(fpm@),
        final(d)@ == with_pressure(old(d)@, fpm@),
{
    let pressure = fpm.is_detected && fpm.source.has_reliable_saturation() && (is_above(
        fpm.saturation_pct,
        75,
    ) || is_positive(fpm.listen_queue) || is_positive(fpm.max_children_reached));
    if pressure {
        d.add_signal(
            "PHP-FPM scoreboard: ".to_owned().concat(
                num_or(fpm.active_workers, "?").as_str(),
            ).concat(" of ").concat(num_or(fpm.max_children, "?").as_str()).concat(
                " workers active, listen queue ",
            ).concat(num_or(fpm.listen_queue, "?").as_str()),
            45,
        );
        d.add_measured(
            CausalNodeType::Symptom,
            "PHP-FPM",
            "Worker pool '".to_owned().concat(str_or(&fpm.pool_name, "unknown")).concat(
                "' is under pressure (",
            ).concat(percent_text_or(fpm.saturation_pct, "?").as_str()).concat(
                " active, ",
            ).concat(num_or(fpm.listen_queue, "0").as_str()).concat(" queued)").as_str(),
            num_or(fpm.active_workers, "?").concat("/").concat(
                num_or(fpm.max_children, "?").as_str(),
            ).concat(" workers").as_str(),
        );
        d.add_remedy(WORKER_REMEDY.to_owned());
    }
    pressure
}

/// The slowest of the slow digests; of equally slow ones, the last.
pub open spec fn slowest_digest(digests: Seq<QueryDigestView>) -> Option<QueryDigestView>
    decreases digests.len(),
{
    if digests.len() == 0 {
        None
    } else {
        let before = slowest_digest(digests.drop_last());
        let d = digests.last();
        match before {
            Some(b) => if forensics_rules::is_slow(d) && d.avg_time_ps >= b.avg_time_ps {
                Some(d)
            } else {
                before
            },
            None => if forensics_rules::is_slow(d) {
                Some(d)
            } else {
                None
            },
        }
    }
}

fn find_slowest(db: &DatabaseMetrics) -> (r: Option<usize>)
    ensures
        r matches Some(i) ==> i < db.query_digests@.len() && slowest_digest(db@.query_digests)
            == Some(db.query_digests@[i as int]@),
        r is None ==> slowest_digest(db@.query_digests) is None,
{
    let digests = &db.query_digests;
    let ghost all = db@.query_digests;
    let mut best: Option<usize> = None;
    let mut i: usize = 0;
    while i < digests.len()
        invariant
            i <= digests@.len(),
            all.len() == digests@.len(),
            forall|k: int| 0 <= k < all.len() ==> #[trigger] all[k] == digests@[k]@,
            best matches Some(b) ==> b < i && slowest_digest(all.take(i as int)) == Some(
                digests@[b as int]@,
            ),
            best is None ==> slowest_digest(all.take(i as int)) is None,
        decreases digests@.len() - i,
    {
        assert(all.take(i + 1).drop_last() =~= all.take(i as int));
        assert(all.take(i + 1).last() == all[i as int]);
        if digests[i].avg_time_ps > SLOW_DIGEST_PS {
            match best {
                Some(b) => if digests[i].avg_time_ps >= digests[b].avg_time_ps {
                    best = Some(i);
                },
                None => {
                    best = Some(i);
                },
            }
        }
        i += 1;
    }
    assert(all.take(i as int) =~= all);
    best
}

/// A draft with modules added to its culprits.
pub open spec fn with_culprits(d: DraftView, modules: Seq<Seq<char>>) -> DraftView
    decreases modules.len(),
{
    if modules.len() == 0 {
        d
    } else {
        with_culprits(d, modules.drop_last()).culprit(modules.last())
    }
}

fn add_culprits(d: &mut Draft, modules: &Vec<String>)
    ensures
        final(d)@ == with_culprits(old(d)@, text::texts(modules@)),
{
    let ghost all = text::texts(modules@);
    let ghost start = d@;
    let mut i: usize = 0;
    while i < modules.len()
        invariant
            i <= modules@.len(),
            all == text::texts(modules@),
            d@ == with_culprits(start, all.take(i as int)),
        decreases modules@.len() - i,
    {
        assert(all.take(i + 1).drop_last() =~= all.take(i as int));
        assert(all.take(i + 1).last() == modules@[i as int]@);
        d.add_culprit(&modules[i]);
        i += 1;
    }
    assert(all.take(i as int) =~= all);
}

/// Whether a file lies in a module: its path holds the module's name, as it is or as a path.
pub open spec fn lies_in(file: Seq<char>, module: Seq<char>) -> bool {
    text::contains_text(file, text::replaced(module, '_', '/')) || text::contains_text(file, module)
}

/// The first of the modules that a file lies in.
pub open spec fn first_module_of(file: Seq<char>, modules: Seq<Seq<char>>) -> Option<Seq<char>>
    decreases modules.len(),
{
    if modules.len() == 0 {
        None
    } else if lies_in(file, modules[0]) {
        Some(modules[0])
    } else {
        first_module_of(file, modules.drop_first())
    }
}

fn find_module_of(file: &str, modules: &Vec<String>) -> (r: Option<String>)
    ensures
        text::text_opt(r) == first_module_of(file@, text::texts(modules@)),
{
    let ghost all = text::texts(modules@);
    let mut i: usize = 0;
    assert(all.skip(0) =~= all);
    while i < modules.len()
        invariant
            i <= modules@.len(),
            all == text::texts(modules@),
            first_module_of(file@, all) == first_module_of(file@, all.skip(i as int)),
        decreases modules@.len() - i,
    {
        assert(all.skip(i as int).drop_first() =~= all.skip(i + 1));
        assert(all.skip(i as int)[0] == modules@[i as int]@);
        if contains(file, &replace_char(&modules[i], '_', '/')) || contains(file, &modules[i]) {
            return Some(modules[i].clone());
        }
        i += 1;
    }
    None
}

/// Whether static analysis found an unbatched entity load inside a loop.
pub open spec fn is_entity_loop(ast: AstFinding) -> bool {
    ast.in_loop && (ast.operation == OperationType::RepositoryLoad || ast.operation
        == OperationType::CollectionLoad)
}

/// A draft with what one finding of static analysis adds: an unbatched loop in a culprit
/// module is corroboration between the runtime and the code.
pub open spec fn with_loop(d: DraftView, ast: AstFinding) -> DraftView {
    match text::text_opt(ast.file_path) {
        Some(file) if is_entity_loop(ast) => match first_module_of(file, d.culprits) {
            Some(m) => {
                let at = file + ":"@ + number::dec(ast.line_number as nat);
                d.signal("Unbatched entity load inside a loop at "@ + at, 25).step(
                    CausalNodeType::Trigger,
                    m,
                    "Unbatched entity loop at "@ + at + " ("@ + ast.call_signature@ + ")"@,
                ).remedy(
                    "Refactor the loop in "@ + file + " to batch load or join attributes."@,
                )
            },
            None => d,
        },
        _ => d,
    }
}

pub open spec fn with_loops(d: DraftView, asts: Seq<AstFinding>) -> DraftView
    decreases asts.len(),
{
    if asts.len() == 0 {
        d
    } else {
        with_loop(with_loops(d, asts.drop_last()), asts.last())
    }
}

fn add_loop(d: &mut Draft, ast: &AstFinding)
    ensures
        final(d)@ == with_loop(old(d)@, *ast),
{
    let loaded = ast.operation == OperationType::RepositoryLoad || ast.operation
        == OperationType::CollectionLoad;
    if !ast.in_loop || !loaded {
        return ;
    }
    if let Some(file) = &ast.file_path {
        if let Some(m) = find_module_of(file, &d.culprits) {
            let at = file.clone().concat(":").concat(num(ast.line_number).as_str());
            d.add_signal(
                "Unbatched entity load inside a loop at ".to_owned().concat(at.as_str()),
                25,
            );
            d.add_step(
                CausalNodeType::Trigger,
                &m,
                "Unbatched entity loop at ".to_owned().concat(at.as_str()).concat(" (").concat(
                    ast.call_signature.as_str(),
                ).concat(")").as_str(),
            );
            d.add_remedy(
                "Refactor the loop in ".to_owned().concat(file.as_str()).concat(
                    " to batch load or join attributes.",
                ),
            );
        }
    }
}

fn add_loops(d: &mut Draft, asts: &[AstFinding])
    ensures
        final(d)@ == with_loops(old(d)@, asts@),
{
    let ghost start = d@;
    let mut i: usize = 0;
    while i < asts.len()
        invariant
            i <= asts@.len(),
            d@ == with_loops(start, asts@.take(i as int)),
        decreases asts@.len() - i,
    {
        assert(asts@.take(i + 1).drop_last() =~= asts@.take(i as int));
        add_loop(d, &asts[i]);
        i += 1;
    }
    assert(asts@.take(i as int) =~= asts@);
}

/// A draft with what the slowest digest adds.
pub open spec fn with_slow_digest(
    d: DraftView,
    slow: QueryDigestView,
    installation: MagentoInstallation,
    asts: Seq<AstFinding>,
) -> DraftView {
    let measured = d.signal(
        "MySQL digest averaging "@ + number::millis(slow.avg_time_ps, 0) + "ms over "@ + number::dec(
            slow.execution_count as nat,
        ) + " executions"@,
        40,
    ).measured(
        CausalNodeType::Mechanism,
        "MySQL"@,
        "Query digest takes avg "@ + number::millis(slow.avg_time_ps, 1) + "ms (max "@ + number::millis(
            slow.max_time_ps,
            1,
        ) + "ms), holding database threads and PHP workers open"@,
        number::millis(slow.avg_time_ps, 1) + "ms avg"@,
    ).query(slow.fingerprint);
    let blamed = with_culprits(
        measured,
        correlation::correlation_of(slow.fingerprint, slow.tables_involved, installation).candidate_modules,
    );
    let named = if blamed.culprits.len() > 0 {
        let list = text::joined(blamed.culprits, ", "@);
        blamed.step(
            CausalNodeType::Culprit,
            list,
            "Slow query on table(s) ["@ + text::joined(slow.tables_involved, ", "@) + "] managed by "@
                + list,
        )
    } else {
        blamed
    };
    let looped = with_loops(named, asts);
    if slow.tables_involved.len() > 0 {
        looped.remedy(
            "Inspect indexing on table(s): "@ + text::joined(slow.tables_involved, ", "@),
        ).verify(EXPLAIN_HINT@)
    } else {
        looped
    }
}

fn add_slow_digest(
    d: &mut Draft,
    slow: &QueryDigest,
    installation: &MagentoInstallation,
    asts: &[AstFinding],
)
    ensures
        final(d)@ == with_slow_digest(old(d)@, slow@, *installation, asts@),
{
    d.add_signal(
        "MySQL digest averaging ".to_owned().concat(millis_text(slow.avg_time_ps, 0).as_str()).concat(
            "ms over ",
        ).concat(num(slow.execution_count).as_str()).concat(" executions"),
        40,
    );
    d.add_measured(
        CausalNodeType::Mechanism,
        "MySQL",
        "Query digest takes avg ".to_owned().concat(millis_text(slow.avg_time_ps, 1).as_str()).concat(
            "ms (max ",
        ).concat(millis_text(slow.max_time_ps, 1).as_str()).concat(
            "ms), holding database threads and PHP workers open",
        ).as_str(),
        millis_text(slow.avg_time_ps, 1).concat("ms avg").as_str(),
    );
    d.add_query(&slow.fingerprint);
    let corr = correlate_query(slow, installation);
    add_culprits(d, &corr.candidate_modules);
    if d.culprits.len() > 0 {
        let list = join(&d.culprits, ", ");
        d.add_step(
            CausalNodeType::Culprit,
            &list,
            "Slow query on table(s) [".to_owned().concat(
                join(&slow.tables_involved, ", ").as_str(),
            ).concat("] managed by ").concat(list.as_str()).as_str(),
        );
    }
    add_loops(d, asts);
    if slow.tables_involved.len() > 0 {
        d.add_remedy(
            "Inspect indexing on table(s): ".to_owned().concat(
                join(&slow.tables_involved, ", ").as_str(),
            ),
        );
        d.add_verification(EXPLAIN_HINT);
    }
}

/// The first confirmed lock wait of more than five seconds.
pub open spec fn first_long_lock(locks: Seq<ActiveLockWaitView>) -> Option<ActiveLockWaitView>
    decreases locks.len(),
{
    if locks.len() == 0 {
        None
    } else if locks[0].is_confirmed_lock_wait && locks[0].wait_time_secs > 5 {
        Some(locks[0])
    } else {
        first_long_lock(locks.drop_first())
    }
}

fn find_long_lock(db: &DatabaseMetrics) -> (r: Option<usize>)
    ensures
        r matches Some(i) ==> i < db.active_lock_waits@.len() && first_long_lock(
            db@.active_lock_waits,
        ) == Some(db.active_lock_waits@[i as int]@),
        r is None ==> first_long_lock(db@.active_lock_waits) is None,
{
    let locks = &db.active_lock_waits;
    let ghost all = db@.active_lock_waits;
    let mut i: usize = 0;
    assert(all.skip(0) =~= all);
    while i < locks.len()
        invariant
            i <= locks@.len(),
            all == db@.active_lock_waits,
            locks == db.active_lock_waits,
            first_long_lock(all) == first_long_lock(all.skip(i as int)),
        decreases locks@.len() - i,
    {
        assert(all.skip(i as int).drop_first() =~= all.skip(i + 1));
        assert(all.skip(i as int)[0] == all[i as int]);
        if locks[i].is_confirmed_lock_wait && locks[i].wait_time_secs > 5 {
            return Some(i);
        }
        i += 1;
    }
    None
}

pub open spec fn with_lock(d: DraftView, lock: ActiveLockWaitView) -> DraftView {
    let secs = number::dec(lock.wait_time_secs as nat);
    let thread = number::dec(lock.waiting_query_id as nat);
    d.signal("Confirmed MySQL lock wait of "@ + secs + "s on thread "@ + thread, 35).measured(
        CausalNodeType::Mechanism,
        "MySQL"@,
        "Thread "@ + thread + " blocked "@ + secs + "s behind another transaction"@,
        secs + "s wait"@,
    ).remedy(LOCK_REMEDY@)
}

fn add_lock(d: &mut Draft, lock: &ActiveLockWait)
    ensures
        final(d)@ == with_lock(old(d)@, lock@),
{
    let secs = num(lock.wait_time_secs);
    let thread = num(lock.waiting_query_id);
    d.add_signal(
        "Confirmed MySQL lock wait of ".to_owned().concat(secs.as_str()).concat(
            "s on thread ",
        ).concat(thread.as_str()),
        35,
    );
    d.add_measured(
        CausalNodeType::Mechanism,
        "MySQL",
        "Thread ".to_owned().concat(thread.as_str()).concat(" blocked ").concat(
            secs.as_str(),
        ).concat("s behind another transaction").as_str(),
        secs.clone().concat("s wait").as_str(),
    );
    d.add_remedy(LOCK_REMEDY.to_owned());
}

/// Whether cron jobs pile up.
pub open spec fn has_cron_backlog(cron: CronScheduleSummaryView) -> bool {
    cron.running_rows > 5 || cron.pending_rows > 100
}

pub open spec fn with_cron(d: DraftView, cron: CronScheduleSummaryView) -> DraftView {
    if !has_cron_backlog(cron) {
        d
    } else {
        let running = number::dec(cron.running_rows as nat);
        let pending = number::dec(cron.pending_rows as nat);
        d.signal(
            "Cron backlog: "@ + running + " running, "@ + pending + " pending rows"@,
            20,
        ).measured(
            CausalNodeType::Trigger,
            "Cron"@,
            running + " jobs running and "@ + pending + CRON_COMPETITION@,
            pending + " pending"@,
        ).remedy(CRON_REMEDY@)
    }
}

fn add_cron(d: &mut Draft, cron: &CronScheduleSummary)
    ensures
        final(d)@ == with_cron(old(d)@, cron@),
{
    if cron.running_rows > 5 || cron.pending_rows > 100 {
        let running = num(cron.running_rows);
        let pending = num(cron.pending_rows);
        d.add_signal(
            "Cron backlog: ".to_owned().concat(running.as_str()).concat(" running, ").concat(
                pending.as_str(),
            ).concat(" pending rows"),
            20,
        );
        d.add_measured(
            CausalNodeType::Trigger,
            "Cron",
            running.clone().concat(" jobs running and ").concat(pending.as_str()).concat(
                CRON_COMPETITION,
            ).as_str(),
            pending.clone().concat(" pending").as_str(),
        );
        d.add_remedy(CRON_REMEDY.to_owned());
    }
}

/// The headline and the summary name the mechanisms actually observed.
pub open spec fn worker_headline(pressure: bool, slow: bool, locked: bool) -> (
    Seq<char>,
    Seq<char>,
) {
    if pressure && slow {
        (STARVED_BY_QUERIES@, STARVED_BY_QUERIES_SUMMARY@)
    } else if pressure && locked {
        (STARVED_BY_LOCKS@, STARVED_BY_LOCKS_SUMMARY@)
    } else if pressure {
        (POOL_SATURATED@, POOL_SATURATED_SUMMARY@)
    } else if slow && locked {
        (SLOW_AND_LOCKED@, SLOW_AND_LOCKED_SUMMARY@)
    } else if slow {
        (SLOW_QUERIES@, SLOW_QUERIES_SUMMARY@)
    } else if locked {
        (LOCKS_ONLY@, LOCKS_ONLY_SUMMARY@)
    } else {
        (CRON_ONLY@, CRON_ONLY_SUMMARY@)
    }
}

fn headline(pressure: bool, slow: bool, locked: bool) -> (r: (&'static str, &'static str))
    ensures
        (r.0@, r.1@) == worker_headline(pressure, slow, locked),
{
    if pressure && slow {
        (STARVED_BY_QUERIES, STARVED_BY_QUERIES_SUMMARY)
    } else if pressure && locked {
        (STARVED_BY_LOCKS, STARVED_BY_LOCKS_SUMMARY)
    } else if pressure {
        (POOL_SATURATED, POOL_SATURATED_SUMMARY)
    } else if slow && locked {
        (SLOW_AND_LOCKED, SLOW_AND_LOCKED_SUMMARY)
    } else if slow {
        (SLOW_QUERIES, SLOW_QUERIES_SUMMARY)
    } else if locked {
        (LOCKS_ONLY, LOCKS_ONLY_SUMMARY)
    } else {
        (CRON_ONLY, CRON_ONLY_SUMMARY)
    }
}

/// The evidence on worker exhaustion, slow digests, lock waits and stuck cron jobs.
pub open spec fn worker_draft(
    installation: MagentoInstallation,
    asts: Seq<AstFinding>,
) -> DraftView {
    let db = installation.database_metrics@;
    let pressed = with_pressure(
        DraftView::of(WORKER_SYMPTOM@),
        installation.runtime.php_workers@,
    );
    let slowed = match slowest_digest(db.query_digests) {
        Some(slow) => with_slow_digest(pressed, slow, installation, asts),
        None => pressed,
    };
    let locked = match first_long_lock(db.active_lock_waits) {
        Some(lock) => with_lock(slowed, lock),
        None => slowed,
    };
    with_cron(locked, db.cron_schedule)
}

/// What is diagnosed of gateway timeouts, if anything was measured.
pub open spec fn worker_diagnosis(
    installation: MagentoInstallation,
    asts: Seq<AstFinding>,
) -> Option<InvestigationResultView> {
    let d = worker_draft(installation, asts);
    let db = installation.database_metrics@;
    let (title, summary) = worker_headline(
        has_worker_pressure(installation.runtime.php_workers@),
        slowest_digest(db.query_digests) is Some,
        first_long_lock(db.active_lock_waits) is Some,
    );
    let advised = if d.remediations.len() == 0 {
        d.remedy(WORKER_FALLBACK_REMEDY@)
    } else {
        d
    };
    if d.signals.len() == 0 {
        None
    } else {
        Some(advised.diagnosis(WORKER_TARGET@, title, summary))
    }
}

/// What a diagnosis says, if there is one.
pub open spec fn result_opt(r: Option<InvestigationResult>) -> Option<InvestigationResultView> {
    match r {
        Some(v) => Some(v@),
        None => None,
    }
}

/// Investigates PHP worker exhaustion, slow query digests, and stuck cron jobs causing 504
/// timeouts.
pub fn investigate_worker_saturation_and_timeouts(
    installation: &MagentoInstallation,
    ast_findings: &[AstFinding],
) -> (r: Option<InvestigationResult>)
    ensures
        result_opt(r) == worker_diagnosis(*installation, ast_findings@),
{
    let db = &installation.database_metrics;
    let mut d = Draft::new(WORKER_SYMPTOM);
    let pressure = add_pressure(&mut d, &installation.runtime.php_workers);
    let slowest = find_slowest(db);
    if let Some(i) = slowest {
        add_slow_digest(&mut d, &db.query_digests[i], installation, ast_findings);
    }
    let lock = find_long_lock(db);
    if let Some(i) = lock {
        add_lock(&mut d, &db.active_lock_waits[i]);
    }
    add_cron(&mut d, &db.cron_schedule);
    if d.signals.is_empty() {
        return None;
    }
    let (title, summary) = headline(pressure, slowest.is_some(), lock.is_some());
    if d.remediations.len() == 0 {
        d.add_remedy(WORKER_FALLBACK_REMEDY.to_owned());
    }
    Some(d.diagnose(WORKER_TARGET, title, summary.to_owned()))
}

pub const FPC_TARGET: &'static str = "fpc-ttfb-cache";

pub const FPC_SYMPTOM: &'static str = "High Storefront TTFB & Cache Hit Ratio Collapse";

pub const FPC_TITLE: &'static str =
    "Storefront Full Page Cache Punctured by Layout XML Declarations";

pub const FPC_DECLARE: &'static str = " storefront layout block(s) declare cacheable=\"false\"";

pub const FPC_DECLARE_EXPLICITLY: &'static str =
    " storefront layout block(s) explicitly declare cacheable=\"false\"";

pub const FPC_SUMMARY: &'static str =
    " storefront layout block(s) declare cacheable=\"false\". In Magento 2 that disables Full Page Cache for the entire page, forcing full PHP and MySQL execution on every hit.";

pub const FPC_REMEDY: &'static str =
    ". Fetch dynamic data via customer-data.js or GraphQL instead.";

pub const FPC_CHECK: &'static str =
    "curl -I -H 'X-Magento-Cache-Debug: 1' https://your-store.com/<product-url>";

/// A draft with what one uncacheable block adds.
pub open spec fn with_block(d: DraftView, b: UncacheableBlockView) -> DraftView {
    d.culprit(b.module).step(
        CausalNodeType::Culprit,
        b.module,
        "Block '"@ + b.block_name + "' in "@ + b.layout_handle + " ("@ + forensics_rules::source_line(b)
            + ") disables page caching"@,
    ).remedy(
        "Remove cacheable=\"false\" from "@ + b.block_name + " in "@ + forensics_rules::source_line(b) + FPC_REMEDY@,
    )
}

pub open spec fn with_blocks(d: DraftView, blocks: Seq<UncacheableBlockView>) -> DraftView
    decreases blocks.len(),
{
    if blocks.len() == 0 {
        d
    } else {
        with_block(with_blocks(d, blocks.drop_last()), blocks.last())
    }
}

fn add_blocks(d: &mut Draft, fpc: &FpcProbeStatus)
    ensures
        final(d)@ == with_blocks(old(d)@, fpc@.uncacheable_blocks),
{
    let blocks = &fpc.uncacheable_blocks;
    let ghost all = fpc@.uncacheable_blocks;
    let ghost start = d@;
    let mut i: usize = 0;
    while i < blocks.len()
        invariant
            i <= blocks@.len(),
            all.len() == blocks@.len(),
            forall|k: int| 0 <= k < all.len() ==> #[trigger] all[k] == blocks@[k]@,
            d@ == with_blocks(start, all.take(i as int)),
        decreases blocks@.len() - i,
    {
        assert(all.take(i + 1).drop_last() =~= all.take(i as int));
        assert(all.take(i + 1).last() == all[i as int]);
        let b = &blocks[i];
        d.add_culprit(&b.module);
        d.add_step(
            CausalNodeType::Culprit,
            &b.module,
            "Block '".to_owned().concat(b.block_name.as_str()).concat("' in ").concat(
                b.layout_handle.as_str(),
            ).concat(" (").concat(source_line_text(b).as_str()).concat(
                ") disables page caching",
            ).as_str(),
        );
        d.add_remedy(
            "Remove cacheable=\"false\" from ".to_owned().concat(b.block_name.as_str()).concat(
                " in ",
            ).concat(source_line_text(b).as_str()).concat(FPC_REMEDY),
        );
        i += 1;
    }
    assert(all.take(i as int) =~= all);
}

/// A draft with what one costly loop adds for one block: the block's class has to be the
/// class that the loop is in.
pub open spec fn with_costly_block(
    d: DraftView,
    ast: AstFinding,
    b: UncacheableBlockView,
) -> DraftView {
    let costly = "Costly "@ + ast.call_signature@ + " inside uncacheable block "@ + b.block_name;
    match (b.class_name, text::text_opt(ast.class_name)) {
        (Some(block_class), Some(class)) => if text::contains_text(block_class, class) {
            d.signal(costly, 25).step(CausalNodeType::Mechanism, b.module, costly)
        } else {
            d
        },
        _ => d,
    }
}

pub open spec fn with_costly_blocks(
    d: DraftView,
    ast: AstFinding,
    blocks: Seq<UncacheableBlockView>,
) -> DraftView
    decreases blocks.len(),
{
    if blocks.len() == 0 {
        d
    } else {
        with_costly_block(with_costly_blocks(d, ast, blocks.drop_last()), ast, blocks.last())
    }
}

/// A draft with what the costly loops add.
pub open spec fn with_costly_loops(
    d: DraftView,
    asts: Seq<AstFinding>,
    blocks: Seq<UncacheableBlockView>,
) -> DraftView
    decreases asts.len(),
{
    if asts.len() == 0 {
        d
    } else {
        let before = with_costly_loops(d, asts.drop_last(), blocks);
        if asts.last().in_loop {
            with_costly_blocks(before, asts.last(), blocks)
        } else {
            before
        }
    }
}

fn add_costly_blocks(d: &mut Draft, ast: &AstFinding, fpc: &FpcProbeStatus)
    ensures
        final(d)@ == with_costly_blocks(old(d)@, *ast, fpc@.uncacheable_blocks),
{
    let blocks = &fpc.uncacheable_blocks;
    let ghost all = fpc@.uncacheable_blocks;
    let ghost start = d@;
    let mut i: usize = 0;
    while i < blocks.len()
        invariant
            i <= blocks@.len(),
            all.len() == blocks@.len(),
            forall|k: int| 0 <= k < all.len() ==> #[trigger] all[k] == blocks@[k]@,
            d@ == with_costly_blocks(start, *ast, all.take(i as int)),
        decreases blocks@.len() - i,
    {
        assert(all.take(i + 1).drop_last() =~= all.take(i as int));
        assert(all.take(i + 1).last() == all[i as int]);
        let b = &blocks[i];
        if let (Some(block_class), Some(class)) = (&b.class_name, &ast.class_name) {
            if contains(block_class, class) {
                let costly = "Costly ".to_owned().concat(ast.call_signature.as_str()).concat(
                    " inside uncacheable block ",
                ).concat(b.block_name.as_str());
                d.add_signal(costly.clone(), 25);
                d.add_step(CausalNodeType::Mechanism, &b.module, &costly);
            }
        }
        i += 1;
    }
    assert(all.take(i as int) =~= all);
}

fn add_costly_loops(d: &mut Draft, asts: &[AstFinding], fpc: &FpcProbeStatus)
    ensures
        final(d)@ == with_costly_loops(old(d)@, asts@, fpc@.uncacheable_blocks),
{
    let ghost start = d@;
    let mut i: usize = 0;
    while i < asts.len()
        invariant
            i <= asts@.len(),
            d@ == with_costly_loops(start, asts@.take(i as int), fpc@.uncacheable_blocks),
        decreases asts@.len() - i,
    {
        assert(asts@.take(i + 1).drop_last() =~= asts@.take(i as int));
        if asts[i].in_loop {
            add_costly_blocks(d, &asts[i], fpc);
        }
        i += 1;
    }
    assert(asts@.take(i as int) =~= asts@);
}

/// A measured low cache hit ratio ties the punctures to real cache behaviour.
pub open spec fn with_hit_ratio(d: DraftView, cache: RedisStatusView) -> DraftView {
    match cache.hit_ratio {
        Some(r) => if cache.is_reachable && r.0 * 10 < 7 * r.1 {
            d.signal("Redis cache hit ratio measured at "@ + number::fixed(r.0 * 100, r.1, 1) + "%"@, 30)
        } else {
            d
        },
        None => d,
    }
}

/// What is diagnosed of a punctured page cache. Reading `cacheable="false"` out of layout
/// XML is a fact about the code, so it is strong evidence on its own.
pub open spec fn fpc_diagnosis(
    installation: MagentoInstallation,
    asts: Seq<AstFinding>,
) -> Option<InvestigationResultView> {
    let blocks = installation.runtime.fpc@.uncacheable_blocks;
    let count = number::dec(blocks.len());
    if blocks.len() == 0 {
        None
    } else {
        let found = DraftView::of(FPC_SYMPTOM@).signal(count + FPC_DECLARE@, 55).measured(
            CausalNodeType::Symptom,
            "Full Page Cache"@,
            count + FPC_DECLARE_EXPLICITLY@,
            count + " uncacheable blocks"@,
        );
        let d = with_hit_ratio(
            with_costly_loops(with_blocks(found, blocks), asts, blocks),
            installation.runtime.redis_default@,
        ).verify(FPC_CHECK@);
        Some(d.diagnosis(FPC_TARGET@, FPC_TITLE@, count + FPC_SUMMARY@))
    }
}

/// Investigates Full Page Cache bypass caused by layout XML `cacheable="false"` punctures.
pub fn investigate_fpc_punctures_and_ttfb(
    installation: &MagentoInstallation,
    ast_findings: &[AstFinding],
) -> (r: Option<InvestigationResult>)
    ensures
        result_opt(r) == fpc_diagnosis(*installation, ast_findings@),
{
    let fpc = &installation.runtime.fpc;
    if fpc.uncacheable_blocks.len() == 0 {
        return None;
    }
    let count = wide_num(fpc.uncacheable_blocks.len() as u128);
    let mut d = Draft::new(FPC_SYMPTOM);
    d.add_signal(count.clone().concat(FPC_DECLARE), 55);
    d.add_measured(
        CausalNodeType::Symptom,
        "Full Page Cache",
        count.clone().concat(FPC_DECLARE_EXPLICITLY).as_str(),
        count.clone().concat(" uncacheable blocks").as_str(),
    );
    add_blocks(&mut d, fpc);
    add_costly_loops(&mut d, ast_findings, fpc);
    let cache = &installation.runtime.redis_default;
    if let Some(ratio) = cache.hit_ratio {
        if cache.is_reachable && ratio.below(7, 10) {
            d.add_signal(
                "Redis cache hit ratio measured at ".to_owned().concat(
                    ratio.percent_text().as_str(),
                ).concat("%"),
                30,
            );
        }
    }
    d.add_verification(FPC_CHECK);
    Some(d.diagnose(FPC_TARGET, FPC_TITLE, count.concat(FPC_SUMMARY)))
}

pub const SESSION_TARGET: &'static str = "session-cart-logouts";

pub const SESSION_SYMPTOM: &'static str =
    "Customers Unexpectedly Logged Out & Empty Shopping Carts";

pub const COLLISION_SIGNAL: &'static str =
    "env.php shares one Redis database between sessions and cache";

pub const COLLISION_MECHANISM: &'static str =
    "Session storage shares a database index or instance with the default/FPC cache, so a cache flush also clears sessions";

pub const COLLISION_REMEDY: &'static str =
    "Separate the Redis session database from cache storage in app/etc/env.php.";

pub const POLICY_REMEDY: &'static str =
    "Set the session instance to 'volatile-lru' (Adobe's documented setting, which only evicts expired sessions) or 'noeviction' with sufficient maxmemory.";

pub const POLICY_CHECK: &'static str = "redis-cli -h <session_host> CONFIG GET maxmemory-policy";

pub const EVICTION_REMEDY: &'static str =
    "Raise maxmemory on the session instance so sessions are not evicted at all.";

pub const EVICTION_CHECK: &'static str =
    "redis-cli -h <session_host> INFO stats | grep evicted_keys";

pub const PURGED: &'static str =
    "Customer Session Purging Caused by Redis Eviction Under Memory Pressure";

pub const PURGED_SUMMARY: &'static str =
    "The Redis instance holding PHP sessions is discarding keys under memory pressure, losing active carts and logging customers out.";

pub const SHARED: &'static str = "Session and Cache Storage Share One Redis Database";

pub const SHARED_SUMMARY: &'static str =
    "app/etc/env.php points sessions and cache at the same Redis database, so any cache flush or cache eviction also destroys active customer sessions. No live eviction was measured.";

/// Whether the policy of a reachable session instance discards live sessions.
pub open spec fn has_unsafe_policy(session: RedisStatusView) -> bool {
    session.is_reachable && match session.maxmemory_policy {
        Some(p) => forensics_rules::is_unsafe_policy(p),
        None => false,
    }
}

/// Whether a reachable session instance of its own evicted keys.
pub open spec fn has_own_evictions(session: RedisStatusView, cache: RedisStatusView) -> bool {
    session.is_reachable && number::positive(session.evicted_keys) && !forensics_rules::same_instance(session, cache)
}

pub open spec fn with_collision(d: DraftView) -> DraftView {
    d.signal(COLLISION_SIGNAL@, 30).step(
        CausalNodeType::Mechanism,
        "Redis Config"@,
        COLLISION_MECHANISM@,
    ).remedy(COLLISION_REMEDY@)
}

pub open spec fn with_policy(d: DraftView, policy: Seq<char>, evicted: Seq<char>) -> DraftView {
    d.signal(
        "Session Redis maxmemory-policy is '"@ + policy + "', which ignores TTLs"@,
        50,
    ).measured(
        CausalNodeType::Culprit,
        "Redis Server"@,
        "Session instance policy '"@ + policy + "' evicts keys regardless of TTL"@,
        evicted + " evicted keys"@,
    ).remedy(POLICY_REMEDY@).verify(POLICY_CHECK@)
}

pub open spec fn with_evictions(d: DraftView, evicted: Seq<char>, named: bool) -> DraftView {
    let counted = d.signal(evicted + " keys evicted on the dedicated session instance"@, 40);
    (if named {
        counted
    } else {
        counted.measured(
            CausalNodeType::Culprit,
            "Redis Server"@,
            evicted + " keys evicted from the session instance under memory pressure"@,
            evicted + " evicted keys"@,
        )
    }).remedy(EVICTION_REMEDY@).verify(EVICTION_CHECK@)
}

/// The evidence on lost sessions.
pub open spec fn session_draft(installation: MagentoInstallation) -> DraftView {
    let session = installation.runtime.redis_session@;
    let cache = installation.runtime.redis_default@;
    let evicted = number::dec(number::count_or_zero(session.evicted_keys) as nat);
    let start = DraftView::of(SESSION_SYMPTOM@);
    let collided = if redis_check::redis_issues(installation.env_config@).len() > 0 {
        with_collision(start)
    } else {
        start
    };
    let judged = match session.maxmemory_policy {
        Some(policy) if has_unsafe_policy(session) => with_policy(collided, policy, evicted),
        _ => collided,
    };
    if has_own_evictions(session, cache) {
        with_evictions(judged, evicted, has_unsafe_policy(session))
    } else {
        judged
    }
}

/// What is diagnosed of lost sessions: an unsafe policy, evictions or a shared database.
pub open spec fn session_diagnosis(
    installation: MagentoInstallation,
) -> Option<InvestigationResultView> {
    let session = installation.runtime.redis_session@;
    let cache = installation.runtime.redis_default@;
    let purged = has_unsafe_policy(session) || has_own_evictions(session, cache);
    if !purged && redis_check::redis_issues(installation.env_config@).len() == 0 {
        None
    } else {
        let d = session_draft(installation);
        Some(
            if purged {
                d.diagnosis(SESSION_TARGET@, PURGED@, PURGED_SUMMARY@)
            } else {
                d.diagnosis(SESSION_TARGET@, SHARED@, SHARED_SUMMARY@)
            },
        )
    }
}

/// Investigates customer cart drops and random logouts due to Redis session eviction or
/// database-index collision.
pub fn investigate_session_eviction_and_logouts(installation: &MagentoInstallation) -> (r: Option<
    InvestigationResult,
>)
    ensures
        result_opt(r) == session_diagnosis(*installation),
{
    let session = &installation.runtime.redis_session;
    let collisions = check_redis_config(&installation.env_config);
    let has_collision = collisions.len() > 0;
    assert(has_collision == (redis_check::redis_issues(installation.env_config@).len() > 0)) by {
        assert(collisions@.map_values(|i: RedisIssue| i@).len() == collisions@.len());
    }
    let unsafe_policy = session.is_reachable && match &session.maxmemory_policy {
        Some(p) => starts_with(p, SESSION_UNSAFE_POLICY_PREFIX),
        None => false,
    };
    let own_evictions = session.is_reachable && is_positive(session.evicted_keys)
        && !shares_instance(session, &installation.runtime.redis_default);
    if !unsafe_policy && !own_evictions && !has_collision {
        return None;
    }
    let evicted = num(or_zero(session.evicted_keys));
    let mut d = Draft::new(SESSION_SYMPTOM);
    if has_collision {
        d.add_signal(COLLISION_SIGNAL.to_owned(), 30);
        d.add_step(CausalNodeType::Mechanism, "Redis Config", COLLISION_MECHANISM);
        d.add_remedy(COLLISION_REMEDY.to_owned());
    }
    if let Some(policy) = &session.maxmemory_policy {
        if unsafe_policy {
            d.add_signal(
                "Session Redis maxmemory-policy is '".to_owned().concat(policy.as_str()).concat(
                    "', which ignores TTLs",
                ),
                50,
            );
            d.add_measured(
                CausalNodeType::Culprit,
                "Redis Server",
                "Session instance policy '".to_owned().concat(policy.as_str()).concat(
                    "' evicts keys regardless of TTL",
                ).as_str(),
                evicted.clone().concat(" evicted keys").as_str(),
            );
            d.add_remedy(POLICY_REMEDY.to_owned());
            d.add_verification(POLICY_CHECK);
        }
    }
    if own_evictions {
        d.add_signal(
            evicted.clone().concat(" keys evicted on the dedicated session instance"),
            40,
        );
        if !unsafe_policy {
            d.add_measured(
                CausalNodeType::Culprit,
                "Redis Server",
                evicted.clone().concat(
                    " keys evicted from the session instance under memory pressure",
                ).as_str(),
                evicted.clone().concat(" evicted keys").as_str(),
            );
        }
        d.add_remedy(EVICTION_REMEDY.to_owned());
        d.add_verification(EVICTION_CHECK);
    }
    Some(
        if unsafe_policy || own_evictions {
            d.diagnose(SESSION_TARGET, PURGED, PURGED_SUMMARY.to_owned())
        } else {
            d.diagnose(SESSION_TARGET, SHARED, SHARED_SUMMARY.to_owned())
        },
    )
}

pub const CHECKOUT_TARGET: &'static str = "checkout-order-hang";

pub const CHECKOUT_SYMPTOM: &'static str =
    "Checkout 'Place Order' Freezes & Quote Lock Contention";

pub const HOT_PLUGIN_SIGNAL: &'static str =
    " around plugin(s) intercept QuoteManagement/CartRepository";

pub const HOT_PLUGIN_SYMPTOM: &'static str =
    " around plugin(s) wrap the order placement path, so their execution time is added to every order";

pub const HTTP_IN_PLUGIN: &'static str =
    "Synchronous External Network Calls Intercepting Checkout Hot Path";

pub const HTTP_IN_PLUGIN_SUMMARY: &'static str =
    "A custom extension wraps Magento order placement with an around plugin that performs a synchronous external HTTP request, adding its full latency to every order.";

pub const QUOTE_LOCKED: &'static str =
    "Order Placement Serialised by Quote Table Lock Contention";

pub const QUOTE_LOCKED_SUMMARY: &'static str =
    "Around plugins wrap the order placement path while MySQL reports a confirmed lock wait on a quote/sales table, serialising checkout submissions.";

pub const INTERCEPTED: &'static str = "Around Plugins Intercept the Order Placement Hot Path";

pub const INTERCEPTED_SUMMARY: &'static str =
    "Around plugins wrap QuoteManagement or CartRepository, so their execution time is added to every order. No synchronous HTTP call or lock wait was found inside them, so this is an area to review rather than a confirmed stall.";

pub const REVIEW_REMEDY: &'static str =
    ") for external calls, heavy loops, and unnecessary interception; prefer before/after plugins where possible.";

pub const QUEUE_REMEDY: &'static str = "' into a message queue or an async consumer.";

pub const CHECKOUT_CHECK: &'static str =
    "Time an order placement end to end, then compare with the plugin disabled.";

/// Whether a plugin wraps the order placement path.
pub open spec fn is_hot_plugin(p: Plugin) -> bool {
    (text::contains_text(p.target_class@, "QuoteManagement"@) || text::contains_text(
        p.target_class@,
        "CartRepository"@,
    )) && p.plugin_type == PluginType::Around
}

pub fn wraps_order_path(p: &Plugin) -> (r: bool)
    ensures
        r == is_hot_plugin(*p),
{
    (contains(&p.target_class, "QuoteManagement") || contains(&p.target_class, "CartRepository"))
        && p.plugin_type == PluginType::Around
}

pub open spec fn hot_plugin_count(plugins: Seq<Plugin>) -> nat
    decreases plugins.len(),
{
    if plugins.len() == 0 {
        0
    } else {
        hot_plugin_count(plugins.drop_last()) + (if is_hot_plugin(plugins.last()) {
            1nat
        } else {
            0nat
        })
    }
}

fn count_hot_plugins(plugins: &Vec<Plugin>) -> (r: usize)
    ensures
        r == hot_plugin_count(plugins@),
{
    let mut count: usize = 0;
    let mut i: usize = 0;
    while i < plugins.len()
        invariant
            i <= plugins@.len(),
            count == hot_plugin_count(plugins@.take(i as int)),
            count <= i,
        decreases plugins@.len() - i,
    {
        assert(plugins@.take(i + 1).drop_last() =~= plugins@.take(i as int));
        if wraps_order_path(&plugins[i]) {
            count += 1;
        }
        i += 1;
    }
    assert(plugins@.take(i as int) =~= plugins@);
    count
}

/// A draft with the plugins on the order placement path.
pub open spec fn with_hot_plugins(d: DraftView, plugins: Seq<Plugin>) -> DraftView
    decreases plugins.len(),
{
    if plugins.len() == 0 {
        d
    } else {
        let before = with_hot_plugins(d, plugins.drop_last());
        let p = plugins.last();
        if is_hot_plugin(p) {
            before.culprit(p.module@).step(
                CausalNodeType::Mechanism,
                p.module@,
                "Around plugin '"@ + p.name@ + "' wraps "@ + p.target_class@ + " ("@
                    + p.source_file@ + ")"@,
            )
        } else {
            before
        }
    }
}

fn add_hot_plugins(d: &mut Draft, plugins: &Vec<Plugin>)
    ensures
        final(d)@ == with_hot_plugins(old(d)@, plugins@),
{
    let ghost start = d@;
    let mut i: usize = 0;
    while i < plugins.len()
        invariant
            i <= plugins@.len(),
            d@ == with_hot_plugins(start, plugins@.take(i as int)),
        decreases plugins@.len() - i,
    {
        assert(plugins@.take(i + 1).drop_last() =~= plugins@.take(i as int));
        let p = &plugins[i];
        if wraps_order_path(p) {
            d.add_culprit(&p.module);
            d.add_step(
                CausalNodeType::Mechanism,
                &p.module,
                "Around plugin '".to_owned().concat(p.name.as_str()).concat("' wraps ").concat(
                    p.target_class.as_str(),
                ).concat(" (").concat(p.source_file.as_str()).concat(")").as_str(),
            );
        }
        i += 1;
    }
    assert(plugins@.take(i as int) =~= plugins@);
}

/// Whether static analysis found a synchronous HTTP call in the class of a plugin.
pub open spec fn calls_out(p: Plugin, ast: AstFinding) -> bool {
    ast.operation == OperationType::HttpRequest && match text::text_opt(ast.class_name) {
        Some(class) => text::contains_text(p.plugin_class@, class),
        None => false,
    }
}

pub open spec fn with_call(d: DraftView, p: Plugin, ast: AstFinding) -> DraftView {
    if !calls_out(p, ast) {
        d
    } else {
        d.signal(
            "Synchronous "@ + ast.call_signature@ + " inside around plugin '"@ + p.name@ + "'"@,
            45,
        ).step(
            CausalNodeType::Culprit,
            p.module@,
            "Around plugin '"@ + p.name@ + "' makes a synchronous HTTP call ("@
                + ast.call_signature@ + ") during quote submission at "@ + p.source_file@ + ":"@
                + number::dec(ast.line_number as nat),
        ).remedy(
            "Move the network call out of around plugin '"@ + p.name@ + "' in module '"@ + p.module@
                + QUEUE_REMEDY@,
        )
    }
}

pub open spec fn with_calls(d: DraftView, p: Plugin, asts: Seq<AstFinding>) -> DraftView
    decreases asts.len(),
{
    if asts.len() == 0 {
        d
    } else {
        with_call(with_calls(d, p, asts.drop_last()), p, asts.last())
    }
}

/// A draft with the HTTP calls in the plugins on the order placement path.
pub open spec fn with_plugin_calls(
    d: DraftView,
    plugins: Seq<Plugin>,
    asts: Seq<AstFinding>,
) -> DraftView
    decreases plugins.len(),
{
    if plugins.len() == 0 {
        d
    } else {
        let before = with_plugin_calls(d, plugins.drop_last(), asts);
        if is_hot_plugin(plugins.last()) {
            with_calls(before, plugins.last(), asts)
        } else {
            before
        }
    }
}

/// Whether a plugin makes a call that static analysis found.
pub open spec fn has_call(p: Plugin, asts: Seq<AstFinding>) -> bool {
    exists|j: int| 0 <= j < asts.len() && calls_out(p, #[trigger] asts[j])
}

/// Whether some plugin on the order placement path makes a synchronous HTTP call.
pub open spec fn has_plugin_call(plugins: Seq<Plugin>, asts: Seq<AstFinding>) -> bool {
    exists|i: int|
        0 <= i < plugins.len() && is_hot_plugin(#[trigger] plugins[i]) && has_call(plugins[i], asts)
}

fn add_call(d: &mut Draft, p: &Plugin, ast: &AstFinding) -> (called: bool)
    ensures
        called == calls_out(*p, *ast),
        final(d)@ == with_call(old(d)@, *p, *ast),
{
    let called = ast.operation == OperationType::HttpRequest && match &ast.class_name {
        Some(class) => contains(&p.plugin_class, class),
        None => false,
    };
    if called {
        d.add_signal(
            "Synchronous ".to_owned().concat(ast.call_signature.as_str()).concat(
                " inside around plugin '",
            ).concat(p.name.as_str()).concat("'"),
            45,
        );
        d.add_step(
            CausalNodeType::Culprit,
            &p.module,
            "Around plugin '".to_owned().concat(p.name.as_str()).concat(
                "' makes a synchronous HTTP call (",
            ).concat(ast.call_signature.as_str()).concat(") during quote submission at ").concat(
                p.source_file.as_str(),
            ).concat(":").concat(num(ast.line_number).as_str()).as_str(),
        );
        d.add_remedy(
            "Move the network call out of around plugin '".to_owned().concat(
                p.name.as_str(),
            ).concat("' in module '").concat(p.module.as_str()).concat(QUEUE_REMEDY),
        );
    }
    called
}

fn add_calls(d: &mut Draft, p: &Plugin, asts: &[AstFinding]) -> (called: bool)
    ensures
        called == has_call(*p, asts@),
        final(d)@ == with_calls(old(d)@, *p, asts@),
{
    let ghost start = d@;
    let mut called = false;
    let mut i: usize = 0;
    while i < asts.len()
        invariant
            i <= asts@.len(),
            called == exists|j: int| 0 <= j < i && calls_out(*p, #[trigger] asts@[j]),
            d@ == with_calls(start, *p, asts@.take(i as int)),
        decreases asts@.len() - i,
    {
        assert(asts@.take(i + 1).drop_last() =~= asts@.take(i as int));
        if add_call(d, p, &asts[i]) {
            called = true;
            assert(calls_out(*p, asts@[i as int]));
        }
        i += 1;
    }
    assert(asts@.take(i as int) =~= asts@);
    called
}

fn add_plugin_calls(d: &mut Draft, plugins: &Vec<Plugin>, asts: &[AstFinding]) -> (called: bool)
    ensures
        called == has_plugin_call(plugins@, asts@),
        final(d)@ == with_plugin_calls(old(d)@, plugins@, asts@),
{
    let ghost start = d@;
    let mut called = false;
    let mut i: usize = 0;
    while i < plugins.len()
        invariant
            i <= plugins@.len(),
            called == exists|k: int|
                0 <= k < i && is_hot_plugin(#[trigger] plugins@[k]) && has_call(plugins@[k], asts@),
            d@ == with_plugin_calls(start, plugins@.take(i as int), asts@),
        decreases plugins@.len() - i,
    {
        assert(plugins@.take(i + 1).drop_last() =~= plugins@.take(i as int));
        if wraps_order_path(&plugins[i]) {
            if add_calls(d, &plugins[i], asts) {
                called = true;
                assert(is_hot_plugin(plugins@[i as int]) && has_call(plugins@[i as int], asts@));
            }
        }
        i += 1;
    }
    assert(plugins@.take(i as int) =~= plugins@);
    called
}

/// Whether a confirmed lock wait is on a quote or sales table.
pub open spec fn is_order_lock(lock: ActiveLockWaitView) -> bool {
    lock.is_confirmed_lock_wait && match lock.table_name {
        Some(t) => text::has_prefix(t, "quote"@) || text::has_prefix(t, "sales_"@),
        None => false,
    }
}

/// The first lock wait on a quote or sales table.
pub open spec fn first_order_lock(locks: Seq<ActiveLockWaitView>) -> Option<ActiveLockWaitView>
    decreases locks.len(),
{
    if locks.len() == 0 {
        None
    } else if is_order_lock(locks[0]) {
        Some(locks[0])
    } else {
        first_order_lock(locks.drop_first())
    }
}

fn find_order_lock(db: &DatabaseMetrics) -> (r: Option<usize>)
    ensures
        r matches Some(i) ==> i < db.active_lock_waits@.len() && first_order_lock(
            db@.active_lock_waits,
        ) == Some(db.active_lock_waits@[i as int]@),
        r is None ==> first_order_lock(db@.active_lock_waits) is None,
{
    let locks = &db.active_lock_waits;
    let ghost all = db@.active_lock_waits;
    let mut i: usize = 0;
    assert(all.skip(0) =~= all);
    while i < locks.len()
        invariant
            i <= locks@.len(),
            all == db@.active_lock_waits,
            locks == db.active_lock_waits,
            first_order_lock(all) == first_order_lock(all.skip(i as int)),
        decreases locks@.len() - i,
    {
        assert(all.skip(i as int).drop_first() =~= all.skip(i + 1));
        assert(all.skip(i as int)[0] == all[i as int]);
        let on_orders = match &locks[i].table_name {
            Some(t) => starts_with(t, "quote") || starts_with(t, "sales_"),
            None => false,
        };
        if locks[i].is_confirmed_lock_wait && on_orders {
            return Some(i);
        }
        i += 1;
    }
    None
}

pub open spec fn with_order_lock(d: DraftView, lock: ActiveLockWaitView) -> DraftView {
    let secs = number::dec(lock.wait_time_secs as nat);
    d.signal(
        "Confirmed lock wait of "@ + secs + "s on "@ + text::text_or(
            lock.table_name,
            "a quote/sales table"@,
        ),
        35,
    ).measured(
        CausalNodeType::Mechanism,
        "MySQL"@,
        "Transaction blocked "@ + secs + "s on "@ + text::text_or(lock.table_name, "a quote table"@)
            + ", serialising order placement"@,
        secs + "s wait"@,
    )
}

fn add_order_lock(d: &mut Draft, lock: &ActiveLockWait)
    ensures
        final(d)@ == with_order_lock(old(d)@, lock@),
{
    let secs = num(lock.wait_time_secs);
    d.add_signal(
        "Confirmed lock wait of ".to_owned().concat(secs.as_str()).concat("s on ").concat(
            str_or(&lock.table_name, "a quote/sales table"),
        ),
        35,
    );
    d.add_measured(
        CausalNodeType::Mechanism,
        "MySQL",
        "Transaction blocked ".to_owned().concat(secs.as_str()).concat("s on ").concat(
            str_or(&lock.table_name, "a quote table"),
        ).concat(", serialising order placement").as_str(),
        secs.clone().concat("s wait").as_str(),
    );
}

/// The evidence on a stalling checkout, with at least one plugin on the order path.
pub open spec fn checkout_draft(
    installation: MagentoInstallation,
    asts: Seq<AstFinding>,
) -> DraftView {
    let plugins = installation.plugins@;
    let count = number::dec(hot_plugin_count(plugins));
    let counted = DraftView::of(CHECKOUT_SYMPTOM@).signal(count + HOT_PLUGIN_SIGNAL@, 25).step(
        CausalNodeType::Symptom,
        "Storefront Checkout"@,
        count + HOT_PLUGIN_SYMPTOM@,
    );
    let called = with_plugin_calls(with_hot_plugins(counted, plugins), plugins, asts);
    let locked = match first_order_lock(installation.database_metrics@.active_lock_waits) {
        Some(lock) => with_order_lock(called, lock),
        None => called,
    };
    (if locked.remediations.len() == 0 {
        locked.remedy(
            "Review the around plugin(s) on the order placement path ("@ + text::joined(
                locked.culprits,
                ", "@,
            ) + REVIEW_REMEDY@,
        )
    } else {
        locked
    }).verify(CHECKOUT_CHECK@)
}

/// What is diagnosed of a stalling checkout. An around plugin on the order path is common;
/// only an HTTP call inside one turns it into a stall diagnosis.
pub open spec fn checkout_diagnosis(
    installation: MagentoInstallation,
    asts: Seq<AstFinding>,
) -> Option<InvestigationResultView> {
    let d = checkout_draft(installation, asts);
    if hot_plugin_count(installation.plugins@) == 0 {
        None
    } else if has_plugin_call(installation.plugins@, asts) {
        Some(d.diagnosis(CHECKOUT_TARGET@, HTTP_IN_PLUGIN@, HTTP_IN_PLUGIN_SUMMARY@))
    } else if first_order_lock(installation.database_metrics@.active_lock_waits) is Some {
        Some(d.diagnosis(CHECKOUT_TARGET@, QUOTE_LOCKED@, QUOTE_LOCKED_SUMMARY@))
    } else {
        Some(d.diagnosis(CHECKOUT_TARGET@, INTERCEPTED@, INTERCEPTED_SUMMARY@))
    }
}

/// Investigates checkout stalls and hanging order buttons.
pub fn investigate_checkout_stalls(
    installation: &MagentoInstallation,
    ast_findings: &[AstFinding],
) -> (r: Option<InvestigationResult>)
    ensures
        result_opt(r) == checkout_diagnosis(*installation, ast_findings@),
{
    let hot = count_hot_plugins(&installation.plugins);
    if hot == 0 {
        return None;
    }
    let count = wide_num(hot as u128);
    let mut d = Draft::new(CHECKOUT_SYMPTOM);
    d.add_signal(count.clone().concat(HOT_PLUGIN_SIGNAL), 25);
    d.add_step(
        CausalNodeType::Symptom,
        "Storefront Checkout",
        count.concat(HOT_PLUGIN_SYMPTOM).as_str(),
    );
    add_hot_plugins(&mut d, &installation.plugins);
    let called = add_plugin_calls(&mut d, &installation.plugins, ast_findings);
    let lock = find_order_lock(&installation.database_metrics);
    if let Some(i) = lock {
        add_order_lock(&mut d, &installation.database_metrics.active_lock_waits[i]);
    }
    if d.remediations.len() == 0 {
        let line = "Review the around plugin(s) on the order placement path (".to_owned().concat(
            join(&d.culprits, ", ").as_str(),
        ).concat(REVIEW_REMEDY);
        d.add_remedy(line);
    }
    d.add_verification(CHECKOUT_CHECK);
    Some(
        if called {
            d.diagnose(CHECKOUT_TARGET, HTTP_IN_PLUGIN, HTTP_IN_PLUGIN_SUMMARY.to_owned())
        } else if lock.is_some() {
            d.diagnose(CHECKOUT_TARGET, QUOTE_LOCKED, QUOTE_LOCKED_SUMMARY.to_owned())
        } else {
            d.diagnose(CHECKOUT_TARGET, INTERCEPTED, INTERCEPTED_SUMMARY.to_owned())
        },
    )
}

pub const SEARCH_TARGET: &'static str = "search-catalog-500";

pub const SEARCH_SYMPTOM: &'static str = "Catalog Search Failures & HTTP 500 on Category Pages";

pub const RED_SIGNAL: &'static str = "Cluster health is red";

pub const RED_SYMPTOM: &'static str =
    "OpenSearch cluster health is red: primary shards are unavailable";

pub const RED_REMEDY: &'static str =
    "Recover the red indices via GET /_cluster/allocation/explain before reindexing.";

pub const SHARDS_REMEDY: &'static str =
    "Check data node disk space and shard allocation settings.";

pub const NO_INDEX_SIGNAL: &'static str =
    "Index listing confirmed no product or category index exists";

pub const NO_INDEX_CULPRIT: &'static str =
    "No product or category search index exists in the cluster";

pub const REINDEX_REMEDY: &'static str =
    "Execute bin/magento indexer:reindex catalogsearch_fulltext.";

pub const INDEX_MISSING: &'static str = "Catalog Search Index Missing From a Healthy Cluster";

pub const SHARDS_AND_INDEX: &'static str =
    "OpenSearch Shard Degradation With No Catalog Search Index";

pub const SHARDS_DEGRADED: &'static str = "OpenSearch Cluster Shard Degradation";

pub const SEARCH_CHECK: &'static str = "curl -s '<host>:9200/_cluster/health?pretty'";

pub const NO_INDEX_CLAUSE: &'static str = ", and no Magento catalog index is present";

/// Whether a cluster reports red.
pub open spec fn is_red(os: OpenSearchStatusView) -> bool {
    os.status == Some("red"@)
}

/// Whether a cluster of more than one node leaves shards unassigned.
pub open spec fn has_unassigned(os: OpenSearchStatusView) -> bool {
    forensics_rules::small_or_zero(os.unassigned_shards) > 0 && !forensics_rules::is_single_node(os)
}

/// The evidence on a failing search.
pub open spec fn search_draft(os: OpenSearchStatusView) -> DraftView {
    let unassigned = number::dec(forensics_rules::small_or_zero(os.unassigned_shards) as nat);
    let nodes = number::dec(forensics_rules::small_or_zero(os.number_of_nodes) as nat);
    let start = DraftView::of(SEARCH_SYMPTOM@);
    let health = if is_red(os) {
        start.signal(RED_SIGNAL@, 50).measured(
            CausalNodeType::Symptom,
            "Catalog Navigation"@,
            RED_SYMPTOM@,
            unassigned + " unassigned shards"@,
        ).remedy(RED_REMEDY@)
    } else if has_unassigned(os) {
        start.signal(
            unassigned + " unassigned shards across "@ + nodes + " nodes"@,
            30,
        ).measured(
            CausalNodeType::Symptom,
            "Catalog Navigation"@,
            unassigned + " shards unassigned on a "@ + nodes + "-node cluster"@,
            unassigned + " unassigned shards"@,
        ).remedy(SHARDS_REMEDY@)
    } else {
        start
    };
    (if forensics_rules::lacks_catalog_index(os) {
        health.signal(NO_INDEX_SIGNAL@, 45).step(
            CausalNodeType::Culprit,
            "OpenSearch / Indexer"@,
            NO_INDEX_CULPRIT@,
        ).remedy(REINDEX_REMEDY@)
    } else {
        health
    }).culprit("Magento_CatalogSearch"@).verify(SEARCH_CHECK@)
}

/// What is diagnosed of a failing search. Index absence is only a fact when the listing was
/// read, and a single node is yellow by design.
pub open spec fn search_diagnosis(os: OpenSearchStatusView) -> Option<InvestigationResultView> {
    let missing = forensics_rules::lacks_catalog_index(os);
    let degraded = is_red(os) || has_unassigned(os);
    if !os.is_reachable || (!degraded && !missing) {
        None
    } else {
        Some(
            search_draft(os).diagnosis(
                SEARCH_TARGET@,
                if missing && !degraded {
                    INDEX_MISSING@
                } else if missing {
                    SHARDS_AND_INDEX@
                } else {
                    SHARDS_DEGRADED@
                },
                "Cluster '"@ + text::text_or(os.cluster_name, "unknown"@) + "' reports status '"@
                    + text::text_or(os.status, "unknown"@) + "' with "@ + number::dec(
                    forensics_rules::small_or_zero(os.unassigned_shards) as nat,
                ) + " unassigned shards across "@ + number::dec(forensics_rules::small_or_zero(os.number_of_nodes) as nat)
                    + " node(s)"@ + (if missing {
                    NO_INDEX_CLAUSE@
                } else {
                    Seq::empty()
                }) + "."@,
            ),
        )
    }
}

/// Investigates search engine failures, catalog 500 errors, and missing indices.
pub fn investigate_search_degradation(installation: &MagentoInstallation) -> (r: Option<
    InvestigationResult,
>)
    ensures
        result_opt(r) == search_diagnosis(installation.runtime.opensearch@),
{
    let os = &installation.runtime.opensearch;
    if !os.is_reachable {
        return None;
    }
    let shards: u32 = small_count(os.unassigned_shards);
    let node_count: u32 = small_count(os.number_of_nodes);
    let red = match &os.status {
        Some(s) => same(s, "red"),
        None => false,
    };
    let unassigned_shards = shards > 0 && !(node_count <= 1);
    let missing = os.catalog_index_probe.is_success() && !os.has_catalog_index;
    if !red && !unassigned_shards && !missing {
        return None;
    }
    let unassigned = num(shards as u64);
    let nodes = num(node_count as u64);
    let mut d = Draft::new(SEARCH_SYMPTOM);
    if red {
        d.add_signal(RED_SIGNAL.to_owned(), 50);
        d.add_measured(
            CausalNodeType::Symptom,
            "Catalog Navigation",
            RED_SYMPTOM,
            unassigned.clone().concat(" unassigned shards").as_str(),
        );
        d.add_remedy(RED_REMEDY.to_owned());
    } else if unassigned_shards {
        d.add_signal(
            unassigned.clone().concat(" unassigned shards across ").concat(nodes.as_str()).concat(
                " nodes",
            ),
            30,
        );
        d.add_measured(
            CausalNodeType::Symptom,
            "Catalog Navigation",
            unassigned.clone().concat(" shards unassigned on a ").concat(nodes.as_str()).concat(
                "-node cluster",
            ).as_str(),
            unassigned.clone().concat(" unassigned shards").as_str(),
        );
        d.add_remedy(SHARDS_REMEDY.to_owned());
    }
    if missing {
        d.add_signal(NO_INDEX_SIGNAL.to_owned(), 45);
        d.add_step(CausalNodeType::Culprit, "OpenSearch / Indexer", NO_INDEX_CULPRIT);
        d.add_remedy(REINDEX_REMEDY.to_owned());
    }
    d.add_culprit("Magento_CatalogSearch");
    d.add_verification(SEARCH_CHECK);
    let title = if missing && !red && !unassigned_shards {
        INDEX_MISSING
    } else if missing {
        SHARDS_AND_INDEX
    } else {
        SHARDS_DEGRADED
    };
    let mut summary = "Cluster '".to_owned().concat(str_or(&os.cluster_name, "unknown")).concat(
        "' reports status '",
    ).concat(str_or(&os.status, "unknown")).concat("' with ").concat(unassigned.as_str()).concat(
        " unassigned shards across ",
    ).concat(nodes.as_str()).concat(" node(s)");
    let ghost head = summary@;
    if missing {
        summary = summary.concat(NO_INDEX_CLAUSE);
    } else {
        assert(head + Seq::empty() =~= head);
    }
    summary = summary.concat(".");
    Some(d.diagnose(SEARCH_TARGET, title, summary))
}

/// The diagnoses that there are, in the order of the investigations.
pub open spec fn present(list: Seq<Option<InvestigationResultView>>) -> Seq<InvestigationResultView>
    decreases list.len(),
{
    if list.len() == 0 {
        Seq::empty()
    } else {
        match list.last() {
            Some(r) => present(list.drop_last()).push(r),
            None => present(list.drop_last()),
        }
    }
}

/// All diagnoses of a store.
pub open spec fn all_diagnoses(
    installation: MagentoInstallation,
    asts: Seq<AstFinding>,
) -> Seq<InvestigationResultView> {
    present(
        seq![
            worker_diagnosis(installation, asts),
            fpc_diagnosis(installation, asts),
            session_diagnosis(installation),
            checkout_diagnosis(installation, asts),
            search_diagnosis(installation.runtime.opensearch@),
        ],
    )
}

proof fn lemma_results_push(s: Seq<InvestigationResult>, r: InvestigationResult)
    ensures
        causal::result_views(s.push(r)) == causal::result_views(s).push(r@),
{
    assert(causal::result_views(s.push(r)) =~= causal::result_views(s).push(r@));
}

fn push_present(list: &mut Vec<InvestigationResult>, r: Option<InvestigationResult>)
    ensures
        causal::result_views(final(list)@) == match result_opt(r) {
            Some(v) => causal::result_views(old(list)@).push(v),
            None => causal::result_views(old(list)@),
        },
{
    if let Some(v) = r {
        proof {
            lemma_results_push(list@, v);
        }
        list.push(v);
    }
}

fn diagnose_all(installation: &MagentoInstallation, ast_findings: &[AstFinding]) -> (r: Vec<
    InvestigationResult,
>)
    ensures
        causal::result_views(r@) == all_diagnoses(*installation, ast_findings@),
{
    let mut results: Vec<InvestigationResult> = Vec::new();
    let a = investigate_worker_saturation_and_timeouts(installation, ast_findings);
    let b = investigate_fpc_punctures_and_ttfb(installation, ast_findings);
    let c = investigate_session_eviction_and_logouts(installation);
    let d = investigate_checkout_stalls(installation, ast_findings);
    let e = investigate_search_degradation(installation);
    proof {
        assert(causal::result_views(results@) =~= Seq::empty());
        let l1 = seq![result_opt(a)];
        let l2 = l1.push(result_opt(b));
        let l3 = l2.push(result_opt(c));
        let l4 = l3.push(result_opt(d));
        let l5 = l4.push(result_opt(e));
        assert(l1.drop_last() =~= Seq::empty());
        assert(l2.drop_last() =~= l1);
        assert(l3.drop_last() =~= l2);
        assert(l4.drop_last() =~= l3);
        assert(l5.drop_last() =~= l4);
        assert(present(l1.drop_last()) == Seq::<InvestigationResultView>::empty());
        assert(l5 =~= seq![
            result_opt(a),
            result_opt(b),
            result_opt(c),
            result_opt(d),
            result_opt(e),
        ]);
        reveal_with_fuel(present, 6);
    }
    push_present(&mut results, a);
    push_present(&mut results, b);
    push_present(&mut results, c);
    push_present(&mut results, d);
    push_present(&mut results, e);
    results
}

/// Whether a symptom occurs in the target, the title or the summary, all in lower case.
pub open spec fn mentions(
    target: Seq<char>,
    title: Seq<char>,
    summary: Seq<char>,
    symptom: Seq<char>,
) -> bool {
    text::contains_text(target, symptom) || text::contains_text(title, symptom) || text::contains_text(
        summary,
        symptom,
    )
}

/// Whether lower-case texts mention a lower-case symptom.
pub fn mentions_symptom(target: &str, title: &str, summary: &str, symptom: &str) -> (r: bool)
    ensures
        r == mentions(target@, title@, summary@, symptom@),
{
    contains(target, symptom) || contains(title, symptom) || contains(summary, symptom)
}

/// Whether a diagnosis is about a symptom, whatever the case of the letters.
pub open spec fn is_about(r: InvestigationResultView, symptom: Seq<char>) -> bool {
    mentions(
        text::lowercase_of(r.target),
        text::lowercase_of(r.title),
        text::lowercase_of(r.summary),
        text::lowercase_of(symptom),
    )
}

/// The diagnoses about a symptom, or all of them.
pub open spec fn about(
    results: Seq<InvestigationResultView>,
    symptom: Option<&str>,
) -> Seq<InvestigationResultView> {
    match symptom {
        Some(s) => results.filter(|r: InvestigationResultView| is_about(r, s@)),
        None => results,
    }
}

fn retain_about(results: Vec<InvestigationResult>, symptom: &str) -> (r: Vec<InvestigationResult>)
    ensures
        causal::result_views(r@) == causal::result_views(results@).filter(
            |r: InvestigationResultView| is_about(r, symptom@),
        ),
{
    let ghost all = causal::result_views(results@);
    let ghost keep = |r: InvestigationResultView| is_about(r, symptom@);
    let wanted = to_lowercase(symptom);
    let mut rest = results;
    let mut kept: Vec<InvestigationResult> = Vec::new();
    proof {
        assert(causal::result_views(kept@) =~= Seq::empty());
        assert(Seq::<InvestigationResultView>::empty().filter(keep) =~= Seq::empty()) by {
            reveal(Seq::filter);
        }
        assert(all.skip(all.len() as int) =~= Seq::empty());
    }
    while rest.len() > 0
        invariant
            rest@.len() <= all.len(),
            wanted@ == text::lowercase_of(symptom@),
            keep == (|r: InvestigationResultView| is_about(r, symptom@)),
            causal::result_views(rest@) == all.take(rest@.len() as int),
            causal::result_views(kept@) == all.skip(rest@.len() as int).filter(keep),
        decreases rest@.len(),
    {
        let ghost n = rest@.len() as int;
        let ghost before = rest@;
        match rest.pop() {
            Some(r) => {
                let target = to_lowercase(&r.target);
                let title = to_lowercase(&r.title);
                let summary = to_lowercase(&r.summary);
                proof {
                    assert(causal::result_views(rest@) =~= all.take(n - 1)) by {
                        assert forall|k: int| 0 <= k < n - 1 implies causal::result_views(rest@)[k]
                            == all.take(n - 1)[k] by {
                            assert(causal::result_views(before)[k] == all.take(n)[k]);
                        }
                    }
                    assert(r@ == all[n - 1]) by {
                        assert(causal::result_views(before)[n - 1] == all.take(n)[n - 1]);
                    }
                    assert(all.skip(n - 1) =~= seq![all[n - 1]] + all.skip(n));
                    all.skip(n).lemma_filter_prepend(all[n - 1], keep);
                }
                if mentions_symptom(&target, &title, &summary, &wanted) {
                    let ghost was = kept@;
                    kept.insert(0, r);
                    assert(causal::result_views(kept@) =~= seq![r@] + causal::result_views(was));
                }
            },
            None => {},
        }
    }
    assert(all.skip(0) =~= all);
    kept
}

/// A ranked list with one more diagnosis, after those that it does not exceed in impact.
pub open spec fn placed(
    ranked: Seq<InvestigationResultView>,
    r: InvestigationResultView,
) -> Seq<InvestigationResultView>
    decreases ranked.len(),
{
    if ranked.len() == 0 || ranked.last().impact_score >= r.impact_score {
        ranked.push(r)
    } else {
        placed(ranked.drop_last(), r).push(ranked.last())
    }
}

/// Diagnoses by falling impact; those of equal impact keep their order.
pub open spec fn ranked(results: Seq<InvestigationResultView>) -> Seq<InvestigationResultView>
    decreases results.len(),
{
    if results.len() == 0 {
        Seq::empty()
    } else {
        placed(ranked(results.drop_last()), results.last())
    }
}

proof fn lemma_placed_at(s: Seq<InvestigationResultView>, r: InvestigationResultView, at: int)
    requires
        0 <= at <= s.len(),
        at > 0 ==> s[at - 1].impact_score >= r.impact_score,
        forall|k: int| at <= k < s.len() ==> (#[trigger] s[k]).impact_score < r.impact_score,
    ensures
        placed(s, r) == s.insert(at, r),
    decreases s.len(),
{
    if at == s.len() {
        assert(s.push(r) =~= s.insert(at, r));
    } else {
        assert(s.last() == s[s.len() - 1]);
        assert forall|k: int| at <= k < s.drop_last().len() implies (
        #[trigger] s.drop_last()[k]).impact_score < r.impact_score by {
            assert(s.drop_last()[k] == s[k]);
        }
        lemma_placed_at(s.drop_last(), r, at);
        assert(s.drop_last().insert(at, r).push(s.last()) =~= s.insert(at, r));
    }
}

fn place(list: &mut Vec<InvestigationResult>, r: InvestigationResult)
    ensures
        causal::result_views(final(list)@) == placed(causal::result_views(old(list)@), r@),
{
    let ghost start = list@;
    let mut at: usize = list.len();
    while at > 0 && list[at - 1].impact_score < r.impact_score
        invariant
            at <= list@.len(),
            list@ == start,
            forall|k: int|
                at <= k < list@.len() ==> (#[trigger] list@[k]).impact_score < r.impact_score,
        decreases at,
    {
        at -= 1;
    }
    proof {
        let views = causal::result_views(start);
        assert forall|k: int| at <= k < views.len() implies (#[trigger] views[k]).impact_score
            < r@.impact_score by {
            assert(start[k].impact_score < r.impact_score);
        }
        lemma_placed_at(views, r@, at as int);
    }
    list.insert(at, r);
    assert(causal::result_views(list@) =~= causal::result_views(start).insert(at as int, r@));
}

fn rank(results: Vec<InvestigationResult>) -> (r: Vec<InvestigationResult>)
    ensures
        causal::result_views(r@) == ranked(causal::result_views(results@)),
{
    let ghost all = causal::result_views(results@);
    let mut rest = results;
    let mut queue: Vec<InvestigationResult> = Vec::new();
    while rest.len() > 0
        invariant
            rest@.len() + queue@.len() == all.len(),
            forall|k: int| 0 <= k < rest@.len() ==> (#[trigger] rest@[k])@ == all[k],
            forall|k: int|
                0 <= k < queue@.len() ==> (#[trigger] queue@[k])@ == all[all.len() - 1 - k],
        decreases rest@.len(),
    {
        if let Some(r) = rest.pop() {
            queue.push(r);
        }
    }
    let mut out: Vec<InvestigationResult> = Vec::new();
    assert(causal::result_views(out@) =~= Seq::empty());
    assert(all.take(0) =~= Seq::empty());
    while queue.len() > 0
        invariant
            queue@.len() <= all.len(),
            forall|k: int|
                0 <= k < queue@.len() ==> (#[trigger] queue@[k])@ == all[all.len() - 1 - k],
            causal::result_views(out@) == ranked(all.take(all.len() - queue@.len())),
        decreases queue@.len(),
    {
        let ghost done = all.len() - queue@.len();
        assert(all.take(done + 1).drop_last() =~= all.take(done));
        assert(queue@[queue@.len() - 1]@ == all[done]);
        if let Some(r) = queue.pop() {
            assert(r@ == all.take(done + 1).last());
            place(&mut out, r);
        }
    }
    assert(all.take(all.len() as int) =~= all);
    out
}

/// Executes deep root-cause correlation synthesizing runtime metrics, database digests, FPC
/// punctures, worker pressure, and static analysis. The diagnoses, those about a symptom
/// only if one is given, come by falling impact.
pub fn investigate_installation(
    installation: &MagentoInstallation,
    ast_findings: &[AstFinding],
    target_symptom: Option<&str>,
) -> (r: Vec<InvestigationResult>)
    ensures
        causal::result_views(r@) == ranked(
            about(all_diagnoses(*installation, ast_findings@), target_symptom),
        ),
{
    let results = diagnose_all(installation, ast_findings);
    match target_symptom {
        Some(symptom) => rank(retain_about(results, symptom)),
        None => rank(results),
    }
}

/// Whether one of the diagnoses reaches the critical band.
pub open spec fn any_critical(results: Seq<InvestigationResultView>) -> bool {
    exists|i: int| 0 <= i < results.len() && (#[trigger] results[i]).impact_score >= CRITICAL_IMPACT
}

/// The exit code of an investigation: two with a critical diagnosis, one with any, else zero.
pub open spec fn investigation_code(results: Seq<InvestigationResultView>) -> u8 {
    if any_critical(results) {
        2
    } else if results.len() > 0 {
        1
    } else {
        0
    }
}

pub fn investigation_exit_code(results: &[InvestigationResult]) -> (r: u8)
    ensures
        r == investigation_code(causal::result_views(results@)),
{
    let ghost views = causal::result_views(results@);
    let mut i: usize = 0;
    while i < results.len()
        invariant
            i <= results@.len(),
            views == causal::result_views(results@),
            forall|k: int| 0 <= k < i ==> (#[trigger] views[k]).impact_score < CRITICAL_IMPACT,
        decreases results@.len() - i,
    {
        assert(views[i as int].impact_score == results@[i as int].impact_score);
        if results[i].impact_score >= CRITICAL_IMPACT {
            return 2;
        }
        i += 1;
    }
    if results.len() > 0 {
        1
    } else {
        0
    }
}

/// What holds of every diagnosis: it names at least one measurement, its impact lies between
/// 10 and 98, and high confidence, without which there is no critical impact, rests on two
/// measurements or more.
pub open spec fn is_supported(r: InvestigationResultView) -> bool {
    &&& r.evidence_basis.len() > 0
    &&& 10 <= r.impact_score <= 98
    &&& r.impact_score >= CRITICAL_IMPACT ==> r.confidence == Confidence::High
    &&& r.confidence == Confidence::High ==> r.evidence_basis.len() >= 2
}

proof fn lemma_diagnosis_supported(
    d: DraftView,
    target: Seq<char>,
    title: Seq<char>,
    summary: Seq<char>,
)
    requires
        d.signals.len() > 0,
    ensures
        is_supported(d.diagnosis(target, title, summary)),
{
    signals::law_critical_impact_is_corroborated(d.signals);
}

proof fn lemma_blocks_keep_signals(d: DraftView, blocks: Seq<UncacheableBlockView>)
    ensures
        with_blocks(d, blocks).signals == d.signals,
    decreases blocks.len(),
{
    if blocks.len() > 0 {
        lemma_blocks_keep_signals(d, blocks.drop_last());
    }
}

proof fn lemma_costly_blocks_grow(
    d: DraftView,
    ast: AstFinding,
    blocks: Seq<UncacheableBlockView>,
)
    ensures
        with_costly_blocks(d, ast, blocks).signals.len() >= d.signals.len(),
    decreases blocks.len(),
{
    if blocks.len() > 0 {
        lemma_costly_blocks_grow(d, ast, blocks.drop_last());
    }
}

proof fn lemma_costly_loops_grow(
    d: DraftView,
    asts: Seq<AstFinding>,
    blocks: Seq<UncacheableBlockView>,
)
    ensures
        with_costly_loops(d, asts, blocks).signals.len() >= d.signals.len(),
    decreases asts.len(),
{
    if asts.len() > 0 {
        lemma_costly_loops_grow(d, asts.drop_last(), blocks);
        lemma_costly_blocks_grow(
            with_costly_loops(d, asts.drop_last(), blocks),
            asts.last(),
            blocks,
        );
    }
}

proof fn lemma_hot_plugins_keep_signals(d: DraftView, plugins: Seq<Plugin>)
    ensures
        with_hot_plugins(d, plugins).signals == d.signals,
    decreases plugins.len(),
{
    if plugins.len() > 0 {
        lemma_hot_plugins_keep_signals(d, plugins.drop_last());
    }
}

proof fn lemma_calls_grow(d: DraftView, p: Plugin, asts: Seq<AstFinding>)
    ensures
        with_calls(d, p, asts).signals.len() >= d.signals.len(),
    decreases asts.len(),
{
    if asts.len() > 0 {
        lemma_calls_grow(d, p, asts.drop_last());
    }
}

proof fn lemma_plugin_calls_grow(d: DraftView, plugins: Seq<Plugin>, asts: Seq<AstFinding>)
    ensures
        with_plugin_calls(d, plugins, asts).signals.len() >= d.signals.len(),
    decreases plugins.len(),
{
    if plugins.len() > 0 {
        lemma_plugin_calls_grow(d, plugins.drop_last(), asts);
        lemma_calls_grow(
            with_plugin_calls(d, plugins.drop_last(), asts),
            plugins.last(),
            asts,
        );
    }
}

/// Each of the investigations gives a supported diagnosis or none.
proof fn lemma_each_supported(installation: MagentoInstallation, asts: Seq<AstFinding>)
    ensures
        worker_diagnosis(installation, asts) matches Some(r) ==> is_supported(r),
        fpc_diagnosis(installation, asts) matches Some(r) ==> is_supported(r),
        session_diagnosis(installation) matches Some(r) ==> is_supported(r),
        checkout_diagnosis(installation, asts) matches Some(r) ==> is_supported(r),
        search_diagnosis(installation.runtime.opensearch@) matches Some(r) ==> is_supported(r),
{
    assert forall|d: DraftView, target: Seq<char>, title: Seq<char>, summary: Seq<char>|
        d.signals.len() > 0 implies is_supported(
        #[trigger] d.diagnosis(target, title, summary),
    ) by {
        lemma_diagnosis_supported(d, target, title, summary);
    }
    let blocks = installation.runtime.fpc@.uncacheable_blocks;
    let count = number::dec(blocks.len());
    let found = DraftView::of(FPC_SYMPTOM@).signal(count + FPC_DECLARE@, 55).measured(
        CausalNodeType::Symptom,
        "Full Page Cache"@,
        count + FPC_DECLARE_EXPLICITLY@,
        count + " uncacheable blocks"@,
    );
    lemma_blocks_keep_signals(found, blocks);
    lemma_costly_loops_grow(with_blocks(found, blocks), asts, blocks);
    let plugins = installation.plugins@;
    let hot = number::dec(hot_plugin_count(plugins));
    let counted = DraftView::of(CHECKOUT_SYMPTOM@).signal(hot + HOT_PLUGIN_SIGNAL@, 25).step(
        CausalNodeType::Symptom,
        "Storefront Checkout"@,
        hot + HOT_PLUGIN_SYMPTOM@,
    );
    lemma_hot_plugins_keep_signals(counted, plugins);
    lemma_plugin_calls_grow(with_hot_plugins(counted, plugins), plugins, asts);
}

proof fn lemma_present_from(list: Seq<Option<InvestigationResultView>>)
    requires
        forall|i: int|
            0 <= i < list.len() ==> (#[trigger] list[i] matches Some(r) ==> is_supported(r)),
    ensures
        forall|i: int| 0 <= i < present(list).len() ==> is_supported(#[trigger] present(list)[i]),
    decreases list.len(),
{
    if list.len() > 0 {
        assert forall|i: int| 0 <= i < list.drop_last().len() implies (
        #[trigger] list.drop_last()[i] matches Some(r) ==> is_supported(r)) by {
            assert(list.drop_last()[i] == list[i]);
        }
        lemma_present_from(list.drop_last());
        assert(list.last() == list[list.len() - 1]);
        let before = present(list.drop_last());
        assert forall|i: int| 0 <= i < present(list).len() implies is_supported(
            #[trigger] present(list)[i],
        ) by {
            if i < before.len() {
                assert(is_supported(before[i]));
                assert(present(list)[i] == before[i]);
            }
        }
    }
}

proof fn lemma_placed(s: Seq<InvestigationResultView>, r: InvestigationResultView)
    ensures
        placed(s, r).to_multiset() == s.to_multiset().insert(r),
        placed(s, r).len() == s.len() + 1,
    decreases s.len(),
{
    broadcast use vstd::seq_lib::group_to_multiset_ensures;

    if s.len() > 0 && s.last().impact_score < r.impact_score {
        lemma_placed(s.drop_last(), r);
        assert(s.drop_last().push(s.last()) =~= s);
        assert(s.to_multiset() =~= s.drop_last().to_multiset().insert(s.last()));
        assert(placed(s, r).to_multiset() =~= placed(s.drop_last(), r).to_multiset().insert(
            s.last(),
        ));
        assert(placed(s, r).to_multiset() =~= s.to_multiset().insert(r));
    }
}

/// Whether diagnoses come by falling impact.
pub open spec fn is_falling(s: Seq<InvestigationResultView>) -> bool {
    forall|i: int, j: int|
        0 <= i <= j < s.len() ==> (#[trigger] s[i]).impact_score >= (#[trigger] s[j]).impact_score
}

proof fn lemma_placed_falling(s: Seq<InvestigationResultView>, r: InvestigationResultView)
    requires
        is_falling(s),
    ensures
        is_falling(placed(s, r)),
        s.len() > 0 ==> placed(s, r).last().impact_score == (if s.last().impact_score
            >= r.impact_score {
            r.impact_score
        } else {
            s.last().impact_score
        }),
    decreases s.len(),
{
    if s.len() == 0 || s.last().impact_score >= r.impact_score {
        let out = s.push(r);
        assert forall|i: int, j: int| 0 <= i <= j < out.len() implies (
        #[trigger] out[i]).impact_score >= (#[trigger] out[j]).impact_score by {
            if j == s.len() && i < s.len() {
                assert(s[i].impact_score >= s[s.len() - 1].impact_score);
            } else if j < s.len() {
                assert(s[i].impact_score >= s[j].impact_score);
            }
        }
    } else {
        let rest = s.drop_last();
        assert(is_falling(rest)) by {
            assert forall|i: int, j: int| 0 <= i <= j < rest.len() implies (
            #[trigger] rest[i]).impact_score >= (#[trigger] rest[j]).impact_score by {
                assert(s[i].impact_score >= s[j].impact_score);
            }
        }
        lemma_placed_falling(rest, r);
        let inner = placed(rest, r);
        let out = inner.push(s.last());
        if rest.len() > 0 {
            assert(rest.last() == s[s.len() - 2]);
            assert(s[s.len() - 2].impact_score >= s[s.len() - 1].impact_score);
        } else {
            assert(inner =~= seq![r]);
        }
        assert(inner.last().impact_score >= s.last().impact_score);
        lemma_placed(rest, r);
        assert forall|i: int, j: int| 0 <= i <= j < out.len() implies (
        #[trigger] out[i]).impact_score >= (#[trigger] out[j]).impact_score by {
            if j == inner.len() && i < inner.len() {
                assert(inner[i].impact_score >= inner[inner.len() - 1].impact_score);
            } else if j < inner.len() {
                assert(inner[i].impact_score >= inner[j].impact_score);
            }
        }
    }
}

/// The diagnoses of one impact, in their order.
pub open spec fn of_impact(s: Seq<InvestigationResultView>, impact: u32) -> Seq<
    InvestigationResultView,
>
    decreases s.len(),
{
    if s.len() == 0 {
        Seq::empty()
    } else if s.last().impact_score == impact {
        of_impact(s.drop_last(), impact).push(s.last())
    } else {
        of_impact(s.drop_last(), impact)
    }
}

proof fn lemma_placed_stable(
    s: Seq<InvestigationResultView>,
    r: InvestigationResultView,
    impact: u32,
)
    ensures
        of_impact(placed(s, r), impact) == if r.impact_score == impact {
            of_impact(s, impact).push(r)
        } else {
            of_impact(s, impact)
        },
    decreases s.len(),
{
    if s.len() == 0 || s.last().impact_score >= r.impact_score {
        assert(s.push(r).drop_last() =~= s);
    } else {
        lemma_placed_stable(s.drop_last(), r, impact);
        let inner = placed(s.drop_last(), r);
        assert(inner.push(s.last()).drop_last() =~= inner);
    }
}

/// Ranking keeps every diagnosis, puts those of greater impact first, and leaves those of
/// equal impact in their order.
pub proof fn law_ranking(s: Seq<InvestigationResultView>, impact: u32)
    ensures
        ranked(s).len() == s.len(),
        ranked(s).to_multiset() == s.to_multiset(),
        is_falling(ranked(s)),
        of_impact(ranked(s), impact) == of_impact(s, impact),
    decreases s.len(),
{
    broadcast use vstd::seq_lib::group_to_multiset_ensures;

    if s.len() > 0 {
        let rest = s.drop_last();
        law_ranking(rest, impact);
        lemma_placed(ranked(rest), s.last());
        lemma_placed_falling(ranked(rest), s.last());
        lemma_placed_stable(ranked(rest), s.last(), impact);
        assert(rest.push(s.last()) =~= s);
        assert(s.to_multiset() =~= rest.to_multiset().insert(s.last()));
    } else {
        assert(s =~= Seq::empty());
    }
}

/// Everything in a ranked list was in the list.
proof fn lemma_ranked_from(s: Seq<InvestigationResultView>, r: InvestigationResultView)
    requires
        ranked(s).contains(r),
    ensures
        s.contains(r),
{
    broadcast use vstd::seq_lib::group_to_multiset_ensures;

    law_ranking(s, 0);
    assert(ranked(s).to_multiset().contains(r));
    assert(s.to_multiset().contains(r));
}

/// Whatever symptom is asked for, every diagnosis that comes back is one of all diagnoses,
/// is about the symptom, and is supported: it names what was measured, and only two or more
/// measurements make it critical.
pub proof fn law_every_diagnosis_is_supported(
    installation: MagentoInstallation,
    asts: Seq<AstFinding>,
    symptom: Option<&str>,
    r: InvestigationResultView,
)
    requires
        ranked(about(all_diagnoses(installation, asts), symptom)).contains(r),
    ensures
        all_diagnoses(installation, asts).contains(r),
        symptom matches Some(s) ==> is_about(r, s@),
        is_supported(r),
{
    broadcast use vstd::seq_lib::group_filter_ensures;

    let all = all_diagnoses(installation, asts);
    lemma_ranked_from(about(all, symptom), r);
    if let Some(s) = symptom {
        let keep = |x: InvestigationResultView| is_about(x, s@);
        assert(all.filter(keep).contains(r));
        let k = choose|k: int| 0 <= k < all.filter(keep).len() && all.filter(keep)[k] == r;
        all.lemma_filter_pred(keep, k);
        all.lemma_filter_contains_rev(keep, r);
    }
    lemma_each_supported(installation, asts);
    let list = seq![
        worker_diagnosis(installation, asts),
        fpc_diagnosis(installation, asts),
        session_diagnosis(installation),
        checkout_diagnosis(installation, asts),
        search_diagnosis(installation.runtime.opensearch@),
    ];
    lemma_present_from(list);
    let i = choose|i: int| 0 <= i < all.len() && all[i] == r;
    assert(is_supported(all[i]));
}

/// A symptom leaves out nothing that is about it, and without one nothing is left out.
pub proof fn law_no_diagnosis_is_withheld(
    installation: MagentoInstallation,
    asts: Seq<AstFinding>,
    symptom: Option<&str>,
    r: InvestigationResultView,
)
    requires
        all_diagnoses(installation, asts).contains(r),
        symptom matches Some(s) ==> is_about(r, s@),
    ensures
        ranked(about(all_diagnoses(installation, asts), symptom)).contains(r),
{
    broadcast use vstd::seq_lib::group_to_multiset_ensures;

    let all = all_diagnoses(installation, asts);
    let kept = about(all, symptom);
    if let Some(s) = symptom {
        let keep = |x: InvestigationResultView| is_about(x, s@);
        let k = choose|k: int| 0 <= k < all.len() && all[k] == r;
        all.lemma_filter_contains(keep, k);
    }
    law_ranking(kept, 0);
    assert(kept.to_multiset().contains(r));
    assert(ranked(kept).to_multiset().contains(r));
}

/// Nothing is diagnosed of a store of which only the root is known.
pub proof fn law_clean_store_has_no_diagnosis(
    installation: MagentoInstallation,
    asts: Seq<AstFinding>,
    symptom: Option<&str>,
)
    requires
        installation.is_clean(),
    ensures
        ranked(about(all_diagnoses(installation, asts), symptom)).len() == 0,
{
    reveal_with_fuel(present, 6);
    reveal(Seq::filter);
    assert(redis_check::redis_issues(installation.env_config@).len() == 0);
    let list = seq![
        worker_diagnosis(installation, asts),
        fpc_diagnosis(installation, asts),
        session_diagnosis(installation),
        checkout_diagnosis(installation, asts),
        search_diagnosis(installation.runtime.opensearch@),
    ];
    assert(forall|i: int| 0 <= i < 5 ==> list[i] is None);
    assert(present(list) =~= Seq::empty());
    law_ranking(about(all_diagnoses(installation, asts), symptom), 0);
}

/// Worker figures from any source but the scoreboard do not bear on the diagnosis: without a
/// slow digest, a confirmed lock wait or a cron backlog there is none.
pub proof fn law_only_the_scoreboard_shows_pressure(
    installation: MagentoInstallation,
    asts: Seq<AstFinding>,
    d: DraftView,
)
    requires
        installation.runtime.php_workers@.source != WorkerMetricSource::FpmStatus,
    ensures
        with_pressure(d, installation.runtime.php_workers@) == d,
        ({
            let db = installation.database_metrics@;
            slowest_digest(db.query_digests) is None && first_long_lock(db.active_lock_waits)
                is None && !has_cron_backlog(db.cron_schedule)
        }) ==> worker_diagnosis(installation, asts) is None,
{
}

/// A cluster that is not red, has no shards unassigned beyond what a single node cannot
/// place, and whose index listing was not read, is not diagnosed.
pub proof fn law_unread_listing_is_no_missing_index(os: OpenSearchStatusView)
    requires
        !(os.catalog_index_probe is Succeeded),
        !is_red(os),
        forensics_rules::is_single_node(os) || forensics_rules::small_or_zero(os.unassigned_shards) == 0,
    ensures
        search_diagnosis(os) is None,
{
}

/// The slowest digest is a slow one of the list, and none is slower.
pub proof fn law_slowest_digest(digests: Seq<QueryDigestView>)
    ensures
        slowest_digest(digests) is Some <==> exists|i: int|
            0 <= i < digests.len() && forensics_rules::is_slow(#[trigger] digests[i]),
        slowest_digest(digests) matches Some(d) ==> digests.contains(d) && forensics_rules::is_slow(d) && forall|
            i: int,
        |
            0 <= i < digests.len() ==> (#[trigger] digests[i]).avg_time_ps <= d.avg_time_ps,
    decreases digests.len(),
{
    if digests.len() > 0 {
        let rest = digests.drop_last();
        law_slowest_digest(rest);
        assert(digests.last() == digests[digests.len() - 1]);
        assert(forall|i: int| 0 <= i < rest.len() ==> #[trigger] rest[i] == digests[i]);
        if let Some(d) = slowest_digest(rest) {
            let k = choose|k: int| 0 <= k < rest.len() && rest[k] == d;
            assert(digests[k] == d);
        }
        assert forall|i: int| 0 <= i < digests.len() && forensics_rules::is_slow(#[trigger] digests[i]) implies
            slowest_digest(digests) is Some by {
            if i < rest.len() {
                assert(forensics_rules::is_slow(rest[i]));
            }
        }
        if let Some(d) = slowest_digest(digests) {
            assert forall|i: int| 0 <= i < digests.len() implies (
            #[trigger] digests[i]).avg_time_ps <= d.avg_time_ps by {
                if i < rest.len() {
                    assert(rest[i] == digests[i]);
                }
            }
        }
    }
}

/// A failing checkout is only blamed on a synchronous HTTP call that was found inside an
/// around plugin on the order path.
pub proof fn law_checkout_claims_only_found_calls(
    installation: MagentoInstallation,
    asts: Seq<AstFinding>,
)
    ensures
        checkout_diagnosis(installation, asts) matches Some(r) ==> (r.title == HTTP_IN_PLUGIN@
            <==> has_plugin_call(installation.plugins@, asts)),
{
    reveal_strlit("Synchronous External Network Calls Intercepting Checkout Hot Path");
    reveal_strlit("Order Placement Serialised by Quote Table Lock Contention");
    reveal_strlit("Around Plugins Intercept the Order Placement Hot Path");
    assert(HTTP_IN_PLUGIN@[0] == 'S');
    assert(QUOTE_LOCKED@[0] == 'O');
    assert(INTERCEPTED@[0] == 'A');
}

/// Whether the scoreboard of a pool shows pressure: more than 75 percent of the workers
/// active, a request in the queue, or the ceiling reached.
pub open spec fn is_pressed(fpm: PhpWorkerMetrics) -> bool {
    &&& fpm.is_detected
    &&& fpm.source == WorkerMetricSource::FpmStatus
    &&& {
        ||| fpm.saturation_pct matches Some(s) && s.num() > 75 * s.den()
        ||| fpm.listen_queue matches Some(n) && n > 0
        ||| fpm.max_children_reached matches Some(n) && n > 0
    }
}

/// Whether a digest takes more than a second on average.
pub open spec fn is_slowed(db: DatabaseMetrics) -> bool {
    exists|i: int|
        0 <= i < db.query_digests@.len() && (#[trigger] db.query_digests@[i]).avg_time_ps
            > 1_000_000_000_000
}

/// Whether a confirmed lock wait lasts longer than five seconds.
pub open spec fn is_locked(db: DatabaseMetrics) -> bool {
    exists|i: int|
        0 <= i < db.active_lock_waits@.len() && (
        #[trigger] db.active_lock_waits@[i]).is_confirmed_lock_wait
            && db.active_lock_waits@[i].wait_time_secs > 5
}

/// Whether cron is behind: more than five jobs running, or more than a hundred pending.
pub open spec fn is_behind(db: DatabaseMetrics) -> bool {
    db.cron_schedule.running_rows > 5 || db.cron_schedule.pending_rows > 100
}

/// The first lock wait that counts is the first of the list that is confirmed and lasts
/// longer than five seconds.
pub proof fn law_first_long_lock(locks: Seq<ActiveLockWaitView>)
    ensures
        first_long_lock(locks) is None <==> forall|i: int|
            0 <= i < locks.len() ==> !((#[trigger] locks[i]).is_confirmed_lock_wait
                && locks[i].wait_time_secs > 5),
        first_long_lock(locks) matches Some(lock) ==> exists|i: int|
            0 <= i < locks.len() && #[trigger] locks[i] == lock && lock.is_confirmed_lock_wait
                && lock.wait_time_secs > 5 && forall|j: int|
                0 <= j < i ==> !((#[trigger] locks[j]).is_confirmed_lock_wait
                    && locks[j].wait_time_secs > 5),
    decreases locks.len(),
{
    if locks.len() > 0 {
        let rest = locks.drop_first();
        if locks[0].is_confirmed_lock_wait && locks[0].wait_time_secs > 5 {
        } else {
            law_first_long_lock(rest);
            assert(forall|i: int| 0 <= i < rest.len() ==> #[trigger] rest[i] == locks[i + 1]);
            if first_long_lock(rest) is None {
                assert forall|i: int| 0 <= i < locks.len() implies !((
                #[trigger] locks[i]).is_confirmed_lock_wait && locks[i].wait_time_secs > 5) by {
                    if i > 0 {
                        assert(rest[i - 1] == locks[i]);
                    }
                }
            } else {
                let lock = first_long_lock(rest)->0;
                let i = choose|i: int|
                    0 <= i < rest.len() && #[trigger] rest[i] == lock && lock.is_confirmed_lock_wait
                        && lock.wait_time_secs > 5 && forall|j: int|
                        0 <= j < i ==> !((#[trigger] rest[j]).is_confirmed_lock_wait
                            && rest[j].wait_time_secs > 5);
                assert(locks[i + 1] == lock);
                assert forall|j: int| 0 <= j < i + 1 implies !((
                #[trigger] locks[j]).is_confirmed_lock_wait && locks[j].wait_time_secs > 5) by {
                    if j > 0 {
                        assert(rest[j - 1] == locks[j]);
                    }
                }
            }
        }
    }
}

proof fn lemma_measured(db: DatabaseMetrics)
    ensures
        slowest_digest(db@.query_digests) is Some <==> is_slowed(db),
        first_long_lock(db@.active_lock_waits) is Some <==> is_locked(db),
        has_cron_backlog(db@.cron_schedule) <==> is_behind(db),
{
    let digests = db@.query_digests;
    law_slowest_digest(digests);
    assert(digests.len() == db.query_digests@.len());
    assert(forall|i: int| 0 <= i < digests.len() ==> #[trigger] digests[i] == db.query_digests@[i]@);
    if slowest_digest(digests) is Some {
        let i = choose|i: int| 0 <= i < digests.len() && forensics_rules::is_slow(#[trigger] digests[i]);
        assert(db.query_digests@[i].avg_time_ps > 1_000_000_000_000);
    }
    if is_slowed(db) {
        let i = choose|i: int|
            0 <= i < db.query_digests@.len() && (#[trigger] db.query_digests@[i]).avg_time_ps
                > 1_000_000_000_000;
        assert(forensics_rules::is_slow(digests[i]));
    }
    let locks = db@.active_lock_waits;
    law_first_long_lock(locks);
    assert(locks.len() == db.active_lock_waits@.len());
    assert(forall|i: int|
        0 <= i < locks.len() ==> #[trigger] locks[i] == db.active_lock_waits@[i]@);
    if first_long_lock(locks) is Some {
        let i = choose|i: int|
            0 <= i < locks.len() && (#[trigger] locks[i]).is_confirmed_lock_wait
                && locks[i].wait_time_secs > 5;
        assert(db.active_lock_waits@[i].is_confirmed_lock_wait);
    }
    if is_locked(db) {
        let i = choose|i: int|
            0 <= i < db.active_lock_waits@.len() && (
            #[trigger] db.active_lock_waits@[i]).is_confirmed_lock_wait
                && db.active_lock_waits@[i].wait_time_secs > 5;
        assert(locks[i].is_confirmed_lock_wait && locks[i].wait_time_secs > 5);
    }
}

proof fn lemma_culprits_only(d: DraftView, modules: Seq<Seq<char>>)
    ensures
        ({
            let out = with_culprits(d, modules);
            &&& out.signals == d.signals && out.chain == d.chain && out.queries == d.queries
            &&& out.remediations == d.remediations && out.verifications == d.verifications
        }),
    decreases modules.len(),
{
    if modules.len() > 0 {
        lemma_culprits_only(d, modules.drop_last());
    }
}

/// Every module that may own the tables of the slow digest is named, and no other.
pub proof fn law_culprits_are_the_candidates(
    d: DraftView,
    modules: Seq<Seq<char>>,
    m: Seq<char>,
)
    ensures
        with_culprits(d, modules).culprits.contains(m) <==> d.culprits.contains(m)
            || modules.contains(m),
    decreases modules.len(),
{
    if modules.len() > 0 {
        let init = modules.drop_last();
        let before = with_culprits(d, init).culprits;
        law_culprits_are_the_candidates(d, init, m);
        lemma_named_once(before, modules.last(), m);
        if init.contains(m) {
            let k = choose|k: int| 0 <= k < init.len() && init[k] == m;
            assert(modules[k] == m);
        }
        if modules.contains(m) && m != modules.last() {
            let k = choose|k: int| 0 <= k < modules.len() && modules[k] == m;
            assert(init[k] == m);
        }
        if m == modules.last() {
            assert(modules[modules.len() - 1] == m);
        }
    }
}

proof fn lemma_named_once(list: Seq<Seq<char>>, t: Seq<char>, m: Seq<char>)
    ensures
        correlation::with_once(list, t).contains(m) <==> list.contains(m) || m == t,
{
    let out = correlation::with_once(list, t);
    if list.contains(m) {
        let k = choose|k: int| 0 <= k < list.len() && list[k] == m;
        assert(out[k] == m);
    }
    if !list.contains(t) {
        assert(out[out.len() - 1] == t);
    }
    if out.contains(m) && m != t {
        let k = choose|k: int| 0 <= k < out.len() && out[k] == m;
        assert(list[k] == m);
    }
}

/// Whether an operation loads an entity in a loop, in a file of one of the modules.
pub open spec fn is_blamed_loop(ast: AstFinding, modules: Seq<Seq<char>>) -> bool {
    &&& ast.in_loop
    &&& ast.operation == OperationType::RepositoryLoad || ast.operation
        == OperationType::CollectionLoad
    &&& ast.file_path is Some
    &&& exists|k: int|
        0 <= k < modules.len() && (text::contains_text(
            (ast.file_path->0)@,
            text::replaced(#[trigger] modules[k], '_', '/'),
        ) || text::contains_text((ast.file_path->0)@, modules[k]))
}

proof fn lemma_module_of(file: Seq<char>, modules: Seq<Seq<char>>)
    ensures
        first_module_of(file, modules) is Some <==> exists|k: int|
            0 <= k < modules.len() && (text::contains_text(
                file,
                text::replaced(#[trigger] modules[k], '_', '/'),
            ) || text::contains_text(file, modules[k])),
        first_module_of(file, modules) matches Some(m) ==> modules.contains(m),
    decreases modules.len(),
{
    if modules.len() > 0 {
        let rest = modules.drop_first();
        lemma_module_of(file, rest);
        assert(forall|k: int| 0 <= k < rest.len() ==> #[trigger] rest[k] == modules[k + 1]);
        if lies_in(file, modules[0]) {
            assert(modules.contains(modules[0]));
        } else {
            if first_module_of(file, rest) is Some {
                let m = first_module_of(file, rest)->0;
                let j = choose|j: int| 0 <= j < rest.len() && rest[j] == m;
                assert(modules[j + 1] == m);
                let k = choose|k: int|
                    0 <= k < rest.len() && (text::contains_text(
                        file,
                        text::replaced(#[trigger] rest[k], '_', '/'),
                    ) || text::contains_text(file, rest[k]));
                assert(modules[k + 1] == rest[k]);
            }
            if exists|k: int|
                0 <= k < modules.len() && (text::contains_text(
                    file,
                    text::replaced(#[trigger] modules[k], '_', '/'),
                ) || text::contains_text(file, modules[k])) {
                let k = choose|k: int|
                    0 <= k < modules.len() && (text::contains_text(
                        file,
                        text::replaced(#[trigger] modules[k], '_', '/'),
                    ) || text::contains_text(file, modules[k]));
                assert(k > 0);
                assert(rest[k - 1] == modules[k]);
            }
        }
    }
}

/// Each loop in a blamed module adds a signal of weight 25, a step and a remedy; any other
/// operation adds nothing.
pub proof fn law_blamed_loops(d: DraftView, asts: Seq<AstFinding>, ast: AstFinding)
    ensures
        ({
            let before = with_loops(d, asts);
            let after = with_loops(d, asts.push(ast));
            &&& !is_blamed_loop(ast, before.culprits) ==> after == before
            &&& is_blamed_loop(ast, before.culprits) ==> {
                &&& after.signals == before.signals.push(
                    (
                        "Unbatched entity load inside a loop at "@ + ((ast.file_path->0)@ + ":"@
                            + number::dec(ast.line_number as nat)),
                        25u32,
                    ),
                )
                &&& after.remediations == before.remediations.push(
                    "Refactor the loop in "@ + (ast.file_path->0)@
                        + " to batch load or join attributes."@,
                )
                &&& after.chain.nodes.len() == before.chain.nodes.len() + 1
                &&& after.chain.nodes.last().node_type == CausalNodeType::Trigger
            }
        }),
{
    assert(asts.push(ast).drop_last() =~= asts);
    if ast.file_path is Some {
        lemma_module_of((ast.file_path->0)@, with_loops(d, asts).culprits);
    }
}

proof fn lemma_loops_grow(d: DraftView, asts: Seq<AstFinding>)
    ensures
        ({
            let out = with_loops(d, asts);
            &&& out.culprits == d.culprits && out.queries == d.queries && out.verifications
                == d.verifications && out.chain.symptom == d.chain.symptom
            &&& out.signals.len() >= d.signals.len()
            &&& out.signals.take(d.signals.len() as int) == d.signals
            &&& forall|i: int|
                d.signals.len() <= i < out.signals.len() ==> (#[trigger] out.signals[i]).1 == 25
            &&& out.remediations.len() >= d.remediations.len()
            &&& out.remediations.take(d.remediations.len() as int) == d.remediations
        }),
    decreases asts.len(),
{
    if asts.len() > 0 {
        let before = with_loops(d, asts.drop_last());
        lemma_loops_grow(d, asts.drop_last());
        let out = with_loops(d, asts);
        assert(out.signals.take(d.signals.len() as int) =~= before.signals.take(
            d.signals.len() as int,
        ));
        assert(out.remediations.take(d.remediations.len() as int) =~= before.remediations.take(
            d.remediations.len() as int,
        ));
        assert forall|i: int| d.signals.len() <= i < out.signals.len() implies (
        #[trigger] out.signals[i]).1 == 25 by {
            if i < before.signals.len() {
                assert(out.signals[i] == before.signals[i]);
            }
        }
    } else {
        assert(d.signals.take(d.signals.len() as int) =~= d.signals);
        assert(d.remediations.take(d.remediations.len() as int) =~= d.remediations);
    }
}

/// What the slow digest adds to a draft.
proof fn lemma_slow_digest_grows(
    d: DraftView,
    slow: QueryDigestView,
    installation: MagentoInstallation,
    asts: Seq<AstFinding>,
)
    ensures
        ({
            let out = with_slow_digest(d, slow, installation, asts);
            let n = d.signals.len() as int;
            &&& out.signals.len() > n
            &&& out.signals.take(n) == d.signals
            &&& out.signals[n] == (
                "MySQL digest averaging "@ + number::fixed(
                    slow.avg_time_ps as nat,
                    1_000_000_000,
                    0,
                ) + "ms over "@ + number::dec(slow.execution_count as nat) + " executions"@,
                40u32,
            )
            &&& forall|i: int| n < i < out.signals.len() ==> (#[trigger] out.signals[i]).1 == 25
            &&& out.chain.symptom == d.chain.symptom
            &&& out.queries == d.queries.push(slow.fingerprint)
            &&& out.remediations.len() >= d.remediations.len()
            &&& out.remediations.take(d.remediations.len() as int) == d.remediations
            &&& slow.tables_involved.len() > 0 ==> out.remediations.len() > d.remediations.len()
                && out.remediations.last() == "Inspect indexing on table(s): "@ + text::joined(
                slow.tables_involved,
                ", "@,
            )
        }),
{
    let measured = d.signal(
        "MySQL digest averaging "@ + number::millis(slow.avg_time_ps, 0) + "ms over "@ + number::dec(
            slow.execution_count as nat,
        ) + " executions"@,
        40,
    ).measured(
        CausalNodeType::Mechanism,
        "MySQL"@,
        "Query digest takes avg "@ + number::millis(slow.avg_time_ps, 1) + "ms (max "@
            + number::millis(slow.max_time_ps, 1)
            + "ms), holding database threads and PHP workers open"@,
        number::millis(slow.avg_time_ps, 1) + "ms avg"@,
    ).query(slow.fingerprint);
    let modules = correlation::correlation_of(
        slow.fingerprint,
        slow.tables_involved,
        installation,
    ).candidate_modules;
    lemma_culprits_only(measured, modules);
    let blamed = with_culprits(measured, modules);
    let named = if blamed.culprits.len() > 0 {
        let list = text::joined(blamed.culprits, ", "@);
        blamed.step(
            CausalNodeType::Culprit,
            list,
            "Slow query on table(s) ["@ + text::joined(slow.tables_involved, ", "@) + "] managed by "@
                + list,
        )
    } else {
        blamed
    };
    lemma_loops_grow(named, asts);
    let out = with_slow_digest(d, slow, installation, asts);
    let n = d.signals.len() as int;
    assert(out.signals.take(n + 1) == measured.signals);
    assert(out.signals.take(n) =~= out.signals.take(n + 1).take(n));
    assert(measured.signals.take(n) =~= d.signals);
    assert(out.signals[n] == out.signals.take(n + 1)[n]);
    let looped = with_loops(named, asts);
    assert(out.remediations.take(d.remediations.len() as int) =~= looped.remediations.take(
        d.remediations.len() as int,
    ));
}

/// The diagnosis of timeouts is made exactly where the scoreboard shows pressure, a digest
/// is slow, a confirmed lock wait is long, or cron is behind; its headline says which of the
/// first three were measured, its evidence names each, and each weighs what it weighs.
pub proof fn law_timeout_diagnosis(installation: MagentoInstallation, asts: Seq<AstFinding>)
    ensures
        ({
            let fpm = installation.runtime.php_workers;
            let db = installation.database_metrics;
            let pressed = is_pressed(fpm);
            let slowed = is_slowed(db);
            let locked = is_locked(db);
            let behind = is_behind(db);
            let found = worker_diagnosis(installation, asts);
            let r = found->0;
            let signals = worker_draft(installation, asts).signals;
            let n = signals.len() as int;
            let from_cron: int = if behind {
                1
            } else {
                0
            };
            &&& found is Some <==> (pressed || slowed || locked || behind)
            &&& found is Some ==> {
                &&& r.target == "504-slow-timeouts"@
                &&& r.causal_chain.symptom
                    == "Intermittent HTTP 504 Gateway Timeouts & High Web Latency"@
                &&& r.evidence_basis.len() == n
                &&& forall|i: int| 0 <= i < n ==> #[trigger] r.evidence_basis[i] == signals[i].0
                &&& r.confidence == signals::confidence_of(signals)
                &&& r.impact_score == signals::impact_of(signals)
                &&& pressed && slowed ==> r.title
                    == "Web Worker Starvation Caused by High-Latency MySQL Query Digests"@
                &&& pressed && !slowed && locked ==> r.title
                    == "Web Worker Starvation Behind MySQL Lock Contention"@
                &&& pressed && !slowed && !locked ==> r.title == "PHP-FPM Worker Pool Saturation"@
                &&& !pressed && slowed && locked ==> r.title
                    == "MySQL Latency and Lock Contention on the Request Path"@
                &&& !pressed && slowed && !locked ==> r.title
                    == "High-Latency MySQL Query Digests on the Request Path"@
                &&& !pressed && !slowed && locked ==> r.title
                    == "MySQL Lock Contention Blocking Transactions"@
                &&& !pressed && !slowed && !locked ==> r.title
                    == "Cron Backlog Competing With Storefront Traffic"@
                &&& r.culprit_queries.len() > 0 <==> slowed
                &&& slowed ==> r.culprit_queries == seq![
                    (slowest_digest(db@.query_digests)->0).fingerprint,
                ]
                &&& r.remediation_steps.len() > 0
            }
            &&& pressed ==> n > 0 && signals[0] == (
                "PHP-FPM scoreboard: "@ + number::dec_or(fpm.active_workers, "?"@) + " of "@
                    + number::dec_or(fpm.max_children, "?"@) + " workers active, listen queue "@
                    + number::dec_or(fpm.listen_queue, "?"@),
                45u32,
            )
            &&& slowed ==> ({
                let at: int = if pressed {
                    1
                } else {
                    0
                };
                let slow = slowest_digest(db@.query_digests)->0;
                n > at && signals[at] == (
                    "MySQL digest averaging "@ + number::fixed(
                        slow.avg_time_ps as nat,
                        1_000_000_000,
                        0,
                    ) + "ms over "@ + number::dec(slow.execution_count as nat) + " executions"@,
                    40u32,
                )
            })
            &&& locked ==> ({
                let lock = first_long_lock(db@.active_lock_waits)->0;
                n > from_cron && signals[n - 1 - from_cron] == (
                    "Confirmed MySQL lock wait of "@ + number::dec(lock.wait_time_secs as nat)
                        + "s on thread "@ + number::dec(lock.waiting_query_id as nat),
                    35u32,
                )
            })
            &&& behind ==> n > 0 && signals[n - 1] == (
                "Cron backlog: "@ + number::dec(db.cron_schedule.running_rows as nat) + " running, "@
                    + number::dec(db.cron_schedule.pending_rows as nat) + " pending rows"@,
                20u32,
            )
            &&& !slowed ==> n == (if pressed {
                1int
            } else {
                0
            }) + (if locked {
                1int
            } else {
                0
            }) + from_cron
            &&& slowed ==> forall|i: int|
                (if pressed {
                    2int
                } else {
                    1
                }) <= i < n - from_cron - (if locked {
                    1int
                } else {
                    0
                }) ==> (#[trigger] signals[i]).1 == 25
        }),
{
    let fpm = installation.runtime.php_workers;
    let db = installation.database_metrics;
    lemma_measured(db);
    assert(has_worker_pressure(fpm@) <==> is_pressed(fpm));
    let pressed = with_pressure(DraftView::of(WORKER_SYMPTOM@), fpm@);
    if is_slowed(db) {
        let slow = slowest_digest(db@.query_digests)->0;
        lemma_slow_digest_grows(pressed, slow, installation, asts);
        let out = with_slow_digest(pressed, slow, installation, asts);
        let p = pressed.signals.len() as int;
        if p > 0 {
            assert(out.signals[0] == out.signals.take(p)[0]);
        }
        if pressed.remediations.len() > 0 {
            assert(out.remediations[0] == out.remediations.take(
                pressed.remediations.len() as int,
            )[0]);
        }
        assert(pressed.queries =~= Seq::empty());
        assert(out.queries =~= seq![slow.fingerprint]);
    }
}

/// Every diagnosis that is made is listed, and nothing else is.
proof fn lemma_listed(
    installation: MagentoInstallation,
    asts: Seq<AstFinding>,
    r: InvestigationResultView,
)
    ensures
        ranked(about(all_diagnoses(installation, asts), None)).contains(r) <==> (
        worker_diagnosis(installation, asts) == Some(r) || fpc_diagnosis(installation, asts)
            == Some(r) || session_diagnosis(installation) == Some(r) || checkout_diagnosis(
            installation,
            asts,
        ) == Some(r) || search_diagnosis(installation.runtime.opensearch@) == Some(r)),
{
    let list = seq![
        worker_diagnosis(installation, asts),
        fpc_diagnosis(installation, asts),
        session_diagnosis(installation),
        checkout_diagnosis(installation, asts),
        search_diagnosis(installation.runtime.opensearch@),
    ];
    lemma_present_contains(list, r);
    assert(list[0] == worker_diagnosis(installation, asts));
    assert(list[1] == fpc_diagnosis(installation, asts));
    assert(list[2] == session_diagnosis(installation));
    assert(list[3] == checkout_diagnosis(installation, asts));
    assert(list[4] == search_diagnosis(installation.runtime.opensearch@));
    if all_diagnoses(installation, asts).contains(r) {
        law_no_diagnosis_is_withheld(installation, asts, None, r);
    }
    if ranked(about(all_diagnoses(installation, asts), None)).contains(r) {
        lemma_ranked_from(all_diagnoses(installation, asts), r);
    }
}

proof fn lemma_present_contains(
    list: Seq<Option<InvestigationResultView>>,
    r: InvestigationResultView,
)
    ensures
        present(list).contains(r) <==> exists|i: int|
            0 <= i < list.len() && #[trigger] list[i] == Some(r),
    decreases list.len(),
{
    if list.len() > 0 {
        let init = list.drop_last();
        lemma_present_contains(init, r);
        let before = present(init);
        let out = present(list);
        if before.contains(r) {
            let k = choose|k: int| 0 <= k < before.len() && before[k] == r;
            assert(out[k] == r);
            let i = choose|i: int| 0 <= i < init.len() && #[trigger] init[i] == Some(r);
            assert(list[i] == Some(r));
        }
        if list.last() == Some(r) {
            assert(out[out.len() - 1] == r);
            assert(list[list.len() - 1] == Some(r));
        }
        if out.contains(r) && !before.contains(r) {
            let k = choose|k: int| 0 <= k < out.len() && out[k] == r;
            if k < before.len() {
                assert(before[k] == r);
            }
        }
        if exists|i: int| 0 <= i < list.len() && #[trigger] list[i] == Some(r) {
            let i = choose|i: int| 0 <= i < list.len() && #[trigger] list[i] == Some(r);
            if i < init.len() {
                assert(init[i] == Some(r));
            }
        }
    }
}

/// Pressure on the scoreboard is diagnosed, and named: a saturation above 75 percent, a
/// request in the queue and a reached ceiling each bring the diagnosis of timeouts, with the
/// scoreboard first in its evidence.
pub proof fn law_pressure_is_diagnosed(
    installation: MagentoInstallation,
    asts: Seq<AstFinding>,
    r: Seq<InvestigationResult>,
)
    requires
        causal::result_views(r) == ranked(about(all_diagnoses(installation, asts), None)),
        installation.runtime.php_workers.is_detected,
        installation.runtime.php_workers.source == WorkerMetricSource::FpmStatus,
        ({
            let fpm = installation.runtime.php_workers;
            ||| fpm.saturation_pct is Some && (fpm.saturation_pct->0).num() > 75 * (
            fpm.saturation_pct->0).den()
            ||| fpm.listen_queue is Some && fpm.listen_queue->0 > 0
            ||| fpm.max_children_reached is Some && fpm.max_children_reached->0 > 0
        }),
    ensures
        exists|i: int|
            0 <= i < r.len() && (#[trigger] r[i]).target@ == "504-slow-timeouts"@
                && r[i].evidence_basis@.len() > 0 && text::has_prefix(
                r[i].evidence_basis@[0]@,
                "PHP-FPM scoreboard: "@,
            ),
{
    law_timeout_diagnosis(installation, asts);
    let d = worker_diagnosis(installation, asts)->0;
    lemma_listed(installation, asts, d);
    let views = causal::result_views(r);
    let i = choose|i: int| 0 <= i < views.len() && views[i] == d;
    assert(r[i]@ == d);
    assert(d.evidence_basis.len() == r[i].evidence_basis@.len());
    assert(d.evidence_basis[0] == r[i].evidence_basis@[0]@);
    let head = "PHP-FPM scoreboard: "@;
    assert(d.evidence_basis[0].subrange(0, head.len() as int) =~= head);
}

/// The diagnosis of timeouts is listed exactly where something was measured that bears on
/// it.
pub proof fn law_timeouts_are_diagnosed(
    installation: MagentoInstallation,
    asts: Seq<AstFinding>,
    r: Seq<InvestigationResult>,
)
    requires
        causal::result_views(r) == ranked(about(all_diagnoses(installation, asts), None)),
    ensures
        (exists|i: int| 0 <= i < r.len() && (#[trigger] r[i]).target@ == "504-slow-timeouts"@) <==> (
        is_pressed(installation.runtime.php_workers) || is_slowed(installation.database_metrics)
            || is_locked(installation.database_metrics) || is_behind(
            installation.database_metrics,
        )),
{
    law_timeout_diagnosis(installation, asts);
    lemma_targets(installation, asts);
    let views = causal::result_views(r);
    let target = "504-slow-timeouts"@;
    if worker_diagnosis(installation, asts) is Some {
        let d = worker_diagnosis(installation, asts)->0;
        lemma_listed(installation, asts, d);
        let i = choose|i: int| 0 <= i < views.len() && views[i] == d;
        assert(r[i].target@ == target);
    }
    if exists|i: int| 0 <= i < r.len() && (#[trigger] r[i]).target@ == target {
        let i = choose|i: int| 0 <= i < r.len() && (#[trigger] r[i]).target@ == target;
        assert(views[i] == r[i]@);
        assert(views.contains(r[i]@));
        lemma_listed(installation, asts, r[i]@);
    }
}

/// Each diagnosis has its target, and no two share one.
proof fn lemma_targets(installation: MagentoInstallation, asts: Seq<AstFinding>)
    ensures
        worker_diagnosis(installation, asts) matches Some(r) ==> r.target == "504-slow-timeouts"@,
        fpc_diagnosis(installation, asts) matches Some(r) ==> r.target == "fpc-ttfb-cache"@,
        session_diagnosis(installation) matches Some(r) ==> r.target == "session-cart-logouts"@,
        checkout_diagnosis(installation, asts) matches Some(r) ==> r.target
            == "checkout-order-hang"@,
        search_diagnosis(installation.runtime.opensearch@) matches Some(r) ==> r.target
            == "search-catalog-500"@,
        "504-slow-timeouts"@ != "fpc-ttfb-cache"@,
        "504-slow-timeouts"@ != "session-cart-logouts"@,
        "504-slow-timeouts"@ != "checkout-order-hang"@,
        "504-slow-timeouts"@ != "search-catalog-500"@,
        "fpc-ttfb-cache"@ != "session-cart-logouts"@,
        "fpc-ttfb-cache"@ != "checkout-order-hang"@,
        "fpc-ttfb-cache"@ != "search-catalog-500"@,
        "session-cart-logouts"@ != "checkout-order-hang"@,
        "session-cart-logouts"@ != "search-catalog-500"@,
        "checkout-order-hang"@ != "search-catalog-500"@,
{
    reveal_strlit("504-slow-timeouts");
    reveal_strlit("fpc-ttfb-cache");
    reveal_strlit("session-cart-logouts");
    reveal_strlit("checkout-order-hang");
    reveal_strlit("search-catalog-500");
    assert("504-slow-timeouts"@[0] == '5');
    assert("fpc-ttfb-cache"@[0] == 'f');
    assert("session-cart-logouts"@[1] == 'e' && "session-cart-logouts"@[2] == 's');
    assert("checkout-order-hang"@[0] == 'c');
    assert("search-catalog-500"@[0] == 's' && "search-catalog-500"@[2] == 'a');
    assert("session-cart-logouts"@[0] == 's');
}

/// A symptom keeps exactly the diagnoses whose target, title or summary holds it, letter
/// case aside.
pub proof fn law_symptom_selects(
    installation: MagentoInstallation,
    asts: Seq<AstFinding>,
    symptom: &str,
    r: InvestigationResultView,
)
    ensures
        ranked(about(all_diagnoses(installation, asts), Some(symptom))).contains(r) <==> (ranked(
            about(all_diagnoses(installation, asts), None),
        ).contains(r) && (text::contains_text(
            text::lowercase_of(r.target),
            text::lowercase_of(symptom@),
        ) || text::contains_text(text::lowercase_of(r.title), text::lowercase_of(symptom@))
            || text::contains_text(text::lowercase_of(r.summary), text::lowercase_of(symptom@)))),
{
    let all = all_diagnoses(installation, asts);
    if ranked(about(all, Some(symptom))).contains(r) {
        law_every_diagnosis_is_supported(installation, asts, Some(symptom), r);
        law_no_diagnosis_is_withheld(installation, asts, None, r);
    }
    if ranked(about(all, None)).contains(r) {
        lemma_ranked_from(all, r);
        if is_about(r, symptom@) {
            law_no_diagnosis_is_withheld(installation, asts, Some(symptom), r);
        }
    }
}

/// An investigation ends in two where a diagnosis has an impact of 90 or more, in one where
/// there is any, and in zero where there is none.
pub proof fn law_exit_code(r: Seq<InvestigationResult>)
    ensures
        ({
            let code = investigation_code(causal::result_views(r));
            &&& code == 0 <==> r.len() == 0
            &&& code == 2 <==> exists|i: int|
                0 <= i < r.len() && (#[trigger] r[i]).impact_score >= 90
            &&& code <= 2
        }),
{
    let views = causal::result_views(r);
    assert(forall|i: int| 0 <= i < r.len() ==> #[trigger] views[i] == r[i]@);
    if any_critical(views) {
        let i = choose|i: int|
            0 <= i < views.len() && (#[trigger] views[i]).impact_score >= CRITICAL_IMPACT;
        assert(r[i].impact_score >= 90);
    }
    if exists|i: int| 0 <= i < r.len() && (#[trigger] r[i]).impact_score >= 90 {
        let i = choose|i: int| 0 <= i < r.len() && (#[trigger] r[i]).impact_score >= 90;
        assert(views[i].impact_score >= CRITICAL_IMPACT);
    }
}

/// The diagnosis of a punctured page cache is made exactly where a block is uncacheable. The
/// blocks weigh 55, each costly loop in one of them 25, and a hit ratio below seven in ten of
/// a cache that answered 30.
pub proof fn law_puncture_diagnosis(installation: MagentoInstallation, asts: Seq<AstFinding>)
    ensures
        ({
            let blocks = installation.runtime.fpc.uncacheable_blocks@;
            let cache = installation.runtime.redis_default;
            let found = fpc_diagnosis(installation, asts);
            let r = found->0;
            let n = r.evidence_basis.len() as int;
            let count = number::dec(blocks.len());
            let thrashes = cache.is_reachable && cache.hit_ratio is Some && 10 * (
            cache.hit_ratio->0).num() < 7 * (cache.hit_ratio->0).den();
            let signals = fpc_signals(installation, asts);
            &&& found is Some <==> blocks.len() > 0
            &&& found is Some ==> {
                &&& r.target == "fpc-ttfb-cache"@
                &&& r.title == "Storefront Full Page Cache Punctured by Layout XML Declarations"@
                &&& r.confidence == signals::confidence_of(signals)
                &&& r.impact_score == signals::impact_of(signals)
                &&& n == signals.len() && n > 0
                &&& forall|i: int| 0 <= i < n ==> #[trigger] r.evidence_basis[i] == signals[i].0
                &&& signals[0] == (
                    count + " storefront layout block(s) declare cacheable=\"false\""@,
                    55u32,
                )
                &&& thrashes ==> n > 1 && signals[n - 1] == (
                    "Redis cache hit ratio measured at "@ + number::fixed(
                        (cache.hit_ratio->0).num() * 100,
                        (cache.hit_ratio->0).den(),
                        1,
                    ) + "%"@,
                    30u32,
                )
                &&& forall|i: int|
                    1 <= i < (if thrashes {
                        n - 1
                    } else {
                        n
                    }) ==> (#[trigger] signals[i]).1 == 25
            }
        }),
{
    let blocks = installation.runtime.fpc@.uncacheable_blocks;
    let cache = installation.runtime.redis_default@;
    assert(blocks.len() == installation.runtime.fpc.uncacheable_blocks@.len());
    let count = number::dec(blocks.len());
    let found = DraftView::of(FPC_SYMPTOM@).signal(count + FPC_DECLARE@, 55).measured(
        CausalNodeType::Symptom,
        "Full Page Cache"@,
        count + FPC_DECLARE_EXPLICITLY@,
        count + " uncacheable blocks"@,
    );
    lemma_blocks_keep_signals(found, blocks);
    let with = with_blocks(found, blocks);
    lemma_costly_weights(with, asts, blocks);
    let costly = with_costly_loops(with, asts, blocks);
    assert(costly.signals[0] == costly.signals.take(1)[0]);
}

/// The signals of the diagnosis of a punctured page cache.
pub open spec fn fpc_signals(installation: MagentoInstallation, asts: Seq<AstFinding>) -> Seq<
    (Seq<char>, u32),
> {
    let blocks = installation.runtime.fpc@.uncacheable_blocks;
    let count = number::dec(blocks.len());
    let found = DraftView::of(FPC_SYMPTOM@).signal(count + FPC_DECLARE@, 55).measured(
        CausalNodeType::Symptom,
        "Full Page Cache"@,
        count + FPC_DECLARE_EXPLICITLY@,
        count + " uncacheable blocks"@,
    );
    with_hit_ratio(
        with_costly_loops(with_blocks(found, blocks), asts, blocks),
        installation.runtime.redis_default@,
    ).signals
}

proof fn lemma_costly_block_weights(
    d: DraftView,
    ast: AstFinding,
    blocks: Seq<UncacheableBlockView>,
)
    ensures
        ({
            let out = with_costly_blocks(d, ast, blocks);
            &&& out.signals.len() >= d.signals.len()
            &&& out.signals.take(d.signals.len() as int) == d.signals
            &&& forall|i: int|
                d.signals.len() <= i < out.signals.len() ==> (#[trigger] out.signals[i]).1 == 25
        }),
    decreases blocks.len(),
{
    if blocks.len() == 0 {
        assert(d.signals.take(d.signals.len() as int) =~= d.signals);
    } else {
        let before = with_costly_blocks(d, ast, blocks.drop_last());
        lemma_costly_block_weights(d, ast, blocks.drop_last());
        let out = with_costly_blocks(d, ast, blocks);
        assert(out.signals.take(d.signals.len() as int) =~= before.signals.take(
            d.signals.len() as int,
        ));
        assert forall|i: int| d.signals.len() <= i < out.signals.len() implies (
        #[trigger] out.signals[i]).1 == 25 by {
            if i < before.signals.len() {
                assert(out.signals[i] == before.signals[i]);
            }
        }
    }
}

proof fn lemma_costly_weights(
    d: DraftView,
    asts: Seq<AstFinding>,
    blocks: Seq<UncacheableBlockView>,
)
    ensures
        ({
            let out = with_costly_loops(d, asts, blocks);
            &&& out.signals.len() >= d.signals.len()
            &&& out.signals.take(d.signals.len() as int) == d.signals
            &&& forall|i: int|
                d.signals.len() <= i < out.signals.len() ==> (#[trigger] out.signals[i]).1 == 25
        }),
    decreases asts.len(),
{
    if asts.len() == 0 {
        assert(d.signals.take(d.signals.len() as int) =~= d.signals);
    } else {
        let before = with_costly_loops(d, asts.drop_last(), blocks);
        lemma_costly_weights(d, asts.drop_last(), blocks);
        lemma_costly_block_weights(before, asts.last(), blocks);
        let out = with_costly_loops(d, asts, blocks);
        let k = before.signals.len() as int;
        if asts.last().in_loop {
            assert(out.signals.take(k) == before.signals);
            assert(out.signals.take(d.signals.len() as int) =~= out.signals.take(k).take(
                d.signals.len() as int,
            ));
            assert forall|i: int| d.signals.len() <= i < out.signals.len() implies (
            #[trigger] out.signals[i]).1 == 25 by {
                if i < k {
                    assert(out.signals[i] == out.signals.take(k)[i]);
                }
            }
        }
    }
}

/// A loop is costly to a page where its class is that of an uncacheable block: it then adds
/// one signal for each such block. An operation outside any loop adds nothing.
pub proof fn law_costly_loops(
    d: DraftView,
    asts: Seq<AstFinding>,
    ast: AstFinding,
    blocks: Seq<UncacheableBlockView>,
    b: UncacheableBlockView,
)
    ensures
        !ast.in_loop ==> with_costly_loops(d, asts.push(ast), blocks) == with_costly_loops(
            d,
            asts,
            blocks,
        ),
        ast.in_loop ==> with_costly_loops(d, asts.push(ast), blocks) == with_costly_blocks(
            with_costly_loops(d, asts, blocks),
            ast,
            blocks,
        ),
        ({
            let before = with_costly_blocks(d, ast, blocks);
            let after = with_costly_blocks(d, ast, blocks.push(b));
            let runs = b.class_name is Some && ast.class_name is Some && text::contains_text(
                b.class_name->0,
                (ast.class_name->0)@,
            );
            &&& !runs ==> after == before
            &&& runs ==> after.signals == before.signals.push(
                (
                    "Costly "@ + ast.call_signature@ + " inside uncacheable block "@ + b.block_name,
                    25u32,
                ),
            ) && after.chain.nodes.len() == before.chain.nodes.len() + 1
        }),
{
    assert(asts.push(ast).drop_last() =~= asts);
    assert(blocks.push(b).drop_last() =~= blocks);
}

/// Every uncacheable block has its module named, a step and a remedy.
pub proof fn law_blocks_are_named(
    d: DraftView,
    blocks: Seq<UncacheableBlockView>,
    b: UncacheableBlockView,
)
    ensures
        ({
            let before = with_blocks(d, blocks);
            let after = with_blocks(d, blocks.push(b));
            let at = b.source_file + ":"@ + number::dec(b.line as nat);
            &&& after.culprits.contains(b.module)
            &&& after.signals == before.signals
            &&& after.chain.nodes.len() == before.chain.nodes.len() + 1
            &&& after.chain.nodes.last().node_type == CausalNodeType::Culprit
            &&& after.chain.nodes.last().description == "Block '"@ + b.block_name + "' in "@
                + b.layout_handle + " ("@ + at + ") disables page caching"@
            &&& after.remediations == before.remediations.push(
                "Remove cacheable=\"false\" from "@ + b.block_name + " in "@ + at
                    + ". Fetch dynamic data via customer-data.js or GraphQL instead."@,
            )
        }),
{
    assert(blocks.push(b).drop_last() =~= blocks);
    lemma_named_once(with_blocks(d, blocks).culprits, b.module, b.module);
}

/// Whether the sessions lie in one database of one server with a cache.
pub open spec fn shares_database(env: SanitizedEnvConfig) -> bool {
    env.redis_session_db is Some && ((text::text_opt(env.redis_session_db) == text::text_opt(
        env.redis_cache_db,
    ) && text::text_opt(env.redis_session_host) == text::text_opt(env.redis_cache_host)) || (
    text::text_opt(env.redis_session_db) == text::text_opt(env.redis_page_cache_db)
        && text::text_opt(env.redis_session_host) == text::text_opt(env.redis_page_cache_host)))
}

/// The diagnosis of lost sessions is made exactly where the sessions share a database with a
/// cache, where a session instance that answered evicts keys whatever their lifetime, or
/// where it evicted keys and is not the instance of the cache; they weigh 30, 50 and 40.
pub proof fn law_session_diagnosis(installation: MagentoInstallation)
    ensures
        ({
            let session = installation.runtime.redis_session;
            let cache = installation.runtime.redis_default;
            let shared = shares_database(installation.env_config);
            let unsafe_policy = session.is_reachable && session.maxmemory_policy is Some
                && text::has_prefix((session.maxmemory_policy->0)@, "allkeys"@);
            let evicts = session.is_reachable && session.evicted_keys is Some
                && session.evicted_keys->0 > 0 && !(session.endpoint is Some && text::text_opt(
                session.endpoint,
            ) == text::text_opt(cache.endpoint));
            let evicted = match session.evicted_keys {
                Some(k) => number::dec(k as nat),
                None => number::dec(0),
            };
            let found = session_diagnosis(installation);
            let r = found->0;
            let signals = session_draft(installation).signals;
            &&& found is Some <==> (shared || unsafe_policy || evicts)
            &&& found is Some ==> {
                &&& r.target == "session-cart-logouts"@
                &&& r.causal_chain.symptom
                    == "Customers Unexpectedly Logged Out & Empty Shopping Carts"@
                &&& unsafe_policy || evicts ==> r.title
                    == "Customer Session Purging Caused by Redis Eviction Under Memory Pressure"@
                &&& !unsafe_policy && !evicts ==> r.title
                    == "Session and Cache Storage Share One Redis Database"@
                &&& r.confidence == signals::confidence_of(signals)
                &&& r.impact_score == signals::impact_of(signals)
                &&& r.evidence_basis.len() == signals.len()
                &&& forall|i: int|
                    0 <= i < signals.len() ==> #[trigger] r.evidence_basis[i] == signals[i].0
                &&& r.remediation_steps.len() == signals.len()
            }
            &&& signals == (if shared {
                seq![("env.php shares one Redis database between sessions and cache"@, 30u32)]
            } else {
                Seq::empty()
            }) + (if unsafe_policy {
                seq![
                    (
                        "Session Redis maxmemory-policy is '"@ + (session.maxmemory_policy->0)@
                            + "', which ignores TTLs"@,
                        50u32,
                    ),
                ]
            } else {
                Seq::empty()
            }) + (if evicts {
                seq![(evicted + " keys evicted on the dedicated session instance"@, 40u32)]
            } else {
                Seq::empty()
            })
        }),
{
    let session = installation.runtime.redis_session@;
    let cache = installation.runtime.redis_default@;
    let env = installation.env_config@;
    assert(redis_check::redis_issues(env).len() > 0 <==> shares_database(installation.env_config));
}

/// Whether a plugin wraps the placement of orders.
pub open spec fn wraps_orders(p: Plugin) -> bool {
    p.plugin_type == PluginType::Around && (text::contains_text(
        p.target_class@,
        "QuoteManagement"@,
    ) || text::contains_text(p.target_class@, "CartRepository"@))
}

/// The plugins that wrap the placement of orders are counted one by one.
pub proof fn law_hot_plugins_are_counted(plugins: Seq<Plugin>, p: Plugin)
    ensures
        hot_plugin_count(plugins.push(p)) == hot_plugin_count(plugins) + if wraps_orders(p) {
            1nat
        } else {
            0
        },
        hot_plugin_count(Seq::<Plugin>::empty()) == 0,
{
    assert(plugins.push(p).drop_last() =~= plugins);
}

/// Each plugin that wraps the placement of orders has its module named and a step; any other
/// adds nothing.
pub proof fn law_hot_plugins_are_named(d: DraftView, plugins: Seq<Plugin>, p: Plugin)
    ensures
        ({
            let before = with_hot_plugins(d, plugins);
            let after = with_hot_plugins(d, plugins.push(p));
            &&& !wraps_orders(p) ==> after == before
            &&& wraps_orders(p) ==> {
                &&& after.culprits.contains(p.module@)
                &&& after.signals == before.signals
                &&& after.chain.nodes.len() == before.chain.nodes.len() + 1
                &&& after.chain.nodes.last().description == "Around plugin '"@ + p.name@
                    + "' wraps "@ + p.target_class@ + " ("@ + p.source_file@ + ")"@
            }
        }),
{
    assert(plugins.push(p).drop_last() =~= plugins);
    lemma_named_once(with_hot_plugins(d, plugins).culprits, p.module@, p.module@);
}

/// A call out of a plugin is an HTTP request whose class the plugin's class holds. Each adds
/// a signal of weight 45 and a remedy; anything else adds nothing.
pub proof fn law_calls_of_a_plugin(
    d: DraftView,
    p: Plugin,
    asts: Seq<AstFinding>,
    ast: AstFinding,
)
    ensures
        ({
            let before = with_calls(d, p, asts);
            let after = with_calls(d, p, asts.push(ast));
            let calls = ast.operation == OperationType::HttpRequest && ast.class_name is Some
                && text::contains_text(p.plugin_class@, (ast.class_name->0)@);
            &&& !calls ==> after == before
            &&& calls ==> {
                &&& after.signals == before.signals.push(
                    (
                        "Synchronous "@ + ast.call_signature@ + " inside around plugin '"@ + p.name@
                            + "'"@,
                        45u32,
                    ),
                )
                &&& after.remediations.len() == before.remediations.len() + 1
                &&& after.chain.nodes.len() == before.chain.nodes.len() + 1
                &&& after.chain.nodes.last().node_type == CausalNodeType::Culprit
                &&& after.chain.nodes.last().subsystem == p.module@
            }
        }),
{
    assert(asts.push(ast).drop_last() =~= asts);
}

/// Only plugins that wrap the placement of orders are searched for calls.
pub proof fn law_only_hot_plugins_call(
    d: DraftView,
    plugins: Seq<Plugin>,
    p: Plugin,
    asts: Seq<AstFinding>,
)
    ensures
        !wraps_orders(p) ==> with_plugin_calls(d, plugins.push(p), asts) == with_plugin_calls(
            d,
            plugins,
            asts,
        ),
        wraps_orders(p) ==> with_plugin_calls(d, plugins.push(p), asts) == with_calls(
            with_plugin_calls(d, plugins, asts),
            p,
            asts,
        ),
{
    assert(plugins.push(p).drop_last() =~= plugins);
}

proof fn lemma_call_weights(d: DraftView, p: Plugin, asts: Seq<AstFinding>)
    ensures
        ({
            let out = with_calls(d, p, asts);
            &&& out.signals.len() >= d.signals.len()
            &&& out.signals.take(d.signals.len() as int) == d.signals
            &&& forall|i: int|
                d.signals.len() <= i < out.signals.len() ==> (#[trigger] out.signals[i]).1 == 45
        }),
    decreases asts.len(),
{
    if asts.len() == 0 {
        assert(d.signals.take(d.signals.len() as int) =~= d.signals);
    } else {
        let before = with_calls(d, p, asts.drop_last());
        lemma_call_weights(d, p, asts.drop_last());
        let out = with_calls(d, p, asts);
        assert(out.signals.take(d.signals.len() as int) =~= before.signals.take(
            d.signals.len() as int,
        ));
        assert forall|i: int| d.signals.len() <= i < out.signals.len() implies (
        #[trigger] out.signals[i]).1 == 45 by {
            if i < before.signals.len() {
                assert(out.signals[i] == before.signals[i]);
            }
        }
    }
}

proof fn lemma_plugin_call_weights(d: DraftView, plugins: Seq<Plugin>, asts: Seq<AstFinding>)
    ensures
        ({
            let out = with_plugin_calls(d, plugins, asts);
            &&& out.signals.len() >= d.signals.len()
            &&& out.signals.take(d.signals.len() as int) == d.signals
            &&& forall|i: int|
                d.signals.len() <= i < out.signals.len() ==> (#[trigger] out.signals[i]).1 == 45
        }),
    decreases plugins.len(),
{
    if plugins.len() == 0 {
        assert(d.signals.take(d.signals.len() as int) =~= d.signals);
    } else {
        let before = with_plugin_calls(d, plugins.drop_last(), asts);
        lemma_plugin_call_weights(d, plugins.drop_last(), asts);
        lemma_call_weights(before, plugins.last(), asts);
        let out = with_plugin_calls(d, plugins, asts);
        let k = before.signals.len() as int;
        if is_hot_plugin(plugins.last()) {
            assert(out.signals.take(k) == before.signals);
            assert(out.signals.take(d.signals.len() as int) =~= out.signals.take(k).take(
                d.signals.len() as int,
            ));
            assert forall|i: int| d.signals.len() <= i < out.signals.len() implies (
            #[trigger] out.signals[i]).1 == 45 by {
                if i < k {
                    assert(out.signals[i] == out.signals.take(k)[i]);
                }
            }
        }
    }
}

/// Whether a confirmed lock wait lies on a table of quotes or sales.
pub open spec fn locks_orders(lock: ActiveLockWaitView) -> bool {
    lock.is_confirmed_lock_wait && lock.table_name is Some && (text::has_prefix(
        lock.table_name->0,
        "quote"@,
    ) || text::has_prefix(lock.table_name->0, "sales_"@))
}

/// The lock wait that counts is the first on a table of quotes or sales.
pub proof fn law_first_order_lock(locks: Seq<ActiveLockWaitView>, i: int)
    requires
        0 <= i < locks.len(),
        locks_orders(locks[i]),
        forall|j: int| 0 <= j < i ==> !locks_orders(#[trigger] locks[j]),
    ensures
        first_order_lock(locks) == Some(locks[i]),
    decreases i,
{
    if i > 0 {
        let rest = locks.drop_first();
        assert(!locks_orders(locks[0]));
        assert(forall|j: int| 0 <= j < rest.len() ==> #[trigger] rest[j] == locks[j + 1]);
        law_first_order_lock(rest, i - 1);
    }
}

/// Without a lock wait on a table of quotes or sales there is none that counts.
pub proof fn law_no_order_lock(locks: Seq<ActiveLockWaitView>)
    requires
        forall|j: int| 0 <= j < locks.len() ==> !locks_orders(#[trigger] locks[j]),
    ensures
        first_order_lock(locks) is None,
    decreases locks.len(),
{
    if locks.len() > 0 {
        let rest = locks.drop_first();
        assert(!locks_orders(locks[0]));
        assert(forall|j: int| 0 <= j < rest.len() ==> #[trigger] rest[j] == locks[j + 1]);
        law_no_order_lock(rest);
    }
}

proof fn lemma_hot_plugin_count(plugins: Seq<Plugin>)
    ensures
        hot_plugin_count(plugins) > 0 <==> exists|i: int|
            0 <= i < plugins.len() && wraps_orders(#[trigger] plugins[i]),
    decreases plugins.len(),
{
    if plugins.len() > 0 {
        let init = plugins.drop_last();
        lemma_hot_plugin_count(init);
        assert(forall|i: int| 0 <= i < init.len() ==> #[trigger] init[i] == plugins[i]);
        assert(plugins.last() == plugins[plugins.len() - 1]);
        if exists|i: int| 0 <= i < plugins.len() && wraps_orders(#[trigger] plugins[i]) {
            let i = choose|i: int| 0 <= i < plugins.len() && wraps_orders(#[trigger] plugins[i]);
            if i < init.len() {
                assert(wraps_orders(init[i]));
            }
        }
    }
}

/// The diagnosis of stalled orders is made exactly where an around plugin wraps their
/// placement; that weighs 25, each HTTP call in such a plugin 45, and a lock wait on a table
/// of quotes or sales 35.
pub proof fn law_checkout_diagnosis(installation: MagentoInstallation, asts: Seq<AstFinding>)
    ensures
        ({
            let plugins = installation.plugins@;
            let lock = first_order_lock(installation.database_metrics@.active_lock_waits);
            let called = exists|i: int, j: int|
                0 <= i < plugins.len() && 0 <= j < asts.len() && wraps_orders(#[trigger] plugins[i])
                    && (#[trigger] asts[j]).operation == OperationType::HttpRequest
                    && asts[j].class_name is Some && text::contains_text(
                    plugins[i].plugin_class@,
                    (asts[j].class_name->0)@,
                );
            let found = checkout_diagnosis(installation, asts);
            let r = found->0;
            let signals = checkout_draft(installation, asts).signals;
            let n = signals.len() as int;
            &&& found is Some <==> exists|i: int|
                0 <= i < plugins.len() && wraps_orders(#[trigger] plugins[i])
            &&& found is Some ==> {
                &&& r.target == "checkout-order-hang"@
                &&& called ==> r.title
                    == "Synchronous External Network Calls Intercepting Checkout Hot Path"@
                &&& !called && lock is Some ==> r.title
                    == "Order Placement Serialised by Quote Table Lock Contention"@
                &&& !called && lock is None ==> r.title
                    == "Around Plugins Intercept the Order Placement Hot Path"@
                &&& r.confidence == signals::confidence_of(signals)
                &&& r.impact_score == signals::impact_of(signals)
                &&& r.evidence_basis.len() == n
                &&& forall|i: int| 0 <= i < n ==> #[trigger] r.evidence_basis[i] == signals[i].0
                &&& r.remediation_steps.len() > 0
            }
            &&& n > 0
            &&& signals[0] == (
                number::dec(hot_plugin_count(plugins))
                    + " around plugin(s) intercept QuoteManagement/CartRepository"@,
                25u32,
            )
            &&& lock is Some ==> n > 1 && signals[n - 1] == (
                "Confirmed lock wait of "@ + number::dec((lock->0).wait_time_secs as nat)
                    + "s on "@ + text::text_or((lock->0).table_name, "a quote/sales table"@),
                35u32,
            )
            &&& forall|i: int|
                1 <= i < (if lock is Some {
                    n - 1
                } else {
                    n
                }) ==> (#[trigger] signals[i]).1 == 45
        }),
{
    let plugins = installation.plugins@;
    let lock = first_order_lock(installation.database_metrics@.active_lock_waits);
    lemma_hot_plugin_count(plugins);
    let count = number::dec(hot_plugin_count(plugins));
    let counted = DraftView::of(CHECKOUT_SYMPTOM@).signal(count + HOT_PLUGIN_SIGNAL@, 25).step(
        CausalNodeType::Symptom,
        "Storefront Checkout"@,
        count + HOT_PLUGIN_SYMPTOM@,
    );
    lemma_hot_plugins_keep_signals(counted, plugins);
    let hot = with_hot_plugins(counted, plugins);
    lemma_plugin_call_weights(hot, plugins, asts);
    let called = with_plugin_calls(hot, plugins, asts);
    assert(called.signals[0] == called.signals.take(1)[0]);
    if has_plugin_call(plugins, asts) {
        let i = choose|i: int|
            0 <= i < plugins.len() && is_hot_plugin(#[trigger] plugins[i]) && has_call(
                plugins[i],
                asts,
            );
        let j = choose|j: int| 0 <= j < asts.len() && calls_out(plugins[i], #[trigger] asts[j]);
        assert(wraps_orders(plugins[i]) && asts[j].operation == OperationType::HttpRequest);
    }
    if exists|i: int, j: int|
        0 <= i < plugins.len() && 0 <= j < asts.len() && wraps_orders(#[trigger] plugins[i]) && (
        #[trigger] asts[j]).operation == OperationType::HttpRequest && asts[j].class_name is Some
            && text::contains_text(plugins[i].plugin_class@, (asts[j].class_name->0)@) {
        let (i, j) = choose|i: int, j: int|
            0 <= i < plugins.len() && 0 <= j < asts.len() && wraps_orders(#[trigger] plugins[i]) && (
            #[trigger] asts[j]).operation == OperationType::HttpRequest && asts[j].class_name
                is Some && text::contains_text(plugins[i].plugin_class@, (asts[j].class_name->0)@);
        assert(calls_out(plugins[i], asts[j]));
        assert(has_call(plugins[i], asts));
        assert(is_hot_plugin(plugins[i]));
    }
}

/// The diagnosis of a failing search is made exactly where a cluster that answered is red,
/// leaves shards unassigned on more than one node, or was seen to hold no catalog index; they
/// weigh 50, 30 and 45.
pub proof fn law_search_diagnosis(os: OpenSearchStatusView)
    ensures
        ({
            let red = os.status == Some("red"@);
            let unassigned = os.unassigned_shards is Some && os.unassigned_shards->0 > 0
                && os.number_of_nodes is Some && os.number_of_nodes->0 > 1;
            let missing = os.catalog_index_probe is Succeeded && !os.has_catalog_index;
            let shards = match os.unassigned_shards {
                Some(k) => number::dec(k as nat),
                None => number::dec(0),
            };
            let nodes = match os.number_of_nodes {
                Some(k) => number::dec(k as nat),
                None => number::dec(0),
            };
            let found = search_diagnosis(os);
            let r = found->0;
            let signals = search_draft(os).signals;
            &&& found is Some <==> os.is_reachable && (red || unassigned || missing)
            &&& found is Some ==> {
                &&& r.target == "search-catalog-500"@
                &&& missing && !red && !unassigned ==> r.title
                    == "Catalog Search Index Missing From a Healthy Cluster"@
                &&& missing && (red || unassigned) ==> r.title
                    == "OpenSearch Shard Degradation With No Catalog Search Index"@
                &&& !missing ==> r.title == "OpenSearch Cluster Shard Degradation"@
                &&& r.confidence == signals::confidence_of(signals)
                &&& r.impact_score == signals::impact_of(signals)
                &&& r.evidence_basis.len() == signals.len()
                &&& forall|i: int|
                    0 <= i < signals.len() ==> #[trigger] r.evidence_basis[i] == signals[i].0
                &&& r.culprit_modules == seq!["Magento_CatalogSearch"@]
                &&& r.remediation_steps.len() == signals.len()
            }
            &&& signals == (if red {
                seq![("Cluster health is red"@, 50u32)]
            } else if unassigned {
                seq![(shards + " unassigned shards across "@ + nodes + " nodes"@, 30u32)]
            } else {
                Seq::empty()
            }) + (if missing {
                seq![("Index listing confirmed no product or category index exists"@, 45u32)]
            } else {
                Seq::empty()
            })
        }),
{
    let signals = search_draft(os).signals;
    assert(search_draft(os).culprits =~= seq!["Magento_CatalogSearch"@]);
}

/// Each diagnosis is listed exactly where it is made.
pub proof fn law_diagnoses_are_listed(
    installation: MagentoInstallation,
    asts: Seq<AstFinding>,
    r: Seq<InvestigationResult>,
)
    requires
        causal::result_views(r) == ranked(about(all_diagnoses(installation, asts), None)),
    ensures
        (exists|i: int| 0 <= i < r.len() && (#[trigger] r[i]).target@ == "fpc-ttfb-cache"@)
            <==> installation.runtime.fpc.uncacheable_blocks@.len() > 0,
        (exists|i: int| 0 <= i < r.len() && (#[trigger] r[i]).target@ == "session-cart-logouts"@)
            <==> session_diagnosis(installation) is Some,
        (exists|i: int| 0 <= i < r.len() && (#[trigger] r[i]).target@ == "checkout-order-hang"@)
            <==> exists|i: int|
            0 <= i < installation.plugins@.len() && wraps_orders(
                #[trigger] installation.plugins@[i],
            ),
        (exists|i: int| 0 <= i < r.len() && (#[trigger] r[i]).target@ == "search-catalog-500"@)
            <==> search_diagnosis(installation.runtime.opensearch@) is Some,
{
    lemma_targets(installation, asts);
    law_puncture_diagnosis(installation, asts);
    law_checkout_diagnosis(installation, asts);
    lemma_target_listed(installation, asts, r, fpc_diagnosis(installation, asts), "fpc-ttfb-cache"@);
    lemma_target_listed(
        installation,
        asts,
        r,
        session_diagnosis(installation),
        "session-cart-logouts"@,
    );
    lemma_target_listed(
        installation,
        asts,
        r,
        checkout_diagnosis(installation, asts),
        "checkout-order-hang"@,
    );
    lemma_target_listed(
        installation,
        asts,
        r,
        search_diagnosis(installation.runtime.opensearch@),
        "search-catalog-500"@,
    );
}

proof fn lemma_target_listed(
    installation: MagentoInstallation,
    asts: Seq<AstFinding>,
    r: Seq<InvestigationResult>,
    found: Option<InvestigationResultView>,
    target: Seq<char>,
)
    requires
        causal::result_views(r) == ranked(about(all_diagnoses(installation, asts), None)),
        found matches Some(d) ==> d.target == target && (fpc_diagnosis(installation, asts) == found
            || session_diagnosis(installation) == found || checkout_diagnosis(installation, asts)
            == found || search_diagnosis(installation.runtime.opensearch@) == found),
        forall|d: InvestigationResultView|
            (worker_diagnosis(installation, asts) == Some(d) || fpc_diagnosis(installation, asts)
                == Some(d) || session_diagnosis(installation) == Some(d) || checkout_diagnosis(
                installation,
                asts,
            ) == Some(d) || search_diagnosis(installation.runtime.opensearch@) == Some(d))
                && #[trigger] d.target == target ==> found == Some(d),
    ensures
        (exists|i: int| 0 <= i < r.len() && (#[trigger] r[i]).target@ == target) <==> found is Some,
{
    let views = causal::result_views(r);
    if found is Some {
        let d = found->0;
        lemma_listed(installation, asts, d);
        let i = choose|i: int| 0 <= i < views.len() && views[i] == d;
        assert(views[i] == r[i]@);
        assert(r[i].target@ == target);
    }
    if exists|i: int| 0 <= i < r.len() && (#[trigger] r[i]).target@ == target {
        let i = choose|i: int| 0 <= i < r.len() && (#[trigger] r[i]).target@ == target;
        assert(views[i] == r[i]@);
        assert(views.contains(r[i]@));
        lemma_listed(installation, asts, r[i]@);
        assert(r[i]@.target == target);
    }
}

} // verus!
