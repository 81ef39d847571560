//! Terminal reports on single services: Redis, the page cache, PHP-FPM, Nginx and OpenSearch.

use crate::model::{
    FpcProbeStatus, FpcProbeStatusView, NginxStatus, NginxStatusView, OpenSearchStatus,
    OpenSearchStatusView, PhpWorkerMetrics, PhpWorkerMetricsView, ProbeOutcome, ProbeOutcomeView,
    RedisStatus, RedisStatusView, SanitizedEnvConfig, UncacheableBlock, UncacheableBlockView,
    WorkerMetricSource,
};
use crate::number::{self, is_positive, num, num_or};
use crate::ratio::{self, fixed_text_or, is_above, Ratio};
use crate::redis_check::{self, check_redis_config, RedisIssue, RedisIssueView};
use crate::report::{self, put, put_all, put_span, put_styled, styled_span, Span, SpanView, Style};
use crate::text::{self, join, same};
use vstd::prelude::*;
use vstd::string::*;

verus! {

/// The release that reports are headed with.
pub const CALVER_VERSION: &'static str = "v2026.09.12";

/// What stands in the place of a value that was not measured.
pub const UNMEASURED: &'static str = "-";

/// The bytes of a megabyte.
pub const BYTES_PER_MB: u64 = 1_048_576;

/// How to reach Redis elsewhere.
pub const REDIS_HINT: &'static str =
    "If Redis runs on another node, pass --redis-cache / --redis-session (and --redis-password, or MDOCTOR_REDIS_PASSWORD).";

/// What a puncture of the page cache costs.
pub const PUNCTURE_WARNING: &'static str =
    "WARNING: cacheable=\"false\" disables FPC for the entire page, forcing 100% dynamic rendering.";

/// A page cache without punctures.
pub const NO_PUNCTURES: &'static str =
    "✓ No storefront layout blocks found puncturing Full Page Cache.";

/// How to reach PHP-FPM elsewhere.
pub const FPM_HINT: &'static str =
    "If PHP-FPM runs on another node, point mdoctor at its status page:";

/// An example of that.
pub const FPM_EXAMPLE: &'static str = "mdoctor fpm --fpm-status http://web-1.internal/status";

/// What that needs.
pub const FPM_NEEDS: &'static str =
    "(the pool needs pm.status_path set, and the location reachable from here)";

/// A pool larger than its host.
pub const FPM_OOM_WARNING: &'static str =
    "CRITICAL: pm.max_children x worker footprint exceeds 80% of host RAM. OOM-killer risk under traffic spikes.";

/// What a source without a scoreboard cannot tell.
pub const FPM_SOURCE_NOTE: &'static str =
    "Note: saturation and listen queue cannot be measured from this source. Enable pm.status_path and pass --fpm-status for reliable worker pressure figures.";

/// Workers under pressure.
pub const FPM_PRESSURE_WARNING: &'static str =
    "WARNING: workers are saturated or requests are queuing; expect HTTP 504s under load.";

/// A pool within its bounds.
pub const FPM_ALL_WELL: &'static str =
    "✓ Worker pool operating within safe memory and concurrency bounds.";

/// How to measure Nginx.
pub const NGINX_HINT: &'static str =
    "Add `stub_status;` to a restricted location block, then point mdoctor at it:";

/// An example of that.
pub const NGINX_EXAMPLE: &'static str =
    "mdoctor nginx --nginx-status http://web-1.internal/nginx_status";

/// How to reach OpenSearch elsewhere.
pub const SEARCH_HINT: &'static str =
    "If OpenSearch runs on another node, pass --opensearch host:9200 (and --opensearch-auth, or MDOCTOR_OPENSEARCH_AUTH, for a secured cluster).";

/// The heading of a report.
pub open spec fn report_heading(subject: Seq<char>) -> Seq<SpanView> {
    seq![
        report::plain("\n"@),
        report::styled(CALVER_VERSION@, Style::BoldCyan),
        report::plain(" - "@ + subject + "\n\n"@),
    ]
}

/// Writes the heading of a report.
pub fn write_report_heading(subject: &str) -> (r: Vec<Span>)
    ensures
        report::span_views(r@) == report_heading(subject@),
{
    let mut out: Vec<Span> = Vec::new();
    put(&mut out, "\n");
    put_styled(&mut out, CALVER_VERSION, Style::BoldCyan);
    put(&mut out, &" - ".to_owned().concat(subject).concat("\n\n"));
    assert(report::span_views(out@) =~= report_heading(subject@));
    out
}

/// An empty line, then a text in a style, then the end of its line.
pub open spec fn note(text: Seq<char>, style: Style) -> Seq<SpanView> {
    seq![report::plain("\n"@), report::styled(text, style), report::plain("\n"@)]
}

pub(crate) fn write_note(text: &str, style: Style) -> (r: Vec<Span>)
    ensures
        report::span_views(r@) == note(text@, style),
{
    let mut out: Vec<Span> = Vec::new();
    put(&mut out, "\n");
    put_styled(&mut out, text, style);
    put(&mut out, "\n");
    assert(report::span_views(out@) =~= note(text@, style));
    out
}

/// A label and a text in a style on one line.
pub open spec fn labelled(label: Seq<char>, text: Seq<char>, style: Style) -> Seq<SpanView> {
    seq![report::plain(label), report::styled(text, style), report::plain("\n"@)]
}

fn write_labelled(label: &str, text: &str, style: Style) -> (r: Vec<Span>)
    ensures
        report::span_views(r@) == labelled(label@, text@, style),
{
    let mut out: Vec<Span> = Vec::new();
    put(&mut out, label);
    put_styled(&mut out, text, style);
    put(&mut out, "\n");
    assert(report::span_views(out@) =~= labelled(label@, text@, style));
    out
}

/// A text, or a stand-in, to own.
fn show_text(o: &Option<String>, other: &str) -> (r: String)
    ensures
        r@ == text::text_or(text::text_opt(*o), other@),
{
    match o {
        Some(s) => s.clone(),
        None => other.to_owned(),
    }
}

// Redis

/// Whether a Redis instance answers, in a word.
pub open spec fn redis_state(st: RedisStatusView) -> SpanView {
    if st.is_reachable {
        report::styled("connected"@, Style::Green)
    } else if st.is_configured {
        report::styled("unreachable"@, Style::Red)
    } else {
        report::styled("not configured"@, Style::Dimmed)
    }
}

/// A number of bytes in whole megabytes.
pub open spec fn megabytes(bytes: Option<u64>) -> Seq<char> {
    match bytes {
        Some(b) => number::dec((b / BYTES_PER_MB) as nat) + " MB"@,
        None => UNMEASURED@,
    }
}

/// The evicted keys of an instance; those of the session store are lost sessions.
pub open spec fn evictions(st: RedisStatusView, is_session: bool) -> SpanView {
    SpanView {
        text: number::dec_or(st.evicted_keys, UNMEASURED@),
        style: if is_session && number::positive(st.evicted_keys) {
            Style::Red
        } else {
            Style::Plain
        },
    }
}

/// The share of lookups that hit, in percent.
pub open spec fn hit_share(ratio: Option<(nat, nat)>) -> Seq<char> {
    match ratio {
        Some(v) => number::fixed(v.0 * 100, v.1, 1) + "%"@,
        None => UNMEASURED@,
    }
}

/// The row of one instance in the table of Redis instances.
pub open spec fn redis_row(name: Seq<char>, st: RedisStatusView, is_session: bool) -> Seq<SpanView> {
    seq![
        report::plain(name),
        report::plain(text::text_or(st.endpoint, UNMEASURED@)),
        redis_state(st),
        report::plain(text::text_or(st.version, UNMEASURED@)),
        report::plain(megabytes(st.used_memory_bytes)),
        report::plain(ratio::fixed_or(st.mem_fragmentation_ratio, 2, UNMEASURED@)),
        report::plain(text::text_or(st.maxmemory_policy, UNMEASURED@)),
        evictions(st, is_session),
        report::plain(hit_share(st.hit_ratio)),
    ]
}

fn show_redis_state(st: &RedisStatus) -> (r: Span)
    ensures
        r@ == redis_state(st@),
{
    if st.is_reachable {
        styled_span("connected", Style::Green)
    } else if st.is_configured {
        styled_span("unreachable", Style::Red)
    } else {
        styled_span("not configured", Style::Dimmed)
    }
}

fn show_megabytes(bytes: Option<u64>) -> (r: String)
    ensures
        r@ == megabytes(bytes),
{
    match bytes {
        Some(b) => num(b / BYTES_PER_MB).concat(" MB"),
        None => UNMEASURED.to_owned(),
    }
}

fn show_evictions(st: &RedisStatus, is_session: bool) -> (r: Span)
    ensures
        r@ == evictions(st@, is_session),
{
    let style = if is_session && is_positive(st.evicted_keys) {
        Style::Red
    } else {
        Style::Plain
    };
    Span { text: num_or(st.evicted_keys, UNMEASURED), style }
}

fn show_hit_share(ratio: Option<Ratio>) -> (r: String)
    ensures
        r@ == hit_share(ratio::ratio_opt(ratio)),
{
    match ratio {
        Some(v) => v.percent_text().concat("%"),
        None => UNMEASURED.to_owned(),
    }
}

/// Writes the row of one instance in the table of Redis instances.
pub fn write_redis_row(name: &str, st: &RedisStatus, is_session: bool) -> (r: Vec<Span>)
    ensures
        report::span_views(r@) == redis_row(name@, st@, is_session),
{
    let mut out: Vec<Span> = Vec::new();
    put(&mut out, name);
    put(&mut out, &show_text(&st.endpoint, UNMEASURED));
    put_span(&mut out, show_redis_state(st));
    put(&mut out, &show_text(&st.version, UNMEASURED));
    put(&mut out, &show_megabytes(st.used_memory_bytes));
    put(&mut out, &fixed_text_or(st.mem_fragmentation_ratio, 2, UNMEASURED));
    put(&mut out, &show_text(&st.maxmemory_policy, UNMEASURED));
    put_span(&mut out, show_evictions(st, is_session));
    put(&mut out, &show_hit_share(st.hit_ratio));
    assert(report::span_views(out@) =~= redis_row(name@, st@, is_session));
    out
}

/// Why the probe of an instance failed: "unreachable" alone leaves the operator guessing
/// between a wrong address, a firewall, and a missing password.
pub open spec fn redis_failure(name: Seq<char>, st: RedisStatusView) -> Seq<SpanView> {
    match st.probe {
        ProbeOutcomeView::Failed { reason } => if st.is_reachable {
            Seq::empty()
        } else {
            seq![
                report::plain(name + " ("@),
                report::styled("probe failed"@, Style::Yellow),
                report::plain("): "@ + reason + "\n"@),
            ]
        },
        _ => Seq::empty(),
    }
}

fn write_redis_failure(name: &str, st: &RedisStatus) -> (r: Vec<Span>)
    ensures
        report::span_views(r@) == redis_failure(name@, st@),
{
    let mut out: Vec<Span> = Vec::new();
    if let ProbeOutcome::Failed { reason } = &st.probe {
        if !st.is_reachable {
            put(&mut out, &name.to_owned().concat(" ("));
            put_styled(&mut out, "probe failed", Style::Yellow);
            put(&mut out, &"): ".to_owned().concat(reason.as_str()).concat("\n"));
        }
    }
    assert(report::span_views(out@) =~= redis_failure(name@, st@));
    out
}

/// What a list of issues holds.
pub open spec fn issue_views(issues: Seq<RedisIssue>) -> Seq<RedisIssueView> {
    issues.map_values(|i: RedisIssue| i@)
}

/// One line for each issue.
pub open spec fn issue_lines(issues: Seq<RedisIssueView>) -> Seq<SpanView>
    decreases issues.len(),
{
    if issues.len() == 0 {
        Seq::empty()
    } else {
        issue_lines(issues.drop_last()).push(
            report::plain("  • "@ + issues.last().described() + "\n"@),
        )
    }
}

/// The concerns of the Redis settings.
pub open spec fn issue_block(issues: Seq<RedisIssueView>) -> Seq<SpanView> {
    if issues.len() == 0 {
        Seq::empty()
    } else {
        seq![
            report::styled("CRITICAL REDIS CONFIGURATION CONCERN:"@, Style::BoldRed),
            report::plain("\n"@),
        ] + issue_lines(issues) + seq![report::plain("\n"@)]
    }
}

fn write_issues(issues: &Vec<RedisIssue>) -> (r: Vec<Span>)
    ensures
        report::span_views(r@) == issue_block(issue_views(issues@)),
{
    let ghost all = issue_views(issues@);
    let mut out: Vec<Span> = Vec::new();
    if issues.len() == 0 {
        assert(report::span_views(out@) =~= issue_block(all));
        return out;
    }
    put_styled(&mut out, "CRITICAL REDIS CONFIGURATION CONCERN:", Style::BoldRed);
    put(&mut out, "\n");
    let ghost first = report::span_views(out@);
    let mut i: usize = 0;
    assert(report::span_views(out@) =~= first + issue_lines(all.take(0)));
    while i < issues.len()
        invariant
            i <= issues@.len(),
            all == issue_views(issues@),
            report::span_views(out@) == first + issue_lines(all.take(i as int)),
        decreases issues@.len() - i,
    {
        assert(all.take(i + 1).drop_last() =~= all.take(i as int));
        assert(all.take(i + 1).last() == issues@[i as int]@);
        put(&mut out, &"  • ".to_owned().concat(issues[i].describe().as_str()).concat("\n"));
        assert(report::span_views(out@) =~= first + issue_lines(all.take(i + 1)));
        i += 1;
    }
    put(&mut out, "\n");
    assert(all.take(i as int) =~= all);
    assert(report::span_views(out@) =~= issue_block(all));
    out
}

/// What stands below the table of Redis instances.
pub open spec fn redis_notes(
    cache: RedisStatusView,
    session: RedisStatusView,
    issues: Seq<RedisIssueView>,
) -> Seq<SpanView> {
    let hint = if cache.is_reachable && session.is_reachable {
        Seq::empty()
    } else {
        note(REDIS_HINT@, Style::Dimmed) + seq![report::plain("\n"@)]
    };
    redis_failure("Default / Cache"@, cache) + redis_failure("Session"@, session) + hint
        + issue_block(issues)
}

/// Writes what stands below the table of Redis instances.
pub fn write_redis_notes(cache: &RedisStatus, session: &RedisStatus, env: &SanitizedEnvConfig) -> (r:
    Vec<Span>)
    ensures
        report::span_views(r@) == redis_notes(cache@, session@, redis_check::redis_issues(env@)),
{
    let mut out = write_redis_failure("Default / Cache", cache);
    put_all(&mut out, write_redis_failure("Session", session));
    if !cache.is_reachable || !session.is_reachable {
        put_all(&mut out, write_note(REDIS_HINT, Style::Dimmed));
        put(&mut out, "\n");
    }
    put_all(&mut out, write_issues(&check_redis_config(env)));
    assert(report::span_views(out@) =~= redis_notes(cache@, session@, redis_check::redis_issues(env@)));
    out
}

// Page cache

/// The report on the page cache, up to the table of punctures.
pub open spec fn fpc_report(fpc: FpcProbeStatusView) -> Seq<SpanView> {
    let head = report_heading("Full Page Cache (FPC) & Varnish Forensics"@) + seq![
        report::plain("FPC Engine: "@ + fpc.engine.described() + "\n"@),
    ] + (if fpc.is_varnish_reachable {
        labelled("Varnish Reverse Proxy Reachable: "@, "YES"@, Style::Green)
    } else {
        labelled("Varnish Reverse Proxy Reachable: "@, "NO / NOT DETECTED"@, Style::Yellow)
    }) + seq![
        report::plain(
            "Uncacheable Layout Blocks (cacheable=\"false\"): "@ + number::dec(
                fpc.uncacheable_blocks.len(),
            ) + "\n\n"@,
        ),
    ];
    if fpc.uncacheable_blocks.len() == 0 {
        head + seq![report::styled(NO_PUNCTURES@, Style::BoldGreen), report::plain("\n"@)]
    } else {
        head
    }
}

/// Writes the report on the page cache, up to the table of punctures.
pub fn write_fpc_report(fpc: &FpcProbeStatus) -> (r: Vec<Span>)
    ensures
        report::span_views(r@) == fpc_report(fpc@),
{
    let mut out = write_report_heading("Full Page Cache (FPC) & Varnish Forensics");
    put(&mut out, &"FPC Engine: ".to_owned().concat(fpc.engine.describe().as_str()).concat("\n"));
    if fpc.is_varnish_reachable {
        put_all(
            &mut out,
            write_labelled("Varnish Reverse Proxy Reachable: ", "YES", Style::Green),
        );
    } else {
        put_all(
            &mut out,
            write_labelled(
                "Varnish Reverse Proxy Reachable: ",
                "NO / NOT DETECTED",
                Style::Yellow,
            ),
        );
    }
    let n: usize = fpc.uncacheable_blocks.len();
    let count = "Uncacheable Layout Blocks (cacheable=\"false\"): ".to_owned().concat(
        num(n as u64).as_str(),
    ).concat("\n\n");
    put(&mut out, &count);
    if n == 0 {
        put_styled(&mut out, NO_PUNCTURES, Style::BoldGreen);
        put(&mut out, "\n");
    }
    assert(report::span_views(out@) =~= fpc_report(fpc@));
    out
}

/// The row of one block in the table of punctures.
pub open spec fn puncture_row(block: UncacheableBlockView) -> Seq<Seq<char>> {
    seq![
        block.module,
        block.layout_handle,
        block.block_name,
        block.source_file + ":"@ + number::dec(block.line as nat),
    ]
}

/// Writes the row of one block in the table of punctures.
pub fn write_puncture_row(block: &UncacheableBlock) -> (r: Vec<String>)
    ensures
        text::texts(r@) == puncture_row(block@),
{
    let place = block.source_file.clone().concat(":").concat(num(block.line).as_str());
    let r: Vec<String> = vec![
        block.module.clone(),
        block.layout_handle.clone(),
        block.block_name.clone(),
        place,
    ];
    assert(text::texts(r@) =~= puncture_row(block@));
    r
}

// PHP-FPM

/// Whether workers are saturated or requests are queuing.
pub open spec fn is_under_pressure(fpm: PhpWorkerMetricsView) -> bool {
    ratio::exceeds_whole(fpm.saturation_pct, 85) || number::positive(fpm.listen_queue)
}

/// The verdict on a worker pool. A source without a scoreboard cannot see the listen queue,
/// and counts a worker blocked on MySQL as idle, so nothing is said of pressure from it.
pub open spec fn fpm_verdict(fpm: PhpWorkerMetricsView) -> Seq<SpanView> {
    if fpm.oom_risk {
        note(FPM_OOM_WARNING@, Style::BoldRed)
    } else if fpm.source != WorkerMetricSource::FpmStatus {
        note(FPM_SOURCE_NOTE@, Style::Yellow)
    } else if is_under_pressure(fpm) {
        note(FPM_PRESSURE_WARNING@, Style::BoldYellow)
    } else {
        note(FPM_ALL_WELL@, Style::BoldGreen)
    }
}

fn write_fpm_verdict(fpm: &PhpWorkerMetrics) -> (r: Vec<Span>)
    ensures
        report::span_views(r@) == fpm_verdict(fpm@),
{
    if fpm.oom_risk {
        write_note(FPM_OOM_WARNING, Style::BoldRed)
    } else if !fpm.source.has_reliable_saturation() {
        write_note(FPM_SOURCE_NOTE, Style::Yellow)
    } else if is_above(fpm.saturation_pct, 85) || is_positive(fpm.listen_queue) {
        write_note(FPM_PRESSURE_WARNING, Style::BoldYellow)
    } else {
        write_note(FPM_ALL_WELL, Style::BoldGreen)
    }
}

/// The report on a host without PHP-FPM.
pub open spec fn fpm_absence(fpm: PhpWorkerMetricsView) -> Seq<SpanView> {
    seq![report::plain("No PHP-FPM pool config or worker process found on this host.\n"@)] + (
    match fpm.origin {
        Some(origin) => labelled("Probe result: "@, origin, Style::Yellow),
        None => Seq::empty(),
    }) + note(FPM_HINT@, Style::Dimmed) + labelled("  "@, FPM_EXAMPLE@, Style::Cyan) + labelled(
        "  "@,
        FPM_NEEDS@,
        Style::Dimmed,
    )
}

fn write_fpm_absence(fpm: &PhpWorkerMetrics) -> (r: Vec<Span>)
    ensures
        report::span_views(r@) == fpm_absence(fpm@),
{
    let mut out: Vec<Span> = Vec::new();
    put(&mut out, "No PHP-FPM pool config or worker process found on this host.\n");
    if let Some(origin) = &fpm.origin {
        put_all(&mut out, write_labelled("Probe result: ", origin, Style::Yellow));
    }
    put_all(&mut out, write_note(FPM_HINT, Style::Dimmed));
    put_all(&mut out, write_labelled("  ", FPM_EXAMPLE, Style::Cyan));
    put_all(&mut out, write_labelled("  ", FPM_NEEDS, Style::Dimmed));
    assert(report::span_views(out@) =~= fpm_absence(fpm@));
    out
}

/// Where the figures of a pool come from, and which pool it is.
pub open spec fn fpm_source_lines(fpm: PhpWorkerMetricsView) -> Seq<SpanView> {
    labelled("Metric source:   "@, fpm.source.described(), Style::BoldCyan) + (match fpm.origin {
        Some(origin) => seq![report::plain("Read from:       "@ + origin + "\n"@)],
        None => Seq::empty(),
    }) + labelled("Pool:            "@, text::text_or(fpm.pool_name, UNMEASURED@), Style::BoldCyan)
        + seq![report::plain("Process Manager: "@ + text::text_or(fpm.process_manager, UNMEASURED@) + "\n"@)]
}

fn write_fpm_source(fpm: &PhpWorkerMetrics) -> (r: Vec<Span>)
    ensures
        report::span_views(r@) == fpm_source_lines(fpm@),
{
    let mut out = write_labelled("Metric source:   ", &fpm.source.describe(), Style::BoldCyan);
    if let Some(origin) = &fpm.origin {
        put(&mut out, &"Read from:       ".to_owned().concat(origin.as_str()).concat("\n"));
    }
    put_all(
        &mut out,
        write_labelled(
            "Pool:            ",
            &show_text(&fpm.pool_name, UNMEASURED),
            Style::BoldCyan,
        ),
    );
    put(
        &mut out,
        &"Process Manager: ".to_owned().concat(
            show_text(&fpm.process_manager, UNMEASURED).as_str(),
        ).concat("\n"),
    );
    assert(report::span_views(out@) =~= fpm_source_lines(fpm@));
    out
}

/// The workers of a pool. A dash means "not measured", never a default.
pub open spec fn fpm_worker_lines(fpm: PhpWorkerMetricsView) -> Seq<SpanView> {
    let saturation = match fpm.saturation_pct {
        Some(v) => " ("@ + number::fixed(v.0, v.1, 1) + "% saturation)"@,
        None => Seq::empty(),
    };
    seq![
        report::plain(
            "Active Workers:  "@ + number::dec_or(fpm.active_workers, UNMEASURED@) + "/"@ + number::dec_or(
                fpm.max_children,
                UNMEASURED@,
            ) + saturation + "\n"@,
        ),
        report::plain("Idle Workers:    "@ + number::dec_or(fpm.idle_workers, UNMEASURED@) + "\n"@),
        report::plain("Listen Queue:    "@ + number::dec_or(fpm.listen_queue, UNMEASURED@) + "\n"@),
        report::plain(
            "Max Children Reached (cumulative): "@ + number::dec_or(fpm.max_children_reached, UNMEASURED@)
                + "\n"@,
        ),
        report::plain("Slow Requests:   "@ + number::dec_or(fpm.slow_requests, UNMEASURED@) + "\n"@),
    ]
}

fn show_line(label: &str, n: Option<u64>) -> (r: String)
    ensures
        r@ == label@ + number::dec_or(n, UNMEASURED@) + "\n"@,
{
    label.to_owned().concat(num_or(n, UNMEASURED).as_str()).concat("\n")
}

fn write_fpm_workers(fpm: &PhpWorkerMetrics) -> (r: Vec<Span>)
    ensures
        report::span_views(r@) == fpm_worker_lines(fpm@),
{
    let saturation = match fpm.saturation_pct {
        Some(v) => " (".to_owned().concat(v.fixed_text(1).as_str()).concat("% saturation)"),
        None => String::new(),
    };
    assert(fpm.saturation_pct is None ==> saturation@ =~= Seq::<char>::empty());
    let active = "Active Workers:  ".to_owned().concat(
        num_or(fpm.active_workers, UNMEASURED).as_str(),
    ).concat("/").concat(num_or(fpm.max_children, UNMEASURED).as_str()).concat(
        saturation.as_str(),
    ).concat("\n");
    let mut out: Vec<Span> = Vec::new();
    put(&mut out, &active);
    put(&mut out, &show_line("Idle Workers:    ", fpm.idle_workers));
    put(&mut out, &show_line("Listen Queue:    ", fpm.listen_queue));
    put(&mut out, &show_line("Max Children Reached (cumulative): ", fpm.max_children_reached));
    put(&mut out, &show_line("Slow Requests:   ", fpm.slow_requests));
    assert(report::span_views(out@) =~= fpm_worker_lines(fpm@));
    out
}

/// A number of megabytes behind a label, if it is known.
pub open spec fn memory_line(label: Seq<char>, mb: Option<(nat, nat)>) -> Seq<SpanView> {
    match mb {
        Some(v) => seq![report::plain(label + number::fixed(v.0, v.1, 0) + " MB\n"@)],
        None => Seq::empty(),
    }
}

fn write_memory_line(label: &str, mb: Option<Ratio>) -> (r: Vec<Span>)
    ensures
        report::span_views(r@) == memory_line(label@, ratio::ratio_opt(mb)),
{
    let mut out: Vec<Span> = Vec::new();
    if let Some(v) = mb {
        put(&mut out, &label.to_owned().concat(v.fixed_text(0).as_str()).concat(" MB\n"));
    }
    assert(report::span_views(out@) =~= memory_line(label@, ratio::ratio_opt(mb)));
    out
}

/// The memory of one worker, and whether it was measured.
pub open spec fn footprint_line(fpm: PhpWorkerMetricsView) -> SpanView {
    report::plain(
        match fpm.worker_memory_mb {
            Some(v) => "Worker Footprint: "@ + number::fixed(v.0, v.1, 0) + " MB ("@ + (
            if fpm.worker_memory_measured {
                "measured from process RSS"@
            } else {
                "estimated; no live worker to measure"@
            }) + ")\n"@,
            None => "Worker Footprint: -\n"@,
        },
    )
}

/// The memory of a pool and of its host.
pub open spec fn fpm_memory_lines(fpm: PhpWorkerMetricsView) -> Seq<SpanView> {
    seq![footprint_line(fpm)] + memory_line(
        "Potential Pool Memory: "@,
        fpm.total_pool_memory_mb,
    ) + memory_line("Host Memory:     "@, fpm.host_total_memory_mb)
}

fn write_fpm_memory(fpm: &PhpWorkerMetrics) -> (r: Vec<Span>)
    ensures
        report::span_views(r@) == fpm_memory_lines(fpm@),
{
    let footprint = match fpm.worker_memory_mb {
        Some(v) => {
            let how = if fpm.worker_memory_measured {
                "measured from process RSS"
            } else {
                "estimated; no live worker to measure"
            };
            "Worker Footprint: ".to_owned().concat(v.fixed_text(0).as_str()).concat(
                " MB (",
            ).concat(how).concat(")\n")
        },
        None => "Worker Footprint: -\n".to_owned(),
    };
    let mut out: Vec<Span> = Vec::new();
    put(&mut out, &footprint);
    put_all(&mut out, write_memory_line("Potential Pool Memory: ", fpm.total_pool_memory_mb));
    put_all(&mut out, write_memory_line("Host Memory:     ", fpm.host_total_memory_mb));
    assert(report::span_views(out@) =~= fpm_memory_lines(fpm@));
    out
}

/// The report on PHP-FPM.
pub open spec fn fpm_report(fpm: PhpWorkerMetricsView) -> Seq<SpanView> {
    let heading = report_heading("PHP-FPM Worker Pool Forensics"@);
    if fpm.is_detected {
        heading + fpm_source_lines(fpm) + fpm_worker_lines(fpm) + fpm_memory_lines(fpm)
            + fpm_verdict(fpm)
    } else {
        heading + fpm_absence(fpm)
    }
}

/// Writes the report on PHP-FPM.
pub fn write_fpm_report(fpm: &PhpWorkerMetrics) -> (r: Vec<Span>)
    ensures
        report::span_views(r@) == fpm_report(fpm@),
{
    let mut out = write_report_heading("PHP-FPM Worker Pool Forensics");
    if !fpm.is_detected {
        put_all(&mut out, write_fpm_absence(fpm));
        return out;
    }
    put_all(&mut out, write_fpm_source(fpm));
    put_all(&mut out, write_fpm_workers(fpm));
    put_all(&mut out, write_fpm_memory(fpm));
    put_all(&mut out, write_fpm_verdict(fpm));
    out
}

// Nginx

/// The report on Nginx when no status page was given.
pub open spec fn nginx_absence() -> Seq<SpanView> {
    report_heading("Nginx Web Tier Telemetry"@) + seq![
        report::plain("No Nginx stub_status endpoint configured.\n"@),
    ] + note(NGINX_HINT@, Style::Dimmed) + labelled("  "@, NGINX_EXAMPLE@, Style::Cyan)
}

/// The verdict on dropped connections: accepted but never served, which usually means a limit
/// of connections or open files was hit.
pub open spec fn dropped_verdict(dropped: Option<u64>) -> Seq<SpanView> {
    match dropped {
        Some(n) => if n > 0 {
            note(
                "WARNING: "@ + number::dec(n as nat)
                    + " connection(s) accepted but never handled. Check worker_connections and open file limits."@,
                Style::BoldYellow,
            )
        } else {
            note("✓ No dropped connections."@, Style::BoldGreen)
        },
        None => Seq::empty(),
    }
}

/// The report on Nginx.
pub open spec fn nginx_report(nginx: NginxStatusView) -> Seq<SpanView> {
    let head = report_heading("Nginx Web Tier Telemetry"@) + seq![
        report::plain("Endpoint: "@ + text::text_or(nginx.endpoint, UNMEASURED@) + "\n"@),
    ];
    if nginx.is_detected {
        head + seq![
            report::plain("Active Connections: "@ + number::dec_or(nginx.active_connections, UNMEASURED@) + "\n"@),
            report::plain(
                "Reading / Writing / Waiting: "@ + number::dec_or(nginx.reading, UNMEASURED@) + " / "@
                    + number::dec_or(nginx.writing, UNMEASURED@) + " / "@ + number::dec_or(
                    nginx.waiting,
                    UNMEASURED@,
                ) + "\n"@,
            ),
            report::plain(
                "Accepted / Handled: "@ + number::dec_or(nginx.accepted, UNMEASURED@) + " / "@ + number::dec_or(
                    nginx.handled,
                    UNMEASURED@,
                ) + "\n"@,
            ),
            report::plain("Total Requests:     "@ + number::dec_or(nginx.requests, UNMEASURED@) + "\n"@),
        ] + dropped_verdict(nginx.dropped)
    } else {
        head + labelled("Probe:    "@, nginx.probe.described(), Style::Yellow)
    }
}

/// Writes the report on Nginx when no status page was given.
pub fn write_nginx_absence() -> (r: Vec<Span>)
    ensures
        report::span_views(r@) == nginx_absence(),
{
    let mut out = write_report_heading("Nginx Web Tier Telemetry");
    put(&mut out, "No Nginx stub_status endpoint configured.\n");
    put_all(&mut out, write_note(NGINX_HINT, Style::Dimmed));
    put_all(&mut out, write_labelled("  ", NGINX_EXAMPLE, Style::Cyan));
    assert(report::span_views(out@) =~= nginx_absence());
    out
}

fn write_dropped(dropped: Option<u64>) -> (r: Vec<Span>)
    ensures
        report::span_views(r@) == dropped_verdict(dropped),
{
    match dropped {
        Some(n) => if n > 0 {
            write_note(
                &"WARNING: ".to_owned().concat(num(n).as_str()).concat(
                    " connection(s) accepted but never handled. Check worker_connections and open file limits.",
                ),
                Style::BoldYellow,
            )
        } else {
            write_note("✓ No dropped connections.", Style::BoldGreen)
        },
        None => {
            let none: Vec<Span> = Vec::new();
            assert(report::span_views(none@) =~= Seq::<SpanView>::empty());
            none
        },
    }
}

/// Writes the report on Nginx.
pub fn write_nginx_report(nginx: &NginxStatus) -> (r: Vec<Span>)
    ensures
        report::span_views(r@) == nginx_report(nginx@),
{
    let mut out = write_report_heading("Nginx Web Tier Telemetry");
    put(
        &mut out,
        &"Endpoint: ".to_owned().concat(show_text(&nginx.endpoint, UNMEASURED).as_str()).concat(
            "\n",
        ),
    );
    if !nginx.is_detected {
        put_all(
            &mut out,
            write_labelled("Probe:    ", &nginx.probe.describe(), Style::Yellow),
        );
        assert(report::span_views(out@) =~= nginx_report(nginx@));
        return out;
    }
    put(&mut out, &show_line("Active Connections: ", nginx.active_connections));
    let activity = "Reading / Writing / Waiting: ".to_owned().concat(
        num_or(nginx.reading, UNMEASURED).as_str(),
    ).concat(" / ").concat(num_or(nginx.writing, UNMEASURED).as_str()).concat(" / ").concat(
        num_or(nginx.waiting, UNMEASURED).as_str(),
    ).concat("\n");
    put(&mut out, &activity);
    let served = "Accepted / Handled: ".to_owned().concat(
        num_or(nginx.accepted, UNMEASURED).as_str(),
    ).concat(" / ").concat(num_or(nginx.handled, UNMEASURED).as_str()).concat("\n");
    put(&mut out, &served);
    put(&mut out, &show_line("Total Requests:     ", nginx.requests));
    put_all(&mut out, write_dropped(nginx.dropped));
    assert(report::span_views(out@) =~= nginx_report(nginx@));
    out
}

// OpenSearch

/// The state of a cluster, in a word.
pub open spec fn cluster_state(status: Option<Seq<char>>) -> SpanView {
    if status == Some("green"@) {
        report::styled("GREEN"@, Style::BoldGreen)
    } else if status == Some("yellow"@) {
        report::styled("YELLOW"@, Style::BoldYellow)
    } else if status == Some("red"@) {
        report::styled("RED (CRITICAL)"@, Style::BoldRed)
    } else {
        report::styled("UNKNOWN"@, Style::Dimmed)
    }
}

fn show_cluster_state(status: &Option<String>) -> (r: Span)
    ensures
        r@ == cluster_state(text::text_opt(*status)),
{
    match status {
        Some(s) => if same(s, "green") {
            styled_span("GREEN", Style::BoldGreen)
        } else if same(s, "yellow") {
            styled_span("YELLOW", Style::BoldYellow)
        } else if same(s, "red") {
            styled_span("RED (CRITICAL)", Style::BoldRed)
        } else {
            styled_span("UNKNOWN", Style::Dimmed)
        },
        None => styled_span("UNKNOWN", Style::Dimmed),
    }
}

/// Whether the catalog can be searched. A listing that could not be read tells nothing.
pub open spec fn catalog_state(os: OpenSearchStatusView) -> SpanView {
    if os.has_catalog_index {
        report::styled("PRESENT ("@ + text::joined(os.catalog_index_names, ", "@) + ")"@, Style::BoldGreen)
    } else if os.catalog_index_probe is Succeeded {
        report::styled("MISSING (run indexer:reindex catalogsearch_fulltext)"@, Style::BoldRed)
    } else {
        report::styled(
            "UNKNOWN (index listing "@ + os.catalog_index_probe.described() + ")"@,
            Style::Yellow,
        )
    }
}

fn show_catalog_state(os: &OpenSearchStatus) -> (r: Span)
    ensures
        r@ == catalog_state(os@),
{
    if os.has_catalog_index {
        Span {
            text: "PRESENT (".to_owned().concat(join(&os.catalog_index_names, ", ").as_str()).concat(
                ")",
            ),
            style: Style::BoldGreen,
        }
    } else if os.catalog_index_probe.is_success() {
        styled_span("MISSING (run indexer:reindex catalogsearch_fulltext)", Style::BoldRed)
    } else {
        Span {
            text: "UNKNOWN (index listing ".to_owned().concat(
                os.catalog_index_probe.describe().as_str(),
            ).concat(")"),
            style: Style::Yellow,
        }
    }
}

/// A count, or zero.
pub open spec fn small_or_zero(n: Option<u32>) -> Seq<char> {
    number::dec(
        match n {
            Some(v) => v as nat,
            None => 0,
        },
    )
}

fn show_small(label: &str, n: Option<u32>) -> (r: String)
    ensures
        r@ == label@ + small_or_zero(n) + "\n"@,
{
    let v: u64 = match n {
        Some(v) => v as u64,
        None => 0,
    };
    label.to_owned().concat(num(v).as_str()).concat("\n")
}

/// The report on a cluster that was not reached. Zeros would read as an empty cluster, so it
/// says what went wrong.
pub open spec fn search_absence(os: OpenSearchStatusView) -> Seq<SpanView> {
    (if os.is_configured {
        labelled("Endpoint: "@, os.probe.described(), Style::Yellow)
    } else {
        seq![report::plain("No OpenSearch endpoint configured in env.php.\n"@)]
    }) + note(SEARCH_HINT@, Style::Dimmed)
}

/// The figures of a cluster.
pub open spec fn search_lines(os: OpenSearchStatusView) -> Seq<SpanView> {
    seq![
        report::plain("Cluster Name:      "@ + text::text_or(os.cluster_name, "unknown"@) + "\n"@),
        report::plain("Cluster Status:    "@),
        cluster_state(os.status),
        report::plain("\n"@),
        report::plain("Nodes:             "@ + small_or_zero(os.number_of_nodes) + "\n"@),
        report::plain("Active Shards:     "@ + small_or_zero(os.active_shards) + "\n"@),
        report::plain("Unassigned Shards: "@ + small_or_zero(os.unassigned_shards) + "\n"@),
        report::plain("Catalog Index:     "@),
        catalog_state(os),
        report::plain("\n"@),
    ] + (match os.version {
        Some(v) => seq![report::plain("Version:           "@ + v + "\n"@)],
        None => Seq::empty(),
    })
}

/// The report on OpenSearch.
pub open spec fn search_report(os: OpenSearchStatusView) -> Seq<SpanView> {
    report_heading("OpenSearch & Catalog Index Diagnostics"@) + (if os.is_reachable {
        search_lines(os)
    } else {
        search_absence(os)
    })
}

fn write_search_absence(os: &OpenSearchStatus) -> (r: Vec<Span>)
    ensures
        report::span_views(r@) == search_absence(os@),
{
    let mut out: Vec<Span> = Vec::new();
    if os.is_configured {
        put_all(&mut out, write_labelled("Endpoint: ", &os.probe.describe(), Style::Yellow));
    } else {
        put(&mut out, "No OpenSearch endpoint configured in env.php.\n");
    }
    put_all(&mut out, write_note(SEARCH_HINT, Style::Dimmed));
    assert(report::span_views(out@) =~= search_absence(os@));
    out
}

fn write_search_lines(os: &OpenSearchStatus) -> (r: Vec<Span>)
    ensures
        report::span_views(r@) == search_lines(os@),
{
    let mut out: Vec<Span> = Vec::new();
    let name = "Cluster Name:      ".to_owned().concat(
        show_text(&os.cluster_name, "unknown").as_str(),
    ).concat("\n");
    put(&mut out, &name);
    put(&mut out, "Cluster Status:    ");
    put_span(&mut out, show_cluster_state(&os.status));
    put(&mut out, "\n");
    put(&mut out, &show_small("Nodes:             ", os.number_of_nodes));
    put(&mut out, &show_small("Active Shards:     ", os.active_shards));
    put(&mut out, &show_small("Unassigned Shards: ", os.unassigned_shards));
    put(&mut out, "Catalog Index:     ");
    put_span(&mut out, show_catalog_state(os));
    put(&mut out, "\n");
    if let Some(v) = &os.version {
        put(&mut out, &"Version:           ".to_owned().concat(v.as_str()).concat("\n"));
    }
    assert(report::span_views(out@) =~= search_lines(os@));
    out
}

/// Writes the report on OpenSearch.
pub fn write_search_report(os: &OpenSearchStatus) -> (r: Vec<Span>)
    ensures
        report::span_views(r@) == search_report(os@),
{
    let mut out = write_report_heading("OpenSearch & Catalog Index Diagnostics");
    if os.is_reachable {
        put_all(&mut out, write_search_lines(os));
    } else {
        put_all(&mut out, write_search_absence(os));
    }
    out
}

/// A listing of indices that could not be read is never reported as a missing index.
pub proof fn law_unread_listing_is_unknown(os: OpenSearchStatusView)
    requires
        !os.has_catalog_index,
        !(os.catalog_index_probe is Succeeded),
    ensures
        catalog_state(os).style == Style::Yellow,
        catalog_state(os).text == "UNKNOWN (index listing "@ + os.catalog_index_probe.described()
            + ")"@,
{
}

/// Pressure is reported only from a scoreboard, and a pool without one is never called safe.
pub proof fn law_pressure_is_reported_only_from_the_scoreboard(fpm: PhpWorkerMetricsView)
    requires
        fpm.source != WorkerMetricSource::FpmStatus,
    ensures
        fpm_verdict(fpm) == note(FPM_OOM_WARNING@, Style::BoldRed) || fpm_verdict(fpm) == note(
            FPM_SOURCE_NOTE@,
            Style::Yellow,
        ),
{
}

/// The verdict on a pool: a warning in red where it may outgrow the host, a note where its
/// figures are not those of the scoreboard, a warning in yellow where more than 85 percent of
/// the workers are active or requests are queuing, and all well otherwise.
pub proof fn law_pool_verdict(fpm: PhpWorkerMetrics)
    ensures
        ({
            let v = fpm_verdict(fpm@);
            let scored = fpm.source == WorkerMetricSource::FpmStatus;
            let pressed = (fpm.saturation_pct is Some && (fpm.saturation_pct->0).num() > 85 * (
            fpm.saturation_pct->0).den()) || (fpm.listen_queue is Some && fpm.listen_queue->0 > 0);
            &&& v.len() == 3
            &&& v[1].style == Style::BoldRed <==> fpm.oom_risk
            &&& v[1].style == Style::Yellow <==> !fpm.oom_risk && !scored
            &&& v[1].style == Style::BoldYellow <==> !fpm.oom_risk && scored && pressed
            &&& v[1].style == Style::BoldGreen <==> !fpm.oom_risk && scored && !pressed
            &&& fpm.oom_risk ==> v[1].text
                == "CRITICAL: pm.max_children x worker footprint exceeds 80% of host RAM. OOM-killer risk under traffic spikes."@
            &&& v[1].style == Style::BoldGreen ==> v[1].text
                == "✓ Worker pool operating within safe memory and concurrency bounds."@
        }),
{
}

/// The row of an instance gives its figures in the order of the columns, a dash for what was
/// not measured, and in red the evictions of a session store.
pub proof fn law_redis_row(name: Seq<char>, st: RedisStatusView, is_session: bool)
    ensures
        ({
            let row = redis_row(name, st, is_session);
            &&& row.len() == 9
            &&& row[0].text == name
            &&& row[1].text == if st.endpoint is Some {
                st.endpoint->0
            } else {
                "-"@
            }
            &&& row[2].text == if st.is_reachable {
                "connected"@
            } else if st.is_configured {
                "unreachable"@
            } else {
                "not configured"@
            }
            &&& row[3].text == if st.version is Some {
                st.version->0
            } else {
                "-"@
            }
            &&& row[4].text == if st.used_memory_bytes is Some {
                number::dec((st.used_memory_bytes->0 / 1_048_576) as nat) + " MB"@
            } else {
                "-"@
            }
            &&& row[5].text == if st.mem_fragmentation_ratio is Some {
                number::fixed(
                    (st.mem_fragmentation_ratio->0).0,
                    (st.mem_fragmentation_ratio->0).1,
                    2,
                )
            } else {
                "-"@
            }
            &&& row[6].text == if st.maxmemory_policy is Some {
                st.maxmemory_policy->0
            } else {
                "-"@
            }
            &&& row[7].text == if st.evicted_keys is Some {
                number::dec(st.evicted_keys->0 as nat)
            } else {
                "-"@
            }
            &&& row[7].style == Style::Red <==> is_session && st.evicted_keys is Some
                && st.evicted_keys->0 > 0
            &&& row[8].text == if st.hit_ratio is Some {
                number::fixed((st.hit_ratio->0).0 * 100, (st.hit_ratio->0).1, 1) + "%"@
            } else {
                "-"@
            }
        }),
{
}

/// A failed probe is told, with its reason, exactly where the instance was not reached.
pub proof fn law_redis_failure(name: Seq<char>, st: RedisStatusView)
    ensures
        redis_failure(name, st).len() > 0 <==> !st.is_reachable && st.probe is Failed,
        !st.is_reachable && st.probe is Failed ==> redis_failure(name, st)[0].text == name + " ("@
            && redis_failure(name, st)[2].text == "): "@ + st.probe->reason + "\n"@,
{
}

/// The state of a cluster in words: that of its health, and unknown for any other.
pub proof fn law_cluster_state(status: Option<Seq<char>>)
    ensures
        ({
            let s = cluster_state(status);
            &&& s.style == Style::BoldGreen <==> status == Some("green"@)
            &&& s.style == Style::BoldYellow <==> status == Some("yellow"@)
            &&& s.style == Style::BoldRed <==> status == Some("red"@)
            &&& status == Some("green"@) ==> s.text == "GREEN"@
            &&& status == Some("yellow"@) ==> s.text == "YELLOW"@
            &&& status == Some("red"@) ==> s.text == "RED (CRITICAL)"@
        }),
{
    reveal_strlit("green");
    reveal_strlit("yellow");
    reveal_strlit("red");
    assert("green"@.len() == 5 && "yellow"@.len() == 6 && "red"@.len() == 3);
}

/// The catalog index is present, missing or unknown as the listing says, or as it could not
/// be read.
pub proof fn law_catalog_state(os: OpenSearchStatusView)
    ensures
        ({
            let s = catalog_state(os);
            &&& s.style == Style::BoldGreen <==> os.has_catalog_index
            &&& s.style == Style::BoldRed <==> !os.has_catalog_index && os.catalog_index_probe
                is Succeeded
            &&& s.style == Style::BoldRed ==> s.text
                == "MISSING (run indexer:reindex catalogsearch_fulltext)"@
            &&& s.style == Style::BoldGreen ==> s.text == "PRESENT ("@ + text::joined(
                os.catalog_index_names,
                ", "@,
            ) + ")"@
        }),
{
}

/// Dropped connections are warned of exactly where there are any, and only where they were
/// counted.
pub proof fn law_dropped_connections(dropped: Option<u64>)
    ensures
        ({
            let v = dropped_verdict(dropped);
            &&& dropped is None ==> v.len() == 0
            &&& dropped matches Some(n) ==> v.len() == 3 && (v[1].style == Style::BoldYellow <==> n
                > 0) && (v[1].style == Style::BoldGreen <==> n == 0)
        }),
{
}

/// The hint on remote instances is given unless both instances were reached, and each
/// collision has its line.
pub proof fn law_redis_notes(
    cache: RedisStatusView,
    session: RedisStatusView,
    issues: Seq<RedisIssueView>,
)
    ensures
        cache.is_reachable && session.is_reachable ==> redis_notes(cache, session, issues)
            == issue_block(issues),
        !(cache.is_reachable && session.is_reachable) ==> redis_notes(cache, session, issues).len()
            > issue_block(issues).len(),
        issues.len() == 0 ==> issue_block(issues).len() == 0,
        issues.len() > 0 ==> issue_block(issues).len() == issues.len() + 3,
{
    lemma_issue_lines(issues);
    if cache.is_reachable && session.is_reachable {
        assert(redis_notes(cache, session, issues) =~= issue_block(issues));
    }
}

proof fn lemma_issue_lines(issues: Seq<RedisIssueView>)
    ensures
        issue_lines(issues).len() == issues.len(),
    decreases issues.len(),
{
    if issues.len() > 0 {
        lemma_issue_lines(issues.drop_last());
    }
}

/// The report on the workers gives each figure under its label, and a dash where it was not
/// measured.
pub proof fn law_worker_lines(fpm: PhpWorkerMetricsView)
    requires
        fpm.active_workers is Some,
        fpm.max_children is Some,
        fpm.idle_workers is Some,
        fpm.listen_queue is Some,
        fpm.max_children_reached is Some,
        fpm.slow_requests is Some,
    ensures
        ({
            let lines = fpm_worker_lines(fpm);
            &&& lines.len() == 5
            &&& text::has_prefix(
                lines[0].text,
                "Active Workers:  "@ + number::dec(fpm.active_workers->0 as nat) + "/"@
                    + number::dec(fpm.max_children->0 as nat),
            )
            &&& lines[1].text == "Idle Workers:    "@ + number::dec(fpm.idle_workers->0 as nat)
                + "\n"@
            &&& lines[2].text == "Listen Queue:    "@ + number::dec(fpm.listen_queue->0 as nat)
                + "\n"@
            &&& lines[3].text == "Max Children Reached (cumulative): "@ + number::dec(
                fpm.max_children_reached->0 as nat,
            ) + "\n"@
            &&& lines[4].text == "Slow Requests:   "@ + number::dec(fpm.slow_requests->0 as nat)
                + "\n"@
        }),
{
    let lines = fpm_worker_lines(fpm);
    let head = "Active Workers:  "@ + number::dec(fpm.active_workers->0 as nat) + "/"@ + number::dec(
        fpm.max_children->0 as nat,
    );
    assert(lines[0].text.subrange(0, head.len() as int) =~= head);
}

} // verus!
