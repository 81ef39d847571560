//! PHP-FPM pool status, worker pressure, and memory sizing forensics.
//!
//! Three sources, in descending order of trust:
//!
//! 1. **FPM status page** (`pm.status_path`): the only source with a true active worker
//!    count, listen queue depth and `max children reached` counter.
//! 2. **`/proc` scan**: counts worker processes and measures real RSS, but its "active"
//!    figure undercounts, since a worker blocked on MySQL is sleeping, not running.
//! 3. **Pool config only**: sizing limits with no live data.
//!
//! Nothing is invented. When a value was not measured it stays `None`, and the source
//! travels with the metrics so rules can refuse to draw conclusions it cannot support.

use crate::endpoints::{HttpTarget, HttpTargetView};
use crate::fields::{self, read_fields, FieldMap};
use crate::http_probe::{self, HttpProbeError, HttpProbeErrorView, HttpResponse, HttpResponseView};
use crate::json::{self, read_members, JsonField, JsonFieldView};
use crate::model::{PhpWorkerMetrics, PhpWorkerMetricsView, WorkerMetricSource};
use crate::number::{self, num, parse_u64};
use crate::paths::{self, file_stem};
use crate::patterns;
use crate::ratio::{self, Ratio};
use crate::text::{
    self, before_any, chars_of, contains, contains_char, copy_opt, is_blank, lines, rsplit_after,
    split_once, split_whitespace, starts_with, strip_prefix, to_ascii_lowercase, trim, trim_matches,
    trim_start_matches, CharSet,
};
use vstd::prelude::*;
use vstd::string::*;

verus! {

/// Documented average Magento 2 worker footprint in MB, used only when real RSS is
/// unavailable and always reported as an estimate.
pub const ESTIMATED_WORKER_MEMORY_MB: u64 = 150;

/// The path to ask a status page for: JSON, unless the caller asked for a format.
pub open spec fn status_path_of(path: Seq<char>) -> Seq<char> {
    if text::contains_text(path, "json"@) {
        path
    } else if text::has_char(path, '?') {
        path + "&json"@
    } else {
        path + "?json"@
    }
}

pub fn status_path(path: &str) -> (r: String)
    ensures
        r@ == status_path_of(path@),
{
    if contains(path, "json") {
        path.to_owned()
    } else if contains_char(path, '?') {
        path.to_owned().concat("&json")
    } else {
        path.to_owned().concat("?json")
    }
}

/// The fields of a status page in JSON: its string and number members, names in lower case.
pub open spec fn json_fields_map(fields: Seq<JsonFieldView>) -> Map<Seq<char>, Seq<char>>
    decreases fields.len(),
{
    if fields.len() == 0 {
        Map::empty()
    } else {
        let before = json_fields_map(fields.drop_last());
        let f = fields.last();
        match (f.text, f.number) {
            (Some(t), _) => before.insert(text::ascii_lower(f.name), t),
            (None, Some(n)) => before.insert(text::ascii_lower(f.name), n),
            _ => before,
        }
    }
}

/// PHP-FPM's JSON status uses the same key names as its text form.
pub fn json_status_fields(fields: &Vec<JsonField>) -> (r: FieldMap)
    ensures
        r@ == json_fields_map(json::field_views(fields@)),
{
    let ghost all = json::field_views(fields@);
    let mut map = FieldMap::new();
    let mut i: usize = 0;
    while i < fields.len()
        invariant
            i <= fields@.len(),
            all == json::field_views(fields@),
            map@ == json_fields_map(all.take(i as int)),
        decreases fields@.len() - i,
    {
        assert(all.take(i + 1).drop_last() =~= all.take(i as int));
        assert(all.take(i + 1).last() == fields@[i as int]@);
        let f = &fields[i];
        let name = to_ascii_lowercase(&f.name);
        match (&f.text, &f.number) {
            (Some(t), _) => {
                map.insert(name, t.clone());
            },
            (None, Some(n)) => {
                map.insert(name, n.clone());
            },
            _ => {},
        }
        i += 1;
    }
    assert(all.take(i as int) =~= all);
    map
}

/// The fields of a status page in text form.
pub fn text_status_fields(body: &str) -> (r: FieldMap)
    ensures
        r@ == fields::fields_of(text::lines_of(body@)),
{
    let all = lines(body);
    assert(text::texts(all@).skip(0) =~= text::texts(all@));
    read_fields(&all, 0)
}

/// The fields of a status page in either form.
pub open spec fn status_fields(body: Seq<char>) -> Map<Seq<char>, Seq<char>> {
    let text = text::trim_start_of(body, CharSet::Space);
    match json::json_members(text) {
        Some(fields) if text::has_prefix(text, "{"@) => json_fields_map(fields),
        _ => fields::fields_of(text::lines_of(body)),
    }
}

/// A field read as a number, white space around it aside.
pub open spec fn count_at(m: Map<Seq<char>, Seq<char>>, key: Seq<char>) -> Option<u64> {
    match fields::lookup(m, key) {
        Some(v) => number::parsed_u64(text::trimmed(v)),
        None => None,
    }
}

fn count_of(fields: &FieldMap, key: &str) -> (r: Option<u64>)
    ensures
        r == count_at(fields@, key@),
{
    match fields.get(key) {
        Some(v) => parse_u64(&trim(v)),
        None => None,
    }
}

/// All processes: as reported, or the active and the idle ones.
pub open spec fn total_processes(m: Map<Seq<char>, Seq<char>>) -> Option<u64> {
    match (
        count_at(m, "total processes"@),
        count_at(m, "active processes"@),
        count_at(m, "idle processes"@),
    ) {
        (Some(t), _, _) => Some(t),
        (None, Some(a), Some(i)) => if a + i <= u64::MAX {
            Some((a + i) as u64)
        } else {
            None
        },
        _ => None,
    }
}

/// A part of a whole in percent, when the whole is known and not zero.
pub open spec fn percent_of(part: Option<u64>, whole: Option<u64>) -> Option<(nat, nat)> {
    match (part, whole) {
        (Some(a), Some(b)) => if b > 0 {
            Some(((a * 100) as nat, b as nat))
        } else {
            None
        },
        _ => None,
    }
}

fn saturation(part: Option<u64>, whole: Option<u64>) -> (r: Option<Ratio>)
    ensures
        ratio::ratio_opt(r) == percent_of(part, whole),
{
    match (part, whole) {
        (Some(a), Some(b)) => Ratio::percent(a, b),
        _ => None,
    }
}

/// The highest number of workers: the ceiling, or the high-water mark in its place.
pub open spec fn reported_ceiling(m: Map<Seq<char>, Seq<char>>) -> Option<u64> {
    match count_at(m, "max children"@) {
        Some(n) => Some(n),
        None => count_at(m, "max active processes"@),
    }
}

/// What the fields of a status page say. One without a count of processes is none.
pub open spec fn metrics_of(m: Map<Seq<char>, Seq<char>>) -> PhpWorkerMetricsView {
    let active = count_at(m, "active processes"@);
    let total = total_processes(m);
    let ceiling = reported_ceiling(m);
    if active is None && total is None {
        PhpWorkerMetricsView::unset()
    } else {
        PhpWorkerMetricsView {
            is_detected: true,
            source: WorkerMetricSource::FpmStatus,
            pool_name: fields::lookup(m, "pool"@),
            process_manager: fields::lookup(m, "process manager"@),
            active_workers: active,
            idle_workers: count_at(m, "idle processes"@),
            total_workers: total,
            max_children: ceiling,
            listen_queue: count_at(m, "listen queue"@),
            listen_queue_len: count_at(m, "listen queue len"@),
            max_children_reached: count_at(m, "max children reached"@),
            slow_requests: count_at(m, "slow requests"@),
            saturation_pct: percent_of(active, ceiling),
            ..PhpWorkerMetricsView::unset()
        }
    }
}

/// Reads the fields of a status page.
pub fn metrics_from_status_fields(fields: &FieldMap) -> (r: PhpWorkerMetrics)
    ensures
        r@ == metrics_of(fields@),
{
    let active = count_of(fields, "active processes");
    let idle = count_of(fields, "idle processes");
    let total = match count_of(fields, "total processes") {
        Some(t) => Some(t),
        None => match (active, idle) {
            (Some(a), Some(i)) => a.checked_add(i),
            _ => None,
        },
    };
    let mut metrics = PhpWorkerMetrics::default();
    if active.is_none() && total.is_none() {
        return metrics;
    }
    let max_children = match count_of(fields, "max children") {
        Some(n) => Some(n),
        None => count_of(fields, "max active processes"),
    };
    metrics.is_detected = true;
    metrics.source = WorkerMetricSource::FpmStatus;
    metrics.pool_name = fields.owned("pool");
    metrics.process_manager = fields.owned("process manager");
    metrics.active_workers = active;
    metrics.idle_workers = idle;
    metrics.total_workers = total;
    metrics.max_children = max_children;
    metrics.listen_queue = count_of(fields, "listen queue");
    metrics.listen_queue_len = count_of(fields, "listen queue len");
    metrics.max_children_reached = count_of(fields, "max children reached");
    metrics.slow_requests = count_of(fields, "slow requests");
    metrics.saturation_pct = saturation(active, max_children);
    metrics
}

/// Parses a PHP-FPM status page, in either `?json` or plain-text format.
pub fn parse_fpm_status(body: &str) -> (r: PhpWorkerMetrics)
    ensures
        r@ == metrics_of(status_fields(body@)),
{
    let text = trim_start_matches(body, CharSet::Space);
    if starts_with(&text, "{") {
        if let Some(fields) = read_members(&text) {
            return metrics_from_status_fields(&json_status_fields(&fields));
        }
    }
    metrics_from_status_fields(&text_status_fields(body))
}

/// What a probe of a remote status page came to. A page that could not be read is a
/// misconfigured path, not a healthy pool: the reason takes the place of figures.
pub open spec fn fpm_probed(
    url: HttpTargetView,
    response: Result<HttpResponseView, HttpProbeErrorView>,
) -> PhpWorkerMetricsView {
    let failed = |reason: Seq<char>|
        PhpWorkerMetricsView {
            origin: Some(url.shown() + " ("@ + reason + ")"@),
            ..PhpWorkerMetricsView::unset()
        };
    match response {
        Ok(resp) => if resp.succeeded() {
            let metrics = metrics_of(status_fields(resp.body));
            if metrics.is_detected {
                PhpWorkerMetricsView { origin: Some(url.shown()), ..metrics }
            } else {
                failed("unparseable status response"@)
            }
        } else {
            failed("HTTP "@ + number::dec(resp.status as nat))
        },
        Err(e) => failed(e.described()),
    }
}

fn unread(url: &HttpTarget, reason: &str) -> (r: PhpWorkerMetrics)
    ensures
        r@ == (PhpWorkerMetricsView {
            origin: Some(url@.shown() + " ("@ + reason@ + ")"@),
            ..PhpWorkerMetricsView::unset()
        }),
{
    let mut metrics = PhpWorkerMetrics::default();
    metrics.origin = Some(url.describe().concat(" (").concat(reason).concat(")"));
    metrics
}

/// Reads PHP-FPM figures out of what a remote status page answered.
pub fn inspect_php_fpm_remote(
    status_url: &HttpTarget,
    response: &Result<HttpResponse, HttpProbeError>,
) -> (r: PhpWorkerMetrics)
    ensures
        r@ == fpm_probed(status_url@, http_probe::response_result(*response)),
{
    match response {
        Ok(resp) => if resp.is_success() {
            let mut metrics = parse_fpm_status(&resp.body);
            if metrics.is_detected {
                metrics.origin = Some(status_url.describe());
                metrics
            } else {
                unread(status_url, "unparseable status response")
            }
        } else {
            unread(
                status_url,
                "HTTP ".to_owned().concat(num(resp.status as u64).as_str()).as_str(),
            )
        },
        Err(e) => unread(status_url, &e.describe()),
    }
}

/// The memory of a full pool.
pub open spec fn pool_memory(max_children: Option<u64>, worker: Option<(nat, nat)>) -> Option<
    (nat, nat),
> {
    match (max_children, worker) {
        (Some(n), Some(w)) => Some((ratio::capped(w.0 * n as nat), w.1)),
        _ => None,
    }
}

fn full_pool(max_children: Option<u64>, worker: Option<Ratio>) -> (r: Option<Ratio>)
    ensures
        ratio::ratio_opt(r) == pool_memory(max_children, ratio::ratio_opt(worker)),
{
    match (max_children, worker) {
        (Some(n), Some(w)) => Some(w.times(n)),
        _ => None,
    }
}

/// Whether a full pool takes more than four fifths of the memory of the host. Both figures
/// have to be known; guessing either one makes a critical alert out of thin air.
pub open spec fn risks_oom(pool: Option<(nat, nat)>, host: Option<(nat, nat)>) -> bool {
    match (pool, host) {
        (Some(p), Some(h)) => h.0 > 0 && p.0 * 5 * h.1 > h.0 * 4 * p.1,
        _ => false,
    }
}

fn exceeds_host(pool: Option<Ratio>, host: Option<Ratio>) -> (r: bool)
    ensures
        r == risks_oom(ratio::ratio_opt(pool), ratio::ratio_opt(host)),
{
    match (pool, host) {
        (Some(p), Some(h)) => h.is_positive() && p.exceeds_four_fifths_of(h),
        _ => false,
    }
}

/// A status-page reading combined with local pool config and host memory.
pub open spec fn sized(
    remote: PhpWorkerMetricsView,
    local: PhpWorkerMetricsView,
) -> PhpWorkerMetricsView {
    if !remote.is_detected {
        remote
    } else {
        let ceiling = match local.max_children {
            Some(n) => Some(n),
            None => remote.max_children,
        };
        let worker = match remote.worker_memory_mb {
            Some(w) => Some(w),
            None => local.worker_memory_mb,
        };
        let pool = pool_memory(ceiling, worker);
        PhpWorkerMetricsView {
            max_children: ceiling,
            saturation_pct: match percent_of(remote.active_workers, local.max_children) {
                Some(p) => Some(p),
                None => remote.saturation_pct,
            },
            process_manager: match remote.process_manager {
                Some(pm) => Some(pm),
                None => local.process_manager,
            },
            worker_memory_mb: worker,
            worker_memory_measured: if remote.worker_memory_mb is None {
                local.worker_memory_measured
            } else {
                remote.worker_memory_measured
            },
            host_total_memory_mb: local.host_total_memory_mb,
            total_pool_memory_mb: pool,
            oom_risk: risks_oom(pool, local.host_total_memory_mb),
            ..remote
        }
    }
}

/// Combines a status-page reading with local pool config and host memory.
///
/// The status page knows the live numbers; the pool config knows `pm.max_children` and the
/// host knows its RAM. When both can be seen, they are merged, so that saturation and OOM
/// risk are computed from real values on both sides.
pub fn merge_local_sizing(remote: PhpWorkerMetrics, local: &PhpWorkerMetrics) -> (r:
    PhpWorkerMetrics)
    ensures
        r@ == sized(remote@, local@),
{
    let mut merged = remote;
    if !merged.is_detected {
        return merged;
    }
    if let Some(p) = saturation(merged.active_workers, local.max_children) {
        merged.saturation_pct = Some(p);
    }
    if let Some(n) = local.max_children {
        merged.max_children = Some(n);
    }
    if merged.process_manager.is_none() {
        merged.process_manager = copy_opt(&local.process_manager);
    }
    if merged.worker_memory_mb.is_none() {
        merged.worker_memory_mb = local.worker_memory_mb;
        merged.worker_memory_measured = local.worker_memory_measured;
    }
    merged.host_total_memory_mb = local.host_total_memory_mb;
    merged.total_pool_memory_mb = full_pool(merged.max_children, merged.worker_memory_mb);
    merged.oom_risk = exceeds_host(merged.total_pool_memory_mb, merged.host_total_memory_mb);
    merged
}

/// What was read of a pool config: its settings, whether a section began, and whether a
/// second one did, behind which nothing counts.
#[verifier::ext_equal]
pub struct ConfState {
    pub settings: Map<Seq<char>, Seq<char>>,
    pub in_section: bool,
    pub finished: bool,
}

/// A setting without an inline comment, and without quotes around it.
pub open spec fn setting_value(v: Seq<char>) -> Seq<char> {
    text::trim_set(text::trimmed(text::first_piece(v, CharSet::Two(';', '#'))), CharSet::One('"'))
}

/// The name in a section line.
pub open spec fn section_name(line: Seq<char>) -> Seq<char> {
    text::trimmed(text::first_piece(text::trim_start_of(line, CharSet::One('[')), CharSet::One(']')))
}

/// The state after one more line.
pub open spec fn conf_step(state: ConfState, line: Seq<char>) -> ConfState {
    let text = text::trimmed(line);
    if state.finished || text.len() == 0 || text::has_prefix(text, ";"@) || text::has_prefix(text, "#"@) {
        state
    } else if text::has_prefix(text, "["@) {
        if state.in_section {
            ConfState { finished: true, ..state }
        } else {
            ConfState {
                settings: state.settings.insert("pool"@, section_name(text)),
                in_section: true,
                finished: false,
            }
        }
    } else {
        match text::split_at_first(text, "="@) {
            Some((k, v)) => ConfState {
                settings: state.settings.insert(text::trimmed(k), setting_value(v)),
                ..state
            },
            None => state,
        }
    }
}

pub open spec fn conf_state(lines: Seq<Seq<char>>) -> ConfState
    decreases lines.len(),
{
    if lines.len() == 0 {
        ConfState { settings: Map::empty(), in_section: false, finished: false }
    } else {
        conf_step(conf_state(lines.drop_last()), lines.last())
    }
}

/// The settings of the first pool in a config.
pub open spec fn pool_settings(content: Seq<char>) -> Map<Seq<char>, Seq<char>> {
    conf_state(text::lines_of(content)).settings
}

proof fn lemma_finished_stays(lines: Seq<Seq<char>>, more: Seq<Seq<char>>)
    requires
        conf_state(lines).finished,
    ensures
        conf_state(lines + more) == conf_state(lines),
    decreases more.len(),
{
    if more.len() == 0 {
        assert(lines + more =~= lines);
    } else {
        lemma_finished_stays(lines, more.drop_last());
        assert((lines + more).drop_last() =~= lines + more.drop_last());
    }
}

/// Parses a PHP-FPM INI-style pool configuration file.
///
/// Only the first `[pool]` section counts: merging every pool into one map silently mixes
/// `pm.max_children` values from unrelated pools.
pub fn parse_php_fpm_conf(content: &str) -> (r: FieldMap)
    ensures
        r@ == pool_settings(content@),
{
    let all = lines(content);
    let ghost views = text::texts(all@);
    let mut map = FieldMap::new();
    let mut in_section = false;
    let mut i: usize = 0;
    while i < all.len()
        invariant
            i <= all@.len(),
            views == text::texts(all@),
            views == text::lines_of(content@),
            conf_state(views.take(i as int)) == (ConfState {
                settings: map@,
                in_section,
                finished: false,
            }),
        decreases all@.len() - i,
    {
        proof {
            assert(views.take(i + 1).drop_last() =~= views.take(i as int));
            assert(views.take(i + 1).last() == all@[i as int]@);
        }
        let text = trim(&all[i]);
        if is_blank(&text) || starts_with(&text, ";") || starts_with(&text, "#") {
        } else if starts_with(&text, "[") {
            if in_section {
                proof {
                    let now = views.take(i + 1);
                    lemma_finished_stays(now, views.skip(i + 1));
                    assert(now + views.skip(i + 1) =~= views);
                }
                return map;
            }
            in_section = true;
            let name = trim(
                &before_any(&trim_start_matches(&text, CharSet::One('[')), CharSet::One(']')),
            );
            map.insert("pool".to_owned(), name);
        } else if let Some((k, v)) = split_once(&text, "=") {
            let value = trim_matches(
                &trim(&before_any(&v, CharSet::Two(';', '#'))),
                CharSet::One('"'),
            );
            map.insert(trim(&k), value);
        }
        i += 1;
    }
    assert(views.take(i as int) =~= views);
    map
}

/// Whether a line begins a section.
pub open spec fn is_section_line(line: Seq<char>) -> bool {
    text::has_prefix(text::trimmed(line), "["@)
}

/// A section line is neither blank nor a comment.
proof fn lemma_section_line(line: Seq<char>)
    requires
        is_section_line(line),
    ensures
        text::trimmed(line).len() > 0,
        !text::has_prefix(text::trimmed(line), ";"@),
        !text::has_prefix(text::trimmed(line), "#"@),
{
    reveal_strlit("[");
    reveal_strlit(";");
    reveal_strlit("#");
    let t = text::trimmed(line);
    assert(t.take(1)[0] == '[');
    if text::has_prefix(t, ";"@) {
        assert(t.take(1)[0] == ';');
    }
    if text::has_prefix(t, "#"@) {
        assert(t.take(1)[0] == '#');
    }
}

/// Lines with a section line among them leave the state in a section.
proof fn lemma_section_begun(lines: Seq<Seq<char>>)
    ensures
        conf_state(lines).finished ==> conf_state(lines).in_section,
        (exists|k: int| 0 <= k < lines.len() && is_section_line(#[trigger] lines[k]))
            ==> conf_state(lines).in_section,
    decreases lines.len(),
{
    if lines.len() > 0 {
        let init = lines.drop_last();
        lemma_section_begun(init);
        if exists|k: int| 0 <= k < lines.len() && is_section_line(#[trigger] lines[k]) {
            let k = choose|k: int| 0 <= k < lines.len() && is_section_line(#[trigger] lines[k]);
            if k < lines.len() - 1 {
                assert(init[k] == lines[k]);
                assert(is_section_line(init[k]));
            } else {
                lemma_section_line(lines[k]);
            }
        }
    }
}

/// Further lines only see the state before them.
proof fn lemma_state_carries_on(a: Seq<Seq<char>>, b: Seq<Seq<char>>, more: Seq<Seq<char>>)
    requires
        conf_state(a) == conf_state(b),
    ensures
        conf_state(a + more) == conf_state(b + more),
    decreases more.len(),
{
    if more.len() == 0 {
        assert(a + more =~= a);
        assert(b + more =~= b);
    } else {
        lemma_state_carries_on(a, b, more.drop_last());
        assert((a + more).drop_last() =~= a + more.drop_last());
        assert((b + more).drop_last() =~= b + more.drop_last());
    }
}

/// A carriage return before the line end does not count.
proof fn lemma_without_cr_trimmed(line: Seq<char>)
    ensures
        text::trimmed(text::without_cr(line)) == text::trimmed(line),
{
    if line.len() > 0 && line.last() == '\r' {
        text::lemma_trimmed_last(line);
    }
}

/// A line feed at the end of a text does not change what is read of it.
proof fn lemma_state_ended(a: Seq<char>)
    ensures
        conf_state(text::lines_of(a.push('\n'))) == conf_state(text::lines_of(a)),
{
    text::lemma_lines_ended(a);
    let open = text::lines_of(a);
    let ended = text::lines_of(a.push('\n'));
    if a.len() == 0 || a.last() == '\n' {
        assert(ended.drop_last() =~= open);
        text::lemma_trimmed_id(ended.last());
    } else {
        assert(ended.drop_last() =~= open.drop_last());
        lemma_without_cr_trimmed(open.last());
    }
}

/// Only the first pool counts: behind a config with a section line in it, a further section
/// line and any text after that change nothing.
pub proof fn law_second_pool_is_ignored(first: Seq<char>, other: Seq<char>, rest: Seq<char>)
    requires
        exists|k: int|
            0 <= k < text::lines_of(first).len() && is_section_line(
                #[trigger] text::lines_of(first)[k],
            ),
        is_section_line(other),
        !other.contains('\n'),
    ensures
        pool_settings(first + "\n"@ + other + "\n"@ + rest) == pool_settings(first),
{
    reveal_strlit("\n");
    let set = CharSet::One('\n');
    let head = first.push('\n');
    let line = other.push('\n');
    let content = first + "\n"@ + other + "\n"@ + rest;
    assert(content =~= head + (line + rest));
    text::lemma_lines_concat(head, line + rest);
    text::lemma_lines_concat(line, rest);
    text::lemma_lines_ended(other);
    lemma_section_line(other);
    assert(other.len() > 0) by {
        if other.len() == 0 {
            text::lemma_trimmed_id(other);
        }
    }
    assert(other.last() != '\n') by {
        assert(other.contains(other[other.len() - 1]));
    }
    text::lemma_next_member(other, set, 0);
    assert(text::next_member(other, set, 0) == other.len()) by {
        let i = text::next_member(other, set, 0);
        if i < other.len() {
            assert(other.contains(other[i]));
        }
    }
    assert(text::lines_of(other) =~= seq![other]);
    let second = text::without_cr(other);
    assert(text::lines_of(line) =~= seq![second]);
    lemma_without_cr_trimmed(other);
    let before = text::lines_of(first);
    lemma_state_ended(first);
    lemma_section_begun(before);
    let tail = text::lines_of(rest);
    let more = seq![second] + tail;
    lemma_state_carries_on(text::lines_of(head), before, more);
    let begun = before.push(second);
    assert(before + more =~= begun + tail);
    assert(begun.drop_last() =~= before);
    lemma_finished_stays(begun, tail);
}

/// A pool config that was found.
#[derive(Debug, Clone)]
pub struct PoolConf {
    pub path: String,
    pub settings: FieldMap,
}

/// The standard locations of pool configs, in the order in which they are tried.
pub open spec fn pool_conf_locations() -> Seq<Seq<char>> {
    seq![
        "/etc/php/8.4/fpm/pool.d/www.conf"@,
        "/etc/php/8.3/fpm/pool.d/www.conf"@,
        "/etc/php/8.2/fpm/pool.d/www.conf"@,
        "/etc/php/8.1/fpm/pool.d/www.conf"@,
        "/etc/php-fpm.d/www.conf"@,
        "/usr/local/etc/php-fpm.d/www.conf"@,
        "/opt/remi/php83/root/etc/php-fpm.d/www.conf"@,
    ]
}

/// The paths to try for a pool config. An explicitly supplied path stands alone: failing on
/// it is better than silently falling back to an unrelated pool.
pub fn pool_conf_paths(custom: Option<&str>) -> (r: Vec<String>)
    ensures
        text::texts(r@) == match text::str_opt(custom) {
            Some(p) => seq![p],
            None => pool_conf_locations(),
        },
{
    let mut paths: Vec<String> = Vec::new();
    if let Some(p) = custom {
        paths.push(p.to_owned());
        assert(text::texts(paths@) =~= seq![p@]);
        return paths;
    }
    paths.push("/etc/php/8.4/fpm/pool.d/www.conf".to_owned());
    paths.push("/etc/php/8.3/fpm/pool.d/www.conf".to_owned());
    paths.push("/etc/php/8.2/fpm/pool.d/www.conf".to_owned());
    paths.push("/etc/php/8.1/fpm/pool.d/www.conf".to_owned());
    paths.push("/etc/php-fpm.d/www.conf".to_owned());
    paths.push("/usr/local/etc/php-fpm.d/www.conf".to_owned());
    paths.push("/opt/remi/php83/root/etc/php-fpm.d/www.conf".to_owned());
    assert(text::texts(paths@) =~= pool_conf_locations());
    paths
}

/// What a found pool config holds.
pub open spec fn conf_view(c: Option<PoolConf>) -> Option<(Seq<char>, Map<Seq<char>, Seq<char>>)> {
    match c {
        Some(v) => Some((v.path@, v.settings@)),
        None => None,
    }
}

/// The first of the paths whose file could be read, with the settings in it.
pub open spec fn first_conf(
    paths: Seq<Seq<char>>,
    contents: Seq<Option<Seq<char>>>,
) -> Option<(Seq<char>, Map<Seq<char>, Seq<char>>)>
    decreases paths.len(),
{
    if paths.len() == 0 || contents.len() == 0 {
        None
    } else {
        match contents[0] {
            Some(text) => Some((paths[0], pool_settings(text))),
            None => first_conf(paths.drop_first(), contents.drop_first()),
        }
    }
}

/// Finds the pool config to go by, given the paths that were tried and what each held.
pub fn discover_fpm_conf(paths: &Vec<String>, contents: &Vec<Option<String>>) -> (r: Option<
    PoolConf,
>)
    ensures
        conf_view(r) == first_conf(text::texts(paths@), patterns::group_texts(contents@)),
{
    let ghost p = text::texts(paths@);
    let ghost c = patterns::group_texts(contents@);
    let mut i: usize = 0;
    assert(p.skip(0) =~= p);
    assert(c.skip(0) =~= c);
    while i < paths.len() && i < contents.len()
        invariant
            i <= paths@.len(),
            i <= contents@.len(),
            p == text::texts(paths@),
            c == patterns::group_texts(contents@),
            first_conf(p, c) == first_conf(p.skip(i as int), c.skip(i as int)),
        decreases paths@.len() - i,
    {
        proof {
            assert(p.skip(i as int).drop_first() =~= p.skip(i + 1));
            assert(c.skip(i as int).drop_first() =~= c.skip(i + 1));
            assert(p.skip(i as int)[0] == paths@[i as int]@);
            assert(c.skip(i as int)[0] == text::text_opt(contents@[i as int]));
        }
        if let Some(text) = &contents[i] {
            return Some(
                PoolConf { path: paths[i].clone(), settings: parse_php_fpm_conf(text) },
            );
        }
        i += 1;
    }
    None
}

/// What a `/proc` sweep found for php-fpm.
#[derive(Debug, Clone, Copy, PartialEq, Eq)]
pub struct FpmProcessScan {
    /// Worker processes, excluding the master.
    pub workers: u64,
    /// Workers in R (running) or D (uninterruptible) state.
    pub running: u64,
    /// Summed worker RSS in KiB.
    pub total_rss_kb: u64,
}

impl Default for FpmProcessScan {
    fn default() -> (r: FpmProcessScan)
        ensures
            r == (FpmProcessScan { workers: 0, running: 0, total_rss_kb: 0 }),
    {
        FpmProcessScan { workers: 0, running: 0, total_rss_kb: 0 }
    }
}

/// The sum of two counts, as far as it fits.
pub open spec fn plus(a: u64, b: int) -> u64 {
    if a + b <= u64::MAX {
        (a + b) as u64
    } else {
        u64::MAX
    }
}

/// A process state letter in `/proc/<pid>/stat`: the first one behind the last parenthesis,
/// since the name before it may itself hold spaces or brackets.
pub open spec fn state_letter(stat: Seq<char>) -> Option<char> {
    match text::after_last(stat, ')') {
        Some(rest) => if text::words_of(rest).len() > 0 && text::words_of(rest)[0].len() > 0 {
            Some(text::words_of(rest)[0][0])
        } else {
            None
        },
        None => None,
    }
}

pub fn parse_proc_state(stat: &str) -> (r: Option<char>)
    ensures
        r == state_letter(stat@),
{
    match rsplit_after(stat, ')') {
        Some(rest) => {
            let words = split_whitespace(&rest);
            assert(text::texts(words@).len() == words@.len());
            if words.len() == 0 {
                return None;
            }
            assert(text::texts(words@)[0] == words@[0]@);
            let letters = chars_of(&words[0]);
            if letters.len() == 0 {
                None
            } else {
                Some(letters[0])
            }
        },
        None => None,
    }
}

/// Resident set size in KiB in `/proc/<pid>/statm`, which counts pages of 4 KiB.
pub open spec fn rss_kb(statm: Seq<char>) -> Option<u64> {
    let words = text::words_of(statm);
    if words.len() < 2 {
        None
    } else {
        match number::parsed_u64(words[1]) {
            Some(pages) => Some(plus(0, pages * 4)),
            None => None,
        }
    }
}

pub fn parse_rss_kb(statm: &str) -> (r: Option<u64>)
    ensures
        r == rss_kb(statm@),
{
    let words = split_whitespace(statm);
    assert(text::texts(words@).len() == words@.len());
    if words.len() < 2 {
        return None;
    }
    assert(text::texts(words@)[1] == words@[1]@);
    match parse_u64(&words[1]) {
        Some(pages) => Some(
            if pages <= u64::MAX / 4 {
                pages * 4
            } else {
                u64::MAX
            },
        ),
        None => None,
    }
}

/// `MemTotal` in `/proc/meminfo`, in MB.
pub open spec fn mem_total_mb(lines: Seq<Seq<char>>) -> Option<(nat, nat)>
    decreases lines.len(),
{
    if lines.len() == 0 {
        None
    } else {
        match text::without_prefix(lines[0], "MemTotal:"@) {
            Some(rest) => if text::words_of(rest).len() == 0 {
                None
            } else {
                match ratio::decimal_of(text::words_of(rest)[0]) {
                    Some(kb) => if kb.1 * 1024 <= u64::MAX {
                        Some((kb.0, kb.1 * 1024))
                    } else {
                        None
                    },
                    None => None,
                }
            },
            None => mem_total_mb(lines.drop_first()),
        }
    }
}

/// Reads `MemTotal` from `/proc/meminfo`.
pub fn parse_mem_total(meminfo: &str) -> (r: Option<Ratio>)
    ensures
        ratio::ratio_opt(r) == mem_total_mb(text::lines_of(meminfo@)),
{
    let all = lines(meminfo);
    let ghost views = text::texts(all@);
    let mut i: usize = 0;
    assert(views.skip(0) =~= views);
    while i < all.len()
        invariant
            i <= all@.len(),
            views == text::texts(all@),
            views == text::lines_of(meminfo@),
            mem_total_mb(views) == mem_total_mb(views.skip(i as int)),
        decreases all@.len() - i,
    {
        assert(views.skip(i as int).drop_first() =~= views.skip(i + 1));
        assert(views.skip(i as int)[0] == all@[i as int]@);
        if let Some(rest) = strip_prefix(&all[i], "MemTotal:") {
            let words = split_whitespace(&rest);
            assert(text::texts(words@).len() == words@.len());
            if words.len() == 0 {
                return None;
            }
            assert(text::texts(words@)[0] == words@[0]@);
            return match Ratio::parse(&words[0]) {
                Some(kb) => kb.divided_by(1024),
                None => None,
            };
        }
        i += 1;
    }
    None
}

/// Whether the name of a directory under `/proc` is that of a process.
pub open spec fn is_pid(name: Seq<char>) -> bool {
    name.len() > 0 && forall|i: int| 0 <= i < name.len() ==> '0' <= #[trigger] name[i] <= '9'
}

pub fn names_process(name: &str) -> (r: bool)
    ensures
        r == is_pid(name@),
{
    let chars = chars_of(name);
    if chars.len() == 0 {
        return false;
    }
    let mut i: usize = 0;
    while i < chars.len()
        invariant
            i <= chars@.len(),
            chars@ == name@,
            chars@.len() > 0,
            forall|k: int| 0 <= k < i ==> '0' <= #[trigger] name@[k] <= '9',
        decreases chars@.len() - i,
    {
        if !('0' <= chars[i] && chars[i] <= '9') {
            assert(!('0' <= name@[i as int] <= '9'));
            return false;
        }
        i += 1;
    }
    true
}

/// Whether a process is a php-fpm worker. The master is not one and must not inflate the
/// pool count; its command line says so.
pub open spec fn is_worker(comm: Seq<char>, cmdline: Option<Seq<char>>) -> bool {
    text::contains_text(text::trimmed(comm), "php-fpm"@) && match cmdline {
        Some(c) => !text::contains_text(c, "master process"@),
        None => true,
    }
}

/// The scan with one process taken in, given what could be read of it.
pub open spec fn with_process(
    scan: FpmProcessScan,
    comm: Seq<char>,
    cmdline: Option<Seq<char>>,
    stat: Option<Seq<char>>,
    statm: Option<Seq<char>>,
) -> FpmProcessScan {
    if !is_worker(comm, cmdline) {
        scan
    } else {
        let busy = match stat {
            Some(s) => state_letter(s) == Some('R') || state_letter(s) == Some('D'),
            None => false,
        };
        let rss = match statm {
            Some(s) => match rss_kb(s) {
                Some(kb) => kb,
                None => 0,
            },
            None => 0,
        };
        FpmProcessScan {
            workers: plus(scan.workers, 1),
            running: if busy {
                plus(scan.running, 1)
            } else {
                scan.running
            },
            total_rss_kb: plus(scan.total_rss_kb, rss as int),
        }
    }
}

impl FpmProcessScan {
    /// Takes one process into the scan.
    pub fn observe(
        &mut self,
        comm: &str,
        cmdline: Option<&str>,
        stat: Option<&str>,
        statm: Option<&str>,
    )
        ensures
            *final(self) == with_process(
                *old(self),
                comm@,
                text::str_opt(cmdline),
                text::str_opt(stat),
                text::str_opt(statm),
            ),
    {
        if !contains(&trim(comm), "php-fpm") {
            return ;
        }
        if let Some(c) = cmdline {
            if contains(c, "master process") {
                return ;
            }
        }
        self.workers = self.workers.saturating_add(1);
        if let Some(s) = stat {
            if let Some(letter) = parse_proc_state(s) {
                if letter == 'R' || letter == 'D' {
                    self.running = self.running.saturating_add(1);
                }
            }
        }
        if let Some(s) = statm {
            if let Some(kb) = parse_rss_kb(s) {
                self.total_rss_kb = self.total_rss_kb.saturating_add(kb);
            }
        }
    }

    /// The mean worker RSS in MB.
    pub open spec fn mean_rss_mb(self) -> Option<(nat, nat)> {
        if self.workers == 0 || self.total_rss_kb == 0 || self.workers * 1024 > u64::MAX {
            None
        } else {
            Some((self.total_rss_kb as nat, (self.workers * 1024) as nat))
        }
    }

    /// Mean worker RSS in MB, when any worker was seen.
    pub fn average_rss_mb(&self) -> (r: Option<Ratio>)
        ensures
            ratio::ratio_opt(r) == self.mean_rss_mb(),
    {
        if self.workers == 0 || self.total_rss_kb == 0 {
            return None;
        }
        match self.workers.checked_mul(1024) {
            Some(den) => Ratio::new(self.total_rss_kb, den),
            None => None,
        }
    }
}

/// The source that a scan and a pool config amount to: PHP-FPM is detected only on real
/// evidence, a live worker or a pool config on disk.
pub open spec fn local_source(has_conf: bool, workers: u64) -> WorkerMetricSource {
    if workers > 0 {
        WorkerMetricSource::ProcScan
    } else if has_conf {
        WorkerMetricSource::ConfigOnly
    } else {
        WorkerMetricSource::NotDetected
    }
}

/// What a pool config, a scan and the memory of the host say of the local pool.
pub open spec fn local_metrics(
    conf: Option<PoolConf>,
    scan: FpmProcessScan,
    host_mb: Option<(nat, nat)>,
) -> PhpWorkerMetricsView {
    let settings = match conf {
        Some(c) => c.settings@,
        None => Map::empty(),
    };
    let ceiling = fields::number_at(settings, "pm.max_children"@);
    let worker = match scan.mean_rss_mb() {
        Some(m) => m,
        None => (ESTIMATED_WORKER_MEMORY_MB as nat, 1),
    };
    let pool = pool_memory(ceiling, Some(worker));
    let seen = scan.workers > 0;
    if local_source(conf is Some, scan.workers) == WorkerMetricSource::NotDetected {
        PhpWorkerMetricsView::unset()
    } else {
        PhpWorkerMetricsView {
            is_detected: true,
            source: local_source(conf is Some, scan.workers),
            origin: match conf {
                Some(c) => Some(c.path@),
                None => Some("/proc scan"@),
            },
            pool_name: match conf {
                Some(c) => paths::file_stem_of(c.path@),
                None => None,
            },
            process_manager: fields::lookup(settings, "pm"@),
            active_workers: if seen {
                Some(scan.running)
            } else {
                None
            },
            idle_workers: if !seen {
                None
            } else if scan.workers >= scan.running {
                Some((scan.workers - scan.running) as u64)
            } else {
                Some(0)
            },
            total_workers: if seen {
                Some(scan.workers)
            } else {
                None
            },
            max_children: ceiling,
            saturation_pct: percent_of(Some(scan.running), ceiling),
            worker_memory_mb: Some(worker),
            worker_memory_measured: scan.mean_rss_mb() is Some,
            total_pool_memory_mb: pool,
            host_total_memory_mb: host_mb,
            oom_risk: risks_oom(pool, host_mb),
            ..PhpWorkerMetricsView::unset()
        }
    }
}

/// Inspects PHP-FPM on the local host from its pool config, a `/proc` scan and the memory of
/// the host.
pub fn inspect_php_fpm(
    conf: &Option<PoolConf>,
    scan: &FpmProcessScan,
    host_total_memory_mb: Option<Ratio>,
) -> (r: PhpWorkerMetrics)
    ensures
        r@ == local_metrics(*conf, *scan, ratio::ratio_opt(host_total_memory_mb)),
{
    let mut metrics = PhpWorkerMetrics::default();
    let seen = scan.workers > 0;
    if !seen && conf.is_none() {
        return metrics;
    }
    metrics.is_detected = true;
    metrics.source = if seen {
        WorkerMetricSource::ProcScan
    } else {
        WorkerMetricSource::ConfigOnly
    };
    match conf {
        Some(c) => {
            metrics.origin = Some(c.path.clone());
            metrics.pool_name = file_stem(&c.path);
            metrics.process_manager = c.settings.owned("pm");
            metrics.max_children = c.settings.number("pm.max_children");
        },
        None => {
            metrics.origin = Some("/proc scan".to_owned());
        },
    }
    if seen {
        metrics.active_workers = Some(scan.running);
        metrics.idle_workers = Some(
            if scan.workers >= scan.running {
                scan.workers - scan.running
            } else {
                0
            },
        );
        metrics.total_workers = Some(scan.workers);
    }
    metrics.saturation_pct = saturation(Some(scan.running), metrics.max_children);
    match scan.average_rss_mb() {
        Some(measured) => {
            metrics.worker_memory_mb = Some(measured);
            metrics.worker_memory_measured = true;
        },
        None => {
            metrics.worker_memory_mb = Some(Ratio::whole(ESTIMATED_WORKER_MEMORY_MB));
        },
    }
    metrics.total_pool_memory_mb = full_pool(metrics.max_children, metrics.worker_memory_mb);
    metrics.host_total_memory_mb = host_total_memory_mb;
    metrics.oom_risk = exceeds_host(metrics.total_pool_memory_mb, host_total_memory_mb);
    metrics
}

/// Only the scoreboard of a status page is a source for worker pressure: whatever a host
/// holds, a local inspection never claims to be one, and without a pool config or a worker
/// it claims nothing at all.
pub proof fn law_local_figures_are_no_scoreboard(
    conf: Option<PoolConf>,
    scan: FpmProcessScan,
    host_mb: Option<(nat, nat)>,
)
    ensures
        ({
            let m = local_metrics(conf, scan, host_mb);
            &&& m.source != WorkerMetricSource::FpmStatus
            &&& m.listen_queue is None && m.max_children_reached is None
            &&& m.is_detected <==> (conf is Some || scan.workers > 0)
            &&& !m.is_detected ==> m == PhpWorkerMetricsView::unset()
        }),
{
}

/// Memory risk is claimed only from a ceiling and from the memory of the host, both known.
pub proof fn law_memory_risk_needs_both_figures(
    remote: PhpWorkerMetricsView,
    local: PhpWorkerMetricsView,
    conf: Option<PoolConf>,
    scan: FpmProcessScan,
    host_mb: Option<(nat, nat)>,
)
    ensures
        remote.is_detected && sized(remote, local).oom_risk ==> local.host_total_memory_mb is Some
            && sized(remote, local).max_children is Some,
        local_metrics(conf, scan, host_mb).oom_risk ==> host_mb is Some && local_metrics(
            conf,
            scan,
            host_mb,
        ).max_children is Some,
{
}

/// A response that is no status page gives no figures, and a detected pool always came out
/// of a successful response.
pub proof fn law_remote_figures_were_read(
    url: HttpTargetView,
    response: Result<HttpResponseView, HttpProbeErrorView>,
)
    ensures
        ({
            let m = fpm_probed(url, response);
            &&& m.origin is Some
            &&& m.is_detected ==> response is Ok && response->Ok_0.succeeded() && m.source
                == WorkerMetricSource::FpmStatus
            &&& !m.is_detected ==> m == (PhpWorkerMetricsView {
                origin: m.origin,
                ..PhpWorkerMetricsView::unset()
            })
        }),
{
}

/// The memory of a full pool is the ceiling times the footprint that is reported with it, as
/// far as a numerator goes, and the risk of running out is claimed exactly where that is more
/// than four fifths of a known host memory.
pub proof fn law_pool_is_sized_by_its_workers(
    conf: Option<PoolConf>,
    scan: FpmProcessScan,
    host: Option<Ratio>,
    r: PhpWorkerMetrics,
)
    requires
        r@ == local_metrics(conf, scan, ratio::ratio_opt(host)),
    ensures
        r.max_children is Some && r.worker_memory_mb is Some ==> ({
            let n = r.max_children->0 as nat;
            let w = r.worker_memory_mb->0;
            let p = r.total_pool_memory_mb->0;
            &&& r.total_pool_memory_mb is Some
            &&& p.den() == w.den()
            &&& w.num() * n <= 0xffff_ffff_ffff_ffff_ffff_ffff_ffff ==> p.num() == w.num() * n
            &&& w.num() * n > 0xffff_ffff_ffff_ffff_ffff_ffff_ffff ==> p.num()
                == 0xffff_ffff_ffff_ffff_ffff_ffff_ffff
        }),
        r.max_children is None ==> r.total_pool_memory_mb is None && !r.oom_risk,
        r.oom_risk <==> (r.total_pool_memory_mb is Some && r.host_total_memory_mb is Some && ({
            let p = r.total_pool_memory_mb->0;
            let h = r.host_total_memory_mb->0;
            h.num() > 0 && 5 * (p.num() * h.den()) > 4 * (h.num() * p.den())
        })),
        r.is_detected ==> ratio::ratio_opt(r.host_total_memory_mb) == ratio::ratio_opt(host)
            && r.worker_memory_mb is Some,
{
    if r.total_pool_memory_mb is Some && r.host_total_memory_mb is Some {
        let p = r.total_pool_memory_mb->0;
        let h = r.host_total_memory_mb->0;
        lemma_fifths(p.num(), p.den(), h.num(), h.den());
    }
}

proof fn lemma_fifths(a: nat, b: nat, c: nat, d: nat)
    ensures
        a * 5 * d == 5 * (a * d),
        c * 4 * b == 4 * (c * b),
{
    assert(a * 5 * d == 5 * (a * d)) by (nonlinear_arith);
    assert(c * 4 * b == 4 * (c * b)) by (nonlinear_arith);
}

/// What a local inspection says of the workers: as many as were seen, the running ones
/// active and the others idle, and their mean resident size, or 150 MB where none could be
/// measured.
pub proof fn law_local_figures_are_those_of_the_host(
    conf: Option<PoolConf>,
    scan: FpmProcessScan,
    host: Option<Ratio>,
    r: PhpWorkerMetrics,
)
    requires
        r@ == local_metrics(conf, scan, ratio::ratio_opt(host)),
    ensures
        r.is_detected <==> conf is Some || scan.workers > 0,
        scan.workers > 0 ==> {
            &&& r.source == WorkerMetricSource::ProcScan
            &&& r.active_workers == Some(scan.running)
            &&& r.total_workers == Some(scan.workers)
            &&& scan.running <= scan.workers ==> r.idle_workers is Some && r.idle_workers->0
                + scan.running == scan.workers
        },
        scan.workers == 0 ==> {
            &&& r.source == if conf is Some {
                WorkerMetricSource::ConfigOnly
            } else {
                WorkerMetricSource::NotDetected
            }
            &&& r.active_workers is None
            &&& r.total_workers is None
            &&& r.idle_workers is None
        },
        conf matches Some(c) ==> {
            &&& text::text_opt(r.origin) == Some(c.path@)
            &&& text::text_opt(r.pool_name) == paths::file_stem_of(c.path@)
            &&& c.settings@.dom().contains("pm"@) ==> text::text_opt(r.process_manager) == Some(
                c.settings@["pm"@],
            )
            &&& c.settings@.dom().contains("pm.max_children"@) ==> r.max_children
                == number::parsed_u64(c.settings@["pm.max_children"@])
            &&& !c.settings@.dom().contains("pm.max_children"@) ==> r.max_children is None
        },
        conf is None ==> r.max_children is None && r.process_manager is None,
        conf is None && r.is_detected ==> text::text_opt(r.origin) == Some("/proc scan"@),
        r.worker_memory_measured <==> 0 < scan.workers && scan.total_rss_kb > 0 && scan.workers
            * 1024 <= u64::MAX,
        r.worker_memory_measured ==> r.worker_memory_mb is Some && (r.worker_memory_mb->0).num()
            == scan.total_rss_kb && (r.worker_memory_mb->0).den() == 1024 * scan.workers,
        r.is_detected && !r.worker_memory_measured ==> r.worker_memory_mb is Some
            && (r.worker_memory_mb->0).num() == 150 && (r.worker_memory_mb->0).den() == 1,
        r.max_children is Some && r.max_children->0 > 0 ==> r.saturation_pct is Some && (
        r.saturation_pct->0).num() == 100 * scan.running && (r.saturation_pct->0).den()
            == r.max_children->0,
        r.max_children is None || r.max_children == Some(0u64) ==> r.saturation_pct is None,
        r.listen_queue is None && r.listen_queue_len is None && r.max_children_reached is None
            && r.slow_requests is None,
{
}

/// What a reading of a status page becomes once the pool config and the host are known: the
/// ceiling of the config counts, and the pool is sized and held against the host by it.
pub proof fn law_merged_sizing(
    remote: PhpWorkerMetrics,
    local: PhpWorkerMetrics,
    r: PhpWorkerMetrics,
)
    requires
        r@ == sized(remote@, local@),
    ensures
        !remote.is_detected ==> r@ == remote@,
        r.is_detected == remote.is_detected && r.source == remote.source,
        r.active_workers == remote.active_workers && r.idle_workers == remote.idle_workers
            && r.total_workers == remote.total_workers && r.listen_queue == remote.listen_queue
            && r.max_children_reached == remote.max_children_reached && r.slow_requests
            == remote.slow_requests && r.listen_queue_len == remote.listen_queue_len,
        text::text_opt(r.pool_name) == text::text_opt(remote.pool_name) && text::text_opt(r.origin)
            == text::text_opt(remote.origin),
        remote.is_detected && local.max_children is Some ==> r.max_children == local.max_children,
        remote.is_detected && local.max_children is None ==> r.max_children == remote.max_children,
        remote.is_detected && remote.worker_memory_mb is Some ==> ratio::ratio_opt(
            r.worker_memory_mb,
        ) == ratio::ratio_opt(remote.worker_memory_mb) && r.worker_memory_measured
            == remote.worker_memory_measured,
        remote.is_detected && remote.worker_memory_mb is None ==> ratio::ratio_opt(
            r.worker_memory_mb,
        ) == ratio::ratio_opt(local.worker_memory_mb) && r.worker_memory_measured
            == local.worker_memory_measured,
        remote.is_detected && remote.process_manager is Some ==> text::text_opt(r.process_manager)
            == text::text_opt(remote.process_manager),
        remote.is_detected && remote.process_manager is None ==> text::text_opt(r.process_manager)
            == text::text_opt(local.process_manager),
        remote.is_detected && remote.active_workers is Some && local.max_children is Some
            && local.max_children->0 > 0 ==> r.saturation_pct is Some && (r.saturation_pct->0).num()
            == 100 * remote.active_workers->0 && (r.saturation_pct->0).den()
            == local.max_children->0,
        remote.is_detected && (remote.active_workers is None || local.max_children is None
            || local.max_children->0 == 0) ==> ratio::ratio_opt(r.saturation_pct)
            == ratio::ratio_opt(remote.saturation_pct),
        remote.is_detected ==> {
            &&& ratio::ratio_opt(r.host_total_memory_mb) == ratio::ratio_opt(
                local.host_total_memory_mb,
            )
            &&& r.total_pool_memory_mb is Some <==> (r.max_children is Some && r.worker_memory_mb
                is Some)
            &&& r.total_pool_memory_mb is Some ==> ({
                let n = r.max_children->0 as nat;
                let w = r.worker_memory_mb->0;
                let p = r.total_pool_memory_mb->0;
                &&& p.den() == w.den()
                &&& w.num() * n <= 0xffff_ffff_ffff_ffff_ffff_ffff_ffff ==> p.num() == w.num() * n
                &&& w.num() * n > 0xffff_ffff_ffff_ffff_ffff_ffff_ffff ==> p.num()
                    == 0xffff_ffff_ffff_ffff_ffff_ffff_ffff
            })
            &&& r.oom_risk <==> (r.total_pool_memory_mb is Some && r.host_total_memory_mb is Some
                && ({
                let p = r.total_pool_memory_mb->0;
                let h = r.host_total_memory_mb->0;
                h.num() > 0 && 5 * (p.num() * h.den()) > 4 * (h.num() * p.den())
            }))
        },
{
    if r.total_pool_memory_mb is Some && r.host_total_memory_mb is Some {
        let p = r.total_pool_memory_mb->0;
        let h = r.host_total_memory_mb->0;
        lemma_fifths(p.num(), p.den(), h.num(), h.den());
    }
}

/// A field of a status page as a number.
pub open spec fn number_in(m: Map<Seq<char>, Seq<char>>, key: Seq<char>) -> Option<u64> {
    if m.dom().contains(key) {
        number::parsed_u64(text::trimmed(m[key]))
    } else {
        None
    }
}

/// A status page is one where it counts the active processes, or all of them; each figure is
/// then the field of that name.
pub proof fn law_status_figures(m: Map<Seq<char>, Seq<char>>, r: PhpWorkerMetrics)
    requires
        r@ == metrics_of(m),
    ensures
        ({
            let active = number_in(m, "active processes"@);
            let idle = number_in(m, "idle processes"@);
            let total = number_in(m, "total processes"@);
            &&& r.is_detected <==> (active is Some || total is Some)
            &&& !r.is_detected ==> r@ == PhpWorkerMetricsView::unset()
            &&& r.is_detected ==> {
                &&& r.source == WorkerMetricSource::FpmStatus
                &&& r.active_workers == active
                &&& r.idle_workers == idle
                &&& total is Some ==> r.total_workers == total
                &&& total is None && active is Some && idle is Some && active->0 + idle->0
                    <= u64::MAX ==> r.total_workers is Some && r.total_workers->0 == active->0
                    + idle->0
                &&& total is None && (active is None || idle is None || active->0 + idle->0
                    > u64::MAX) ==> r.total_workers is None
                &&& r.max_children == if number_in(m, "max children"@) is Some {
                    number_in(m, "max children"@)
                } else {
                    number_in(m, "max active processes"@)
                }
                &&& r.listen_queue == number_in(m, "listen queue"@)
                &&& r.listen_queue_len == number_in(m, "listen queue len"@)
                &&& r.max_children_reached == number_in(m, "max children reached"@)
                &&& r.slow_requests == number_in(m, "slow requests"@)
                &&& m.dom().contains("pool"@) ==> text::text_opt(r.pool_name) == Some(m["pool"@])
                &&& !m.dom().contains("pool"@) ==> r.pool_name is None
                &&& m.dom().contains("process manager"@) ==> text::text_opt(r.process_manager)
                    == Some(m["process manager"@])
                &&& !m.dom().contains("process manager"@) ==> r.process_manager is None
                &&& r.saturation_pct is Some <==> (active is Some && r.max_children is Some
                    && r.max_children->0 > 0)
                &&& r.saturation_pct is Some ==> (r.saturation_pct->0).num() == 100 * active->0
                    && (r.saturation_pct->0).den() == r.max_children->0
                &&& r.worker_memory_mb is None && r.total_pool_memory_mb is None
                    && r.host_total_memory_mb is None && !r.oom_risk && !r.worker_memory_measured
            }
        }),
{
}

/// A status page in JSON gives each text or number under its name in lower case, a later
/// one in place of an earlier one; whatever else it holds is passed over.
pub proof fn law_json_fields(fields: Seq<JsonFieldView>, f: JsonFieldView)
    ensures
        ({
            let before = json_fields_map(fields);
            let after = json_fields_map(fields.push(f));
            let key = text::ascii_lower(f.name);
            &&& f.text matches Some(t) ==> after == before.insert(key, t)
            &&& f.text is None && f.number is Some ==> after == before.insert(key, f.number->0)
            &&& f.text is None && f.number is None ==> after == before
        }),
{
    assert(fields.push(f).drop_last() =~= fields);
}

/// A status page is read as JSON where it begins with a brace and is a JSON object, and
/// line by line otherwise.
pub proof fn law_status_page_form(body: Seq<char>)
    ensures
        ({
            let text = text::trim_start_of(body, CharSet::Space);
            let is_json = text.len() > 0 && text[0] == '{' && json::json_members(text) is Some;
            &&& is_json ==> status_fields(body) == json_fields_map(json::json_members(text)->0)
            &&& !is_json ==> status_fields(body) == fields::fields_of(text::lines_of(body))
        }),
{
    reveal_strlit("{");
    let text = text::trim_start_of(body, CharSet::Space);
    let brace = "{"@;
    if text::has_prefix(text, brace) {
        assert(text.subrange(0, 1)[0] == brace[0]);
    }
    if text.len() > 0 && text[0] == '{' {
        assert(text.subrange(0, 1) =~= brace);
    }
}

/// What a probe of a status page comes to: figures for a page with any, and otherwise no
/// pool, with the reason beside the address.
pub proof fn law_probe_outcome(
    url: HttpTargetView,
    response: Result<HttpResponseView, HttpProbeErrorView>,
)
    ensures
        ({
            let m = fpm_probed(url, response);
            let resp = response->Ok_0;
            let answered = response is Ok && 200 <= resp.status < 300;
            let read = metrics_of(status_fields(resp.body));
            &&& answered && read.is_detected ==> m == (PhpWorkerMetricsView {
                origin: Some(url.shown()),
                ..read
            })
            &&& answered && !read.is_detected ==> !m.is_detected && m.origin == Some(
                url.shown() + " ("@ + "unparseable status response"@ + ")"@,
            )
            &&& response is Ok && !answered ==> !m.is_detected && m.origin == Some(
                url.shown() + " ("@ + ("HTTP "@ + number::dec(resp.status as nat)) + ")"@,
            )
            &&& response is Err ==> !m.is_detected && m.origin == Some(
                url.shown() + " ("@ + response->Err_0.described() + ")"@,
            )
        }),
{
}

/// A process counts as a worker where its name holds `php-fpm` and its command line does
/// not call it the master; it is running where its state is R or D, and its resident pages
/// are 4 KiB each.
pub proof fn law_scan_counts_workers(
    scan: FpmProcessScan,
    comm: Seq<char>,
    cmdline: Option<Seq<char>>,
    stat: Option<Seq<char>>,
    statm: Option<Seq<char>>,
)
    requires
        scan.workers < u64::MAX,
        scan.running < u64::MAX,
    ensures
        ({
            let after = with_process(scan, comm, cmdline, stat, statm);
            let counts = text::contains_text(text::trimmed(comm), "php-fpm"@) && !(
            cmdline matches Some(c) && text::contains_text(c, "master process"@));
            let runs = stat matches Some(s) && (state_letter(s) == Some('R') || state_letter(s)
                == Some('D'));
            let words = text::words_of(statm->0);
            let pages = number::parsed_u64(words[1]);
            &&& !counts ==> after == scan
            &&& counts ==> {
                &&& after.workers == scan.workers + 1
                &&& after.running == scan.running + if runs {
                    1int
                } else {
                    0
                }
                &&& !(statm is Some && words.len() >= 2 && pages is Some) ==> after.total_rss_kb
                    == scan.total_rss_kb
                &&& statm is Some && words.len() >= 2 && pages is Some && scan.total_rss_kb + 4
                    * pages->0 <= u64::MAX ==> after.total_rss_kb == scan.total_rss_kb + 4
                    * pages->0
            }
        }),
{
}

/// The state of a process is the letter behind the last closing parenthesis.
pub proof fn law_state_letter(name: Seq<char>, letter: char, rest: Seq<char>)
    requires
        forall|i: int| 0 <= i < rest.len() ==> rest[i] != ')',
        letter != ')',
        !text::is_space(letter),
    ensures
        state_letter(name + seq![')', ' ', letter, ' '] + rest) == Some(letter),
{
    let stat = name + seq![')', ' ', letter, ' '] + rest;
    let tail = seq![' ', letter, ' '] + rest;
    lemma_last_parenthesis(stat, name.len() as int);
    assert(stat.skip(name.len() as int + 1) =~= tail);
    assert(text::after_last(stat, ')') == Some(tail));
    reveal_with_fuel(text::next_outside, 3);
    reveal_with_fuel(text::next_member, 3);
    let space = CharSet::Space;
    assert(space.contains(' ') && !space.contains(letter));
    assert(tail[0] == ' ' && tail[1] == letter && tail[2] == ' ');
    assert(text::next_outside(tail, space, 0) == 1);
    assert(text::next_member(tail, space, 1) == 2);
    assert(text::words_of(tail)[0] == tail.subrange(1, 2));
}

proof fn lemma_last_parenthesis(s: Seq<char>, at: int)
    requires
        0 <= at < s.len(),
        s[at] == ')',
        forall|i: int| at < i < s.len() ==> s[i] != ')',
    ensures
        text::last_position(s, ')') == Some(at),
    decreases s.len(),
{
    if s.last() != ')' {
        lemma_last_parenthesis(s.drop_last(), at);
    }
}

/// The memory of the host is the first `MemTotal`, which counts KiB: a line before it that
/// is another one does not matter.
pub proof fn law_host_memory(line: Seq<char>, rest: Seq<Seq<char>>)
    ensures
        ({
            let total = mem_total_mb(seq![line] + rest);
            let figure = text::words_of(line.skip(9));
            &&& !text::has_prefix(line, "MemTotal:"@) ==> total == mem_total_mb(rest)
            &&& text::has_prefix(line, "MemTotal:"@) && figure.len() == 0 ==> total is None
            &&& text::has_prefix(line, "MemTotal:"@) && figure.len() > 0 && ratio::decimal_of(
                figure[0],
            ) is Some && 1024 * (ratio::decimal_of(figure[0])->0).1 <= u64::MAX ==> total is Some
                && (total->0).0 == (ratio::decimal_of(figure[0])->0).0 && (total->0).1 == 1024 * (
            ratio::decimal_of(figure[0])->0).1
        }),
{
    reveal_strlit("MemTotal:");
    assert((seq![line] + rest).drop_first() =~= rest);
    assert((seq![line] + rest)[0] == line);
}

/// The config that counts is the first one that could be read.
pub proof fn law_first_readable_config(
    paths: Seq<Seq<char>>,
    contents: Seq<Option<Seq<char>>>,
    i: int,
)
    requires
        0 <= i < paths.len(),
        i < contents.len(),
        contents[i] is Some,
        forall|j: int| 0 <= j < i ==> contents[j] is None,
    ensures
        first_conf(paths, contents) == Some((paths[i], pool_settings(contents[i]->0))),
    decreases i,
{
    if i > 0 {
        law_first_readable_config(paths.drop_first(), contents.drop_first(), i - 1);
    }
}

/// Without a file that could be read there is no config.
pub proof fn law_no_readable_config(paths: Seq<Seq<char>>, contents: Seq<Option<Seq<char>>>)
    requires
        forall|j: int| 0 <= j < contents.len() ==> contents[j] is None,
    ensures
        first_conf(paths, contents) is None,
    decreases paths.len(),
{
    if paths.len() > 0 && contents.len() > 0 {
        law_no_readable_config(paths.drop_first(), contents.drop_first());
    }
}

/// The page is asked for JSON unless the path names it: behind a question mark where there is
/// none yet, and else behind an ampersand.
pub proof fn law_status_path(path: Seq<char>)
    ensures
        text::contains_text(path, "json"@) ==> status_path_of(path) == path,
        !text::contains_text(path, "json"@) && text::has_char(path, '?') ==> status_path_of(path)
            == path + "&json"@,
        !text::contains_text(path, "json"@) && !text::has_char(path, '?') ==> status_path_of(path)
            == path + "?json"@,
{
}

/// A line of a pool config that is blank or a comment changes nothing, and neither does any
/// line behind the second section.
pub proof fn law_config_comments(lines: Seq<Seq<char>>, line: Seq<char>)
    requires
        ({
            let text = text::trimmed(line);
            text.len() == 0 || text[0] == ';' || text[0] == '#'
        }),
    ensures
        conf_state(lines.push(line)) == conf_state(lines),
{
    reveal_strlit(";");
    reveal_strlit("#");
    assert(lines.push(line).drop_last() =~= lines);
    let text = text::trimmed(line);
    if text.len() > 0 {
        assert(text[0] == ';' ==> text.subrange(0, 1) =~= ";"@);
        assert(text[0] == '#' ==> text.subrange(0, 1) =~= "#"@);
    }
}

/// A setting of a pool config is what stands before the first equals sign and behind it,
/// trimmed, without an inline comment and without quotes; a later one takes the place of an
/// earlier one of the same name.
pub proof fn law_config_setting(lines: Seq<Seq<char>>, line: Seq<char>)
    requires
        ({
            let text = text::trimmed(line);
            text.len() > 0 && text[0] != ';' && text[0] != '#' && text[0] != '['
        }),
        !conf_state(lines).finished,
    ensures
        ({
            let before = conf_state(lines);
            let after = conf_state(lines.push(line));
            let text = text::trimmed(line);
            &&& after.in_section == before.in_section && !after.finished
            &&& text::split_at_first(text, "="@) is None ==> after == before
            &&& text::split_at_first(text, "="@) matches Some(kv) ==> after.settings
                == before.settings.insert(
                text::trimmed(kv.0),
                text::trim_set(
                    text::trimmed(text::first_piece(kv.1, CharSet::Two(';', '#'))),
                    CharSet::One('"'),
                ),
            )
        }),
{
    reveal_strlit(";");
    reveal_strlit("#");
    reveal_strlit("[");
    assert(lines.push(line).drop_last() =~= lines);
    let text = text::trimmed(line);
    assert(text.subrange(0, 1)[0] == text[0]);
    assert(";"@[0] == ';' && "#"@[0] == '#' && "["@[0] == '[');
}

/// The first section of a pool config names the pool.
pub proof fn law_config_section(lines: Seq<Seq<char>>, line: Seq<char>, name: Seq<char>)
    requires
        text::trimmed(line) == seq!['['] + name + seq![']'],
        name.len() > 0,
        name[0] != '[',
        forall|i: int| 0 <= i < name.len() ==> name[i] != ']',
        !conf_state(lines).finished,
    ensures
        !conf_state(lines).in_section ==> conf_state(lines.push(line)).settings == conf_state(
            lines,
        ).settings.insert("pool"@, text::trimmed(name)) && conf_state(lines.push(line)).in_section
            && !conf_state(lines.push(line)).finished,
        conf_state(lines).in_section ==> conf_state(lines.push(line)).finished && conf_state(
            lines.push(line),
        ).settings == conf_state(lines).settings,
{
    reveal_strlit(";");
    reveal_strlit("#");
    reveal_strlit("[");
    assert(lines.push(line).drop_last() =~= lines);
    let text = text::trimmed(line);
    let open = CharSet::One('[');
    let close = CharSet::One(']');
    assert(text.subrange(0, 1)[0] == '[');
    assert(text.subrange(0, 1) =~= "["@);
    assert(";"@[0] == ';' && "#"@[0] == '#');
    reveal_with_fuel(text::trim_start_of, 3);
    assert(text.drop_first() =~= name + seq![']']);
    let inner = name + seq![']'];
    assert(inner[0] == name[0]);
    assert(text::trim_start_of(text, open) == inner);
    lemma_next_close(inner, name.len() as int, 0);
    assert(text::first_piece(inner, close) =~= name);
}

proof fn lemma_next_close(s: Seq<char>, at: int, i: int)
    requires
        0 <= i <= at < s.len(),
        s[at] == ']',
        forall|k: int| 0 <= k < at ==> s[k] != ']',
    ensures
        text::next_member(s, CharSet::One(']'), i) == at,
    decreases at - i,
{
    if i < at {
        lemma_next_close(s, at, i + 1);
    }
}

} // verus!
