//! Nginx `stub_status` inspection, for correlating web-tier pressure with PHP-FPM.

use crate::endpoints::{HttpTarget, HttpTargetView};
use crate::http_probe::{self, HttpProbeError, HttpProbeErrorView, HttpResponse, HttpResponseView};
use crate::model::{NginxStatus, NginxStatusView, ProbeOutcome, ProbeOutcomeView};
use crate::number::{self, num, parse_u64};
use crate::text::{
    self, chars_of, is_whitespace, lines, same, split_whitespace, starts_with, strip_prefix, trim,
    trim_end_matches, CharSet,
};
use vstd::prelude::*;
use vstd::string::*;

verus! {

pub const NOT_STUB_STATUS: &'static str = "response is not an Nginx stub_status page";

/// The status with one labelled counter of the last line of the page set.
pub open spec fn with_counter(
    s: NginxStatusView,
    label: Seq<char>,
    value: Option<u64>,
) -> NginxStatusView {
    let name = text::trim_end_of(label, CharSet::One(':'));
    if name == "Reading"@ {
        NginxStatusView { reading: value, ..s }
    } else if name == "Writing"@ {
        NginxStatusView { writing: value, ..s }
    } else if name == "Waiting"@ {
        NginxStatusView { waiting: value, ..s }
    } else {
        s
    }
}

/// The status with the first `n` pairs of labels and values set.
pub open spec fn with_counters(s: NginxStatusView, tokens: Seq<Seq<char>>, n: nat) -> NginxStatusView
    decreases n,
{
    if n == 0 {
        s
    } else {
        with_counter(
            with_counters(s, tokens, (n - 1) as nat),
            tokens[2 * n - 2],
            number::parsed_u64(tokens[2 * n - 1]),
        )
    }
}

/// The words that are numbers.
pub open spec fn numbers_in(words: Seq<Seq<char>>) -> Seq<u64>
    decreases words.len(),
{
    if words.len() == 0 {
        Seq::empty()
    } else {
        match number::parsed_u64(words.last()) {
            Some(n) => numbers_in(words.drop_last()).push(n),
            None => numbers_in(words.drop_last()),
        }
    }
}

/// Whether a text holds nothing but digits and white space.
pub open spec fn is_numeric(s: Seq<char>) -> bool {
    forall|i: int| 0 <= i < s.len() ==> '0' <= #[trigger] s[i] <= '9' || text::is_space(s[i])
}

/// The status with one line of the page taken in. The counts of accepted and handled
/// connections and of requests sit on an unlabelled line of their own.
pub open spec fn with_status_line(s: NginxStatusView, line: Seq<char>) -> NginxStatusView {
    let text = text::trimmed(line);
    let words = text::words_of(text);
    let numbers = numbers_in(words);
    match text::without_prefix(text, "Active connections:"@) {
        Some(rest) => NginxStatusView { active_connections: number::parsed_u64(text::trimmed(rest)), ..s },
        None => if text::has_prefix(text, "Reading:"@) {
            with_counters(s, words, words.len() / 2)
        } else if numbers.len() == 3 && is_numeric(text) {
            NginxStatusView {
                accepted: Some(numbers[0]),
                handled: Some(numbers[1]),
                requests: Some(numbers[2]),
                ..s
            }
        } else {
            s
        },
    }
}

/// The counters that the lines of a page give.
pub open spec fn counters_of(lines: Seq<Seq<char>>) -> NginxStatusView
    decreases lines.len(),
{
    if lines.len() == 0 {
        NginxStatusView::unset()
    } else {
        with_status_line(counters_of(lines.drop_last()), lines.last())
    }
}

/// What a page says: it is a status page when it gives the active connections and the
/// number of requests, and then tells how many connections were accepted but not handled.
pub open spec fn stub_status_of(body: Seq<char>) -> NginxStatusView {
    let read = counters_of(text::lines_of(body));
    if read.active_connections is Some && read.requests is Some {
        NginxStatusView {
            is_detected: true,
            probe: ProbeOutcomeView::Succeeded,
            dropped: match (read.accepted, read.handled) {
                (Some(a), Some(h)) => Some(
                    if a >= h {
                        (a - h) as u64
                    } else {
                        0
                    },
                ),
                _ => None,
            },
            ..read
        }
    } else {
        NginxStatusView { is_detected: false, ..read }
    }
}

fn read_counters(status: &mut NginxStatus, tokens: &Vec<String>)
    ensures
        final(status)@ == with_counters(
            old(status)@,
            text::texts(tokens@),
            (tokens@.len() / 2) as nat,
        ),
{
    let ghost start = status@;
    let ghost words = text::texts(tokens@);
    let total: usize = tokens.len();
    let n: usize = total / 2;
    let mut i: usize = 0;
    while i < n
        invariant
            i <= n,
            n == total / 2,
            total == tokens@.len(),
            words == text::texts(tokens@),
            status@ == with_counters(start, words, i as nat),
        decreases n - i,
    {
        let label = trim_end_matches(&tokens[2 * i], CharSet::One(':'));
        let value = parse_u64(&tokens[2 * i + 1]);
        assert(words[2 * (i + 1) - 2] == tokens@[2 * i]@);
        assert(words[2 * (i + 1) - 1] == tokens@[2 * i + 1]@);
        if same(&label, "Reading") {
            status.reading = value;
        } else if same(&label, "Writing") {
            status.writing = value;
        } else if same(&label, "Waiting") {
            status.waiting = value;
        }
        i += 1;
    }
}

fn read_numbers(words: &Vec<String>) -> (r: Vec<u64>)
    ensures
        r@ == numbers_in(text::texts(words@)),
{
    let ghost all = text::texts(words@);
    let mut out: Vec<u64> = Vec::new();
    let mut i: usize = 0;
    while i < words.len()
        invariant
            i <= words@.len(),
            all == text::texts(words@),
            out@ == numbers_in(all.take(i as int)),
        decreases words@.len() - i,
    {
        assert(all.take(i + 1).drop_last() =~= all.take(i as int));
        assert(all.take(i + 1).last() == words@[i as int]@);
        if let Some(n) = parse_u64(&words[i]) {
            out.push(n);
        }
        i += 1;
    }
    assert(all.take(i as int) =~= all);
    out
}

fn has_only_numbers(s: &str) -> (r: bool)
    ensures
        r == is_numeric(s@),
{
    let chars = chars_of(s);
    let mut i: usize = 0;
    while i < chars.len()
        invariant
            i <= chars@.len(),
            chars@ == s@,
            forall|k: int| 0 <= k < i ==> '0' <= #[trigger] s@[k] <= '9' || text::is_space(s@[k]),
        decreases chars@.len() - i,
    {
        let c = chars[i];
        if !(('0' <= c && c <= '9') || is_whitespace(c)) {
            assert(!('0' <= s@[i as int] <= '9' || text::is_space(s@[i as int])));
            return false;
        }
        i += 1;
    }
    true
}

fn read_line(status: &mut NginxStatus, line: &str)
    ensures
        final(status)@ == with_status_line(old(status)@, line@),
{
    let text = trim(line);
    if let Some(rest) = strip_prefix(&text, "Active connections:") {
        status.active_connections = parse_u64(&trim(&rest));
        return ;
    }
    let words = split_whitespace(&text);
    assert(text::texts(words@).len() == words@.len());
    if starts_with(&text, "Reading:") {
        read_counters(status, &words);
        return ;
    }
    let numbers = read_numbers(&words);
    if numbers.len() == 3 && has_only_numbers(&text) {
        status.accepted = Some(numbers[0]);
        status.handled = Some(numbers[1]);
        status.requests = Some(numbers[2]);
    }
}

/// Parses the seven counters emitted by `ngx_http_stub_status_module`.
pub fn parse_stub_status(body: &str) -> (r: NginxStatus)
    ensures
        r@ == stub_status_of(body@),
{
    let all = lines(body);
    let ghost views = text::texts(all@);
    let mut status = NginxStatus::default();
    let mut i: usize = 0;
    while i < all.len()
        invariant
            i <= all@.len(),
            views == text::texts(all@),
            status@ == counters_of(views.take(i as int)),
        decreases all@.len() - i,
    {
        assert(views.take(i + 1).drop_last() =~= views.take(i as int));
        assert(views.take(i + 1).last() == all@[i as int]@);
        read_line(&mut status, &all[i]);
        i += 1;
    }
    assert(views.take(i as int) =~= views);
    status.is_detected = status.active_connections.is_some() && status.requests.is_some();
    if status.is_detected {
        status.probe = ProbeOutcome::Succeeded;
        status.dropped = match (status.accepted, status.handled) {
            (Some(a), Some(h)) => Some(
                if a >= h {
                    a - h
                } else {
                    0
                },
            ),
            _ => None,
        };
    }
    status
}

/// What a probe of a status page came to: the counters, or why there are none.
pub open spec fn nginx_probed(
    url: HttpTargetView,
    response: Result<HttpResponseView, HttpProbeErrorView>,
) -> NginxStatusView {
    let failed = |reason: Seq<char>|
        NginxStatusView {
            endpoint: Some(url.shown()),
            probe: ProbeOutcomeView::Failed { reason },
            ..NginxStatusView::unset()
        };
    match response {
        Ok(resp) => if resp.succeeded() {
            let status = stub_status_of(resp.body);
            NginxStatusView {
                endpoint: Some(url.shown()),
                probe: if status.is_detected {
                    status.probe
                } else {
                    ProbeOutcomeView::Failed { reason: NOT_STUB_STATUS@ }
                },
                ..status
            }
        } else {
            failed("HTTP "@ + number::dec(resp.status as nat))
        },
        Err(e) => failed(e.described()),
    }
}

/// Reads Nginx `stub_status` counters out of what a web node answered.
pub fn inspect_nginx(status_url: &HttpTarget, response: &Result<HttpResponse, HttpProbeError>) -> (r:
    NginxStatus)
    ensures
        r@ == nginx_probed(status_url@, http_probe::response_result(*response)),
{
    let endpoint = Some(status_url.describe());
    match response {
        Ok(resp) => if resp.is_success() {
            let mut status = parse_stub_status(&resp.body);
            status.endpoint = endpoint;
            if !status.is_detected {
                status.probe = ProbeOutcome::failed(NOT_STUB_STATUS);
            }
            status
        } else {
            let mut status = NginxStatus::default();
            status.endpoint = endpoint;
            status.probe = ProbeOutcome::failed(
                "HTTP ".to_owned().concat(num(resp.status as u64).as_str()).as_str(),
            );
            status
        },
        Err(e) => {
            let mut status = NginxStatus::default();
            status.endpoint = endpoint;
            status.probe = ProbeOutcome::failed(&e.describe());
            status
        },
    }
}

proof fn lemma_counters_leave(s: NginxStatusView, tokens: Seq<Seq<char>>, n: nat)
    ensures
        ({
            let r = with_counters(s, tokens, n);
            r.active_connections == s.active_connections && r.accepted == s.accepted && r.handled
                == s.handled && r.requests == s.requests && r.dropped == s.dropped
                && r.is_detected == s.is_detected && r.probe == s.probe && r.endpoint == s.endpoint
        }),
    decreases n,
{
    if n > 0 {
        lemma_counters_leave(s, tokens, (n - 1) as nat);
    }
}

proof fn lemma_counters(lines: Seq<Seq<char>>)
    ensures
        ({
            let r = counters_of(lines);
            &&& r.accepted is Some <==> r.requests is Some
            &&& r.handled is Some <==> r.requests is Some
            &&& r.dropped is None
            &&& !r.is_detected
            &&& r.probe is NotAttempted
        }),
    decreases lines.len(),
{
    if lines.len() > 0 {
        lemma_counters(lines.drop_last());
        let words = text::words_of(text::trimmed(lines.last()));
        lemma_counters_leave(counters_of(lines.drop_last()), words, words.len() / 2);
    }
}

/// A page counts as a status page exactly when it gives the active connections and the
/// requests; then the dropped connections are known, and they are those accepted beyond
/// those handled. Anything else claims nothing, and no success.
pub proof fn law_stub_status(body: Seq<char>)
    ensures
        ({
            let r = stub_status_of(body);
            &&& r.is_detected <==> r.active_connections is Some && r.requests is Some
            &&& r.is_detected <==> r.probe is Succeeded
            &&& r.is_detected ==> r.accepted is Some && r.handled is Some && r.dropped == Some(
                if r.accepted->0 >= r.handled->0 {
                    (r.accepted->0 - r.handled->0) as u64
                } else {
                    0
                },
            )
            &&& !r.is_detected ==> r.dropped is None
        }),
{
    lemma_counters(text::lines_of(body));
}

/// Whatever a web node answered, the probe succeeded exactly when counters are reported.
pub proof fn law_nginx_probe_is_honest(
    url: HttpTargetView,
    response: Result<HttpResponseView, HttpProbeErrorView>,
)
    ensures
        nginx_probed(url, response).is_detected <==> nginx_probed(url, response).probe is Succeeded,
        nginx_probed(url, response).is_detected ==> response is Ok && response->Ok_0.succeeded(),
{
    if let Ok(resp) = response {
        law_stub_status(resp.body);
    }
}

/// The line of active connections gives their number, and changes nothing else.
pub proof fn law_connections_line(lines: Seq<Seq<char>>, line: Seq<char>, figure: Seq<char>)
    requires
        text::trimmed(line) == "Active connections:"@ + figure,
    ensures
        counters_of(lines.push(line)) == (NginxStatusView {
            active_connections: number::parsed_u64(text::trimmed(figure)),
            ..counters_of(lines)
        }),
{
    assert(lines.push(line).drop_last() =~= lines);
    let head = "Active connections:"@;
    let text = text::trimmed(line);
    assert(text.subrange(0, head.len() as int) =~= head);
    assert(text.skip(head.len() as int) =~= figure);
}

/// The line of three numbers gives the connections accepted, those handled and the requests,
/// in that order, and changes nothing else.
pub proof fn law_totals_line(lines: Seq<Seq<char>>, line: Seq<char>)
    requires
        ({
            let text = text::trimmed(line);
            let words = text::words_of(text);
            &&& forall|i: int|
                0 <= i < text.len() ==> ('0' <= #[trigger] text[i] <= '9' || text::is_space(text[i]))
            &&& words.len() == 3
            &&& number::parsed_u64(words[0]) is Some
            &&& number::parsed_u64(words[1]) is Some
            &&& number::parsed_u64(words[2]) is Some
        }),
    ensures
        ({
            let words = text::words_of(text::trimmed(line));
            counters_of(lines.push(line)) == (NginxStatusView {
                accepted: number::parsed_u64(words[0]),
                handled: number::parsed_u64(words[1]),
                requests: number::parsed_u64(words[2]),
                ..counters_of(lines)
            })
        }),
{
    reveal_strlit("Active connections:");
    reveal_strlit("Reading:");
    assert(lines.push(line).drop_last() =~= lines);
    let text = text::trimmed(line);
    let words = text::words_of(text);
    let numbers = numbers_in(words);
    reveal_with_fuel(numbers_in, 4);
    assert(words.drop_last().last() == words[1]);
    assert(words.drop_last().drop_last().last() == words[0]);
    assert(numbers.len() == 3);
    let a = "Active connections:"@;
    let r = "Reading:"@;
    assert(a[0] == 'A' && r[0] == 'R');
    assert(!text::is_space('A') && !text::is_space('R'));
    if text::has_prefix(text, a) {
        assert(text.subrange(0, a.len() as int)[0] == text[0]);
    }
    if text::has_prefix(text, r) {
        assert(text.subrange(0, r.len() as int)[0] == text[0]);
    }
}

/// The line of states gives the number behind each of its three labels, and changes nothing
/// else.
pub proof fn law_states_line(
    lines: Seq<Seq<char>>,
    line: Seq<char>,
    reading: Seq<char>,
    writing: Seq<char>,
    waiting: Seq<char>,
)
    requires
        text::has_prefix(text::trimmed(line), "Reading:"@),
        text::words_of(text::trimmed(line)) == seq![
            "Reading:"@,
            reading,
            "Writing:"@,
            writing,
            "Waiting:"@,
            waiting,
        ],
    ensures
        counters_of(lines.push(line)) == (NginxStatusView {
            reading: number::parsed_u64(reading),
            writing: number::parsed_u64(writing),
            waiting: number::parsed_u64(waiting),
            ..counters_of(lines)
        }),
{
    reveal_strlit("Active connections:");
    reveal_strlit("Reading:");
    reveal_strlit("Writing:");
    reveal_strlit("Waiting:");
    reveal_strlit("Reading");
    reveal_strlit("Writing");
    reveal_strlit("Waiting");
    assert(lines.push(line).drop_last() =~= lines);
    let text = text::trimmed(line);
    let words = text::words_of(text);
    let a = "Active connections:"@;
    let r = "Reading:"@;
    assert(text.subrange(0, r.len() as int)[0] == text[0]);
    if text::has_prefix(text, a) {
        assert(text.subrange(0, a.len() as int)[0] == text[0]);
    }
    let set = CharSet::One(':');
    reveal_with_fuel(text::trim_end_of, 2);
    assert("Reading:"@.drop_last() =~= "Reading"@);
    assert("Writing:"@.drop_last() =~= "Writing"@);
    assert("Waiting:"@.drop_last() =~= "Waiting"@);
    assert(text::trim_end_of("Reading:"@, set) == "Reading"@);
    assert(text::trim_end_of("Writing:"@, set) == "Writing"@);
    assert(text::trim_end_of("Waiting:"@, set) == "Waiting"@);
    assert("Reading"@[0] == 'R' && "Writing"@[0] == 'W' && "Waiting"@[0] == 'W');
    assert("Writing"@[1] == 'r' && "Waiting"@[1] == 'a');
    reveal_with_fuel(with_counters, 4);
    assert(words.len() / 2 == 3);
}

/// Any other line is passed over.
pub proof fn law_other_lines(lines: Seq<Seq<char>>, line: Seq<char>)
    requires
        !text::has_prefix(text::trimmed(line), "Active connections:"@),
        !text::has_prefix(text::trimmed(line), "Reading:"@),
        ({
            let text = text::trimmed(line);
            exists|i: int|
                0 <= i < text.len() && !('0' <= #[trigger] text[i] <= '9') && !text::is_space(text[i])
        }),
    ensures
        counters_of(lines.push(line)) == counters_of(lines),
{
    assert(lines.push(line).drop_last() =~= lines);
}

/// What a probe of the status page comes to: the figures of a page that has them, and
/// otherwise the reason.
pub proof fn law_nginx_probe(
    url: HttpTargetView,
    response: Result<HttpResponseView, HttpProbeErrorView>,
)
    ensures
        ({
            let r = nginx_probed(url, response);
            let resp = response->Ok_0;
            let answered = response is Ok && 200 <= resp.status < 300;
            let read = stub_status_of(resp.body);
            &&& r.endpoint == Some(url.shown())
            &&& answered && read.is_detected ==> r.is_detected && r.active_connections
                == read.active_connections && r.accepted == read.accepted && r.handled
                == read.handled && r.requests == read.requests && r.dropped == read.dropped
                && r.reading == read.reading && r.writing == read.writing && r.waiting
                == read.waiting
            &&& answered && !read.is_detected ==> r.probe == (ProbeOutcomeView::Failed {
                reason: "response is not an Nginx stub_status page"@,
            })
            &&& response is Ok && !answered ==> !r.is_detected && r.probe == (
            ProbeOutcomeView::Failed { reason: "HTTP "@ + number::dec(resp.status as nat) })
                && r.active_connections is None
            &&& response is Err ==> !r.is_detected && r.probe == (ProbeOutcomeView::Failed {
                reason: response->Err_0.described(),
            }) && r.active_connections is None
        }),
{
}

} // verus!
