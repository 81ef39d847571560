//! Terminal report of root-cause diagnoses.

use crate::causal::{
    self, CausalChain, CausalNode, CausalNodeType, CausalNodeView, InvestigationResult,
    InvestigationResultView,
};
use crate::finding::Confidence;
use crate::number::{self, num};
use crate::report::{
    self, put, put_all, put_span, put_styled, render, styled_span, Span, SpanView, Style,
};
use crate::text::{self, chars_of, join};
use vstd::prelude::*;
use vstd::string::*;

verus! {

/// The heading of the report.
pub const REPORT_TITLE: &'static str = "═══ MAGENTO DOCTOR: ROOT CAUSE INVESTIGATION ═══";

/// What is looked at without a symptom.
pub const WHOLE_STORE: &'static str =
    "Multi-dimensional root-cause correlation across Runtime, Database, Cache, and Code\n\n";

/// The good news.
pub const NOTHING_FOUND: &'static str =
    "✓ No critical root-cause bottlenecks identified for this query!";

/// What the good news covers.
pub const NOTHING_FOUND_SCOPE: &'static str =
    "All examined subsystems (MySQL query latency, Redis session safety, PHP-FPM queues, FPC layouts, and OpenSearch shards) are within operational thresholds.\n";

/// The upper edge of a diagnosis.
pub const BOX_TOP: &'static str =
    "┌──────────────────────────────────────────────────────────────────────────────┐\n";

/// The line below the heading of a diagnosis.
pub const BOX_MIDDLE: &'static str =
    "├──────────────────────────────────────────────────────────────────────────────┤\n";

/// The lower edge of a diagnosis.
pub const BOX_BOTTOM: &'static str =
    "└──────────────────────────────────────────────────────────────────────────────┘\n\n";

/// The width of the column of subsystems.
pub const SUBSYSTEM_WIDTH: usize = 15;

/// A text filled up with spaces to a width.
pub open spec fn padded(s: Seq<char>, width: nat) -> Seq<char> {
    if s.len() >= width {
        s
    } else {
        s + Seq::new((width - s.len()) as nat, |i: int| ' ')
    }
}

/// Fills a text up with spaces to a width.
pub fn pad(s: &str, width: usize) -> (r: String)
    ensures
        r@ == padded(s@, width as nat),
{
    let mut out = s.to_owned();
    let mut n: usize = chars_of(s).len();
    while n < width
        invariant
            s@.len() <= n,
            n <= width || n == s@.len(),
            out@ == s@ + Seq::new((n - s@.len()) as nat, |i: int| ' '),
        decreases width - n,
    {
        out.push(' ');
        n += 1;
        assert(out@ =~= s@ + Seq::new((n - s@.len()) as nat, |i: int| ' '));
    }
    assert(out@ =~= padded(s@, width as nat));
    out
}

/// The heading, and what the report is about.
pub open spec fn heading(symptom: Option<Seq<char>>) -> Seq<SpanView> {
    let title = seq![report::plain("\n"@), report::styled(REPORT_TITLE@, Style::BoldCyan), report::plain("\n"@)];
    match symptom {
        Some(target) => title + seq![
            report::plain("Focused symptom query: "@),
            report::styled(target, Style::BoldYellow),
            report::plain("\n\n"@),
        ],
        None => title + seq![report::plain(WHOLE_STORE@)],
    }
}

fn write_heading(symptom: Option<&str>) -> (r: Vec<Span>)
    ensures
        report::span_views(r@) == heading(text::str_opt(symptom)),
{
    let mut out: Vec<Span> = Vec::new();
    put(&mut out, "\n");
    put_styled(&mut out, REPORT_TITLE, Style::BoldCyan);
    put(&mut out, "\n");
    if let Some(target) = symptom {
        put(&mut out, "Focused symptom query: ");
        put_styled(&mut out, target, Style::BoldYellow);
        put(&mut out, "\n\n");
    } else {
        put(&mut out, WHOLE_STORE);
    }
    assert(report::span_views(out@) =~= heading(text::str_opt(symptom)));
    out
}

/// The badge of a confidence.
pub open spec fn confidence_badge(confidence: Confidence) -> SpanView {
    match confidence {
        Confidence::High => report::styled("HIGH CONFIDENCE"@, Style::BoldGreen),
        Confidence::Medium => report::styled("MEDIUM CONFIDENCE"@, Style::BoldYellow),
        Confidence::Low => report::styled("LOW CONFIDENCE"@, Style::White),
    }
}

/// The badge of an impact.
pub open spec fn impact_badge(score: u32) -> SpanView {
    let shown = "IMPACT: "@ + number::dec(score as nat);
    if score >= 90 {
        report::styled(shown + "/100 (CRITICAL)"@, Style::BoldRed)
    } else if score >= 70 {
        report::styled(shown + "/100 (HIGH)"@, Style::BoldYellow)
    } else {
        report::styled(shown + "/100 (MODERATE)"@, Style::Cyan)
    }
}

fn badge_of_confidence(confidence: Confidence) -> (r: Span)
    ensures
        r@ == confidence_badge(confidence),
{
    match confidence {
        Confidence::High => styled_span("HIGH CONFIDENCE", Style::BoldGreen),
        Confidence::Medium => styled_span("MEDIUM CONFIDENCE", Style::BoldYellow),
        Confidence::Low => styled_span("LOW CONFIDENCE", Style::White),
    }
}

fn badge_of_impact(score: u32) -> (r: Span)
    ensures
        r@ == impact_badge(score),
{
    let shown = "IMPACT: ".to_owned().concat(num(score as u64).as_str());
    if score >= 90 {
        Span { text: shown.concat("/100 (CRITICAL)"), style: Style::BoldRed }
    } else if score >= 70 {
        Span { text: shown.concat("/100 (HIGH)"), style: Style::BoldYellow }
    } else {
        Span { text: shown.concat("/100 (MODERATE)"), style: Style::Cyan }
    }
}

/// The badge of a step of a causal chain.
pub open spec fn step_badge(kind: CausalNodeType) -> SpanView {
    match kind {
        CausalNodeType::Symptom => report::styled("[Symptom]  "@, Style::BoldRed),
        CausalNodeType::Mechanism => report::styled("[Mechanism]"@, Style::BoldYellow),
        CausalNodeType::Trigger => report::styled("[Trigger]  "@, Style::BoldCyan),
        CausalNodeType::Culprit => report::styled("[Culprit]  "@, Style::BoldMagenta),
    }
}

fn badge_of_step(kind: CausalNodeType) -> (r: Span)
    ensures
        r@ == step_badge(kind),
{
    match kind {
        CausalNodeType::Symptom => styled_span("[Symptom]  ", Style::BoldRed),
        CausalNodeType::Mechanism => styled_span("[Mechanism]", Style::BoldYellow),
        CausalNodeType::Trigger => styled_span("[Trigger]  ", Style::BoldCyan),
        CausalNodeType::Culprit => styled_span("[Culprit]  ", Style::BoldMagenta),
    }
}

/// One step of a causal chain. The name of the subsystem is filled up before it is styled, so
/// that the columns align.
pub open spec fn step_line(node: CausalNodeView, is_last: bool) -> Seq<SpanView> {
    let line = seq![
        report::plain("│   "@),
        step_badge(node.node_type),
        report::plain(" "@),
        report::styled(padded(node.subsystem, SUBSYSTEM_WIDTH as nat), Style::Bold),
        report::plain(" "@),
        report::plain(node.description),
    ];
    let metric = match node.metric {
        Some(m) => seq![report::plain(" ("@), report::styled(m, Style::Dimmed), report::plain(")"@)],
        None => Seq::empty(),
    };
    let end = if is_last {
        seq![report::plain("\n"@)]
    } else {
        seq![report::plain("\n"@), report::plain("│        ⬇\n"@)]
    };
    line + metric + end
}

fn write_step(node: &CausalNode, is_last: bool) -> (r: Vec<Span>)
    ensures
        report::span_views(r@) == step_line(node@, is_last),
{
    let mut out: Vec<Span> = Vec::new();
    put(&mut out, "│   ");
    put_span(&mut out, badge_of_step(node.node_type));
    put(&mut out, " ");
    put_styled(&mut out, &pad(&node.subsystem, SUBSYSTEM_WIDTH), Style::Bold);
    put(&mut out, " ");
    put(&mut out, &node.description);
    if let Some(m) = &node.metric {
        put(&mut out, " (");
        put_styled(&mut out, m, Style::Dimmed);
        put(&mut out, ")");
    }
    put(&mut out, "\n");
    if !is_last {
        put(&mut out, "│        ⬇\n");
    }
    assert(report::span_views(out@) =~= step_line(node@, is_last));
    out
}

/// The first `n` steps of a causal chain.
pub open spec fn chain_lines(nodes: Seq<CausalNodeView>, n: nat) -> Seq<SpanView>
    decreases n,
{
    if n == 0 {
        Seq::empty()
    } else {
        chain_lines(nodes, (n - 1) as nat) + step_line(nodes[n - 1], n == nodes.len())
    }
}

fn write_chain(chain: &CausalChain) -> (r: Vec<Span>)
    ensures
        report::span_views(r@) == chain_lines(chain@.nodes, chain@.nodes.len()),
{
    let ghost nodes = chain@.nodes;
    let n: usize = chain.nodes.len();
    let mut out: Vec<Span> = Vec::new();
    let mut i: usize = 0;
    assert(report::span_views(out@) =~= chain_lines(nodes, 0));
    while i < n
        invariant
            i <= n,
            n == chain.nodes@.len(),
            nodes == chain@.nodes,
            report::span_views(out@) == chain_lines(nodes, i as nat),
        decreases n - i,
    {
        assert(nodes[i as int] == chain.nodes@[i as int]@);
        put_all(&mut out, write_step(&chain.nodes[i], i + 1 == n));
        i += 1;
    }
    out
}

/// One line for each item, between the same texts.
pub open spec fn list_lines(
    items: Seq<Seq<char>>,
    before: Seq<char>,
    style: Style,
) -> Seq<SpanView>
    decreases items.len(),
{
    if items.len() == 0 {
        Seq::empty()
    } else {
        list_lines(items.drop_last(), before, style) + seq![
            report::plain(before),
            report::styled(items.last(), style),
            report::plain("\n"@),
        ]
    }
}

fn write_list(items: &Vec<String>, before: &str, style: Style) -> (r: Vec<Span>)
    ensures
        report::span_views(r@) == list_lines(text::texts(items@), before@, style),
{
    let ghost all = text::texts(items@);
    let mut out: Vec<Span> = Vec::new();
    let mut i: usize = 0;
    assert(report::span_views(out@) =~= list_lines(all.take(0), before@, style));
    while i < items.len()
        invariant
            i <= items@.len(),
            all == text::texts(items@),
            report::span_views(out@) == list_lines(all.take(i as int), before@, style),
        decreases items@.len() - i,
    {
        let ghost written = report::span_views(out@);
        assert(all.take(i + 1).drop_last() =~= all.take(i as int));
        assert(all.take(i + 1).last() == items@[i as int]@);
        put(&mut out, before);
        put_styled(&mut out, &items[i], style);
        put(&mut out, "\n");
        assert(report::span_views(out@) =~= written + seq![
            report::plain(before@),
            report::styled(items@[i as int]@, style),
            report::plain("\n"@),
        ]);
        i += 1;
    }
    assert(all.take(i as int) =~= all);
    out
}

/// One numbered line for each item.
pub open spec fn numbered_lines(items: Seq<Seq<char>>) -> Seq<SpanView>
    decreases items.len(),
{
    if items.len() == 0 {
        Seq::empty()
    } else {
        numbered_lines(items.drop_last()) + seq![
            report::plain("│   "@ + number::dec(items.len()) + ". "@),
            report::styled(items.last(), Style::Green),
            report::plain("\n"@),
        ]
    }
}

fn write_numbered(items: &Vec<String>) -> (r: Vec<Span>)
    ensures
        report::span_views(r@) == numbered_lines(text::texts(items@)),
{
    let ghost all = text::texts(items@);
    let n: usize = items.len();
    let mut out: Vec<Span> = Vec::new();
    let mut i: usize = 0;
    assert(report::span_views(out@) =~= numbered_lines(all.take(0)));
    while i < n
        invariant
            i <= n,
            n == items@.len(),
            all == text::texts(items@),
            report::span_views(out@) == numbered_lines(all.take(i as int)),
        decreases n - i,
    {
        let ghost written = report::span_views(out@);
        assert(all.take(i + 1).drop_last() =~= all.take(i as int));
        assert(all.take(i + 1).last() == items@[i as int]@);
        let mark = "│   ".to_owned().concat(num((i + 1) as u64).as_str()).concat(". ");
        put(&mut out, &mark);
        put_styled(&mut out, &items[i], Style::Green);
        put(&mut out, "\n");
        assert(report::span_views(out@) =~= written + seq![
            report::plain("│   "@ + number::dec((i + 1) as nat) + ". "@),
            report::styled(items@[i as int]@, Style::Green),
            report::plain("\n"@),
        ]);
        i += 1;
    }
    assert(all.take(i as int) =~= all);
    out
}

/// The heading of one diagnosis.
pub open spec fn diagnosis_heading(number: nat, result: InvestigationResultView) -> Seq<SpanView> {
    seq![
        report::plain(BOX_TOP@),
        report::plain("│ [ROOT CAUSE #"@ + number::dec(number) + "] "@),
        report::styled(result.title, Style::Bold),
        report::plain("\n│ "@),
        confidence_badge(result.confidence),
        report::plain(" | "@),
        impact_badge(result.impact_score),
        report::plain("\n"@),
        report::plain(BOX_MIDDLE@),
        report::plain("│ Summary:\n│   "@ + result.summary + "\n│\n"@),
        report::plain("│ Causal Chain (Observed Symptom ➔ Culprit):\n"@),
    ]
}

/// The modules that a diagnosis implicates.
pub open spec fn module_lines(result: InvestigationResultView) -> Seq<SpanView> {
    if result.culprit_modules.len() > 0 {
        seq![
            report::plain("│\n│ Implicated Modules: "@),
            report::styled(text::joined(result.culprit_modules, ", "@), Style::BoldCyan),
            report::plain("\n"@),
        ]
    } else if result.evidence_basis.len() > 0 {
        seq![report::plain("│\n"@)]
    } else {
        Seq::empty()
    }
}

/// A list under a heading, unless it is empty.
pub open spec fn titled_list(
    title: Seq<char>,
    items: Seq<Seq<char>>,
    before: Seq<char>,
    style: Style,
) -> Seq<SpanView> {
    if items.len() == 0 {
        Seq::empty()
    } else {
        seq![report::plain(title)] + list_lines(items, before, style)
    }
}

/// The action plan of a diagnosis.
pub open spec fn plan_lines(steps: Seq<Seq<char>>) -> Seq<SpanView> {
    if steps.len() == 0 {
        Seq::empty()
    } else {
        seq![report::plain("│\n│ Recommended Action Plan:\n"@)] + numbered_lines(steps)
    }
}

/// One diagnosis of the report.
pub open spec fn diagnosis_lines(number: nat, result: InvestigationResultView) -> Seq<SpanView> {
    diagnosis_heading(number, result) + chain_lines(
        result.causal_chain.nodes,
        result.causal_chain.nodes.len(),
    ) + titled_list(
        "│ Evidence Measured:\n"@,
        result.evidence_basis,
        "│   • "@,
        Style::Plain,
    ) + module_lines(result) + titled_list(
        "│ Culprit Query Digests:\n"@,
        result.culprit_queries,
        "│   • "@,
        Style::Dimmed,
    ) + plan_lines(result.remediation_steps) + titled_list(
        "│\n│ Verification Commands:\n"@,
        result.verification_commands,
        "│   $ "@,
        Style::Cyan,
    ) + seq![report::plain(BOX_BOTTOM@)]
}

fn write_diagnosis_heading(number: u64, result: &InvestigationResult) -> (r: Vec<Span>)
    ensures
        report::span_views(r@) == diagnosis_heading(number as nat, result@),
{
    let mut out: Vec<Span> = Vec::new();
    put(&mut out, BOX_TOP);
    let mark = "│ [ROOT CAUSE #".to_owned().concat(num(number).as_str()).concat("] ");
    put(&mut out, &mark);
    put_styled(&mut out, &result.title, Style::Bold);
    put(&mut out, "\n│ ");
    put_span(&mut out, badge_of_confidence(result.confidence));
    put(&mut out, " | ");
    put_span(&mut out, badge_of_impact(result.impact_score));
    put(&mut out, "\n");
    put(&mut out, BOX_MIDDLE);
    let summary = "│ Summary:\n│   ".to_owned().concat(result.summary.as_str()).concat("\n│\n");
    put(&mut out, &summary);
    put(&mut out, "│ Causal Chain (Observed Symptom ➔ Culprit):\n");
    assert(report::span_views(out@) =~= diagnosis_heading(number as nat, result@));
    out
}

pub(crate) fn write_titled_list(title: &str, items: &Vec<String>, before: &str, style: Style) -> (r: Vec<Span>)
    ensures
        report::span_views(r@) == titled_list(title@, text::texts(items@), before@, style),
{
    let mut out: Vec<Span> = Vec::new();
    if items.len() > 0 {
        put(&mut out, title);
        put_all(&mut out, write_list(items, before, style));
    }
    assert(report::span_views(out@) =~= titled_list(title@, text::texts(items@), before@, style));
    out
}

fn write_modules(result: &InvestigationResult) -> (r: Vec<Span>)
    ensures
        report::span_views(r@) == module_lines(result@),
{
    let mut out: Vec<Span> = Vec::new();
    if result.culprit_modules.len() > 0 {
        put(&mut out, "│\n│ Implicated Modules: ");
        put_styled(&mut out, &join(&result.culprit_modules, ", "), Style::BoldCyan);
        put(&mut out, "\n");
    } else if result.evidence_basis.len() > 0 {
        put(&mut out, "│\n");
    }
    assert(report::span_views(out@) =~= module_lines(result@));
    out
}

fn write_plan(steps: &Vec<String>) -> (r: Vec<Span>)
    ensures
        report::span_views(r@) == plan_lines(text::texts(steps@)),
{
    let mut out: Vec<Span> = Vec::new();
    if steps.len() > 0 {
        put(&mut out, "│\n│ Recommended Action Plan:\n");
        put_all(&mut out, write_numbered(steps));
    }
    assert(report::span_views(out@) =~= plan_lines(text::texts(steps@)));
    out
}

fn write_diagnosis(number: u64, result: &InvestigationResult) -> (r: Vec<Span>)
    ensures
        report::span_views(r@) == diagnosis_lines(number as nat, result@),
{
    let mut out = write_diagnosis_heading(number, result);
    put_all(&mut out, write_chain(&result.causal_chain));
    put_all(
        &mut out,
        write_titled_list(
            "│ Evidence Measured:\n",
            &result.evidence_basis,
            "│   • ",
            Style::Plain,
        ),
    );
    put_all(&mut out, write_modules(result));
    put_all(
        &mut out,
        write_titled_list(
            "│ Culprit Query Digests:\n",
            &result.culprit_queries,
            "│   • ",
            Style::Dimmed,
        ),
    );
    put_all(&mut out, write_plan(&result.remediation_steps));
    put_all(
        &mut out,
        write_titled_list(
            "│\n│ Verification Commands:\n",
            &result.verification_commands,
            "│   $ ",
            Style::Cyan,
        ),
    );
    put(&mut out, BOX_BOTTOM);
    assert(report::span_views(out@) =~= diagnosis_lines(number as nat, result@));
    out
}

/// The diagnoses of the report, numbered from one.
pub open spec fn all_lines(results: Seq<InvestigationResultView>) -> Seq<SpanView>
    decreases results.len(),
{
    if results.len() == 0 {
        Seq::empty()
    } else {
        all_lines(results.drop_last()) + diagnosis_lines(results.len(), results.last())
    }
}

/// The report on diagnoses.
pub open spec fn investigation_spans(
    results: Seq<InvestigationResultView>,
    symptom: Option<Seq<char>>,
) -> Seq<SpanView> {
    if results.len() == 0 {
        heading(symptom) + seq![
            report::styled(NOTHING_FOUND@, Style::BoldGreen),
            report::plain("\n\n"@),
            report::plain(NOTHING_FOUND_SCOPE@),
        ]
    } else {
        heading(symptom) + seq![
            report::plain("Discovered "@),
            report::styled(number::dec(results.len()), Style::Bold),
            report::plain(" potential root-cause failure pattern(s) ranked by impact:\n\n"@),
        ] + all_lines(results)
    }
}

/// Writes the report detailing diagnoses and their causal chains.
pub fn report_investigation(results: &[InvestigationResult], symptom: Option<&str>) -> (r: Vec<
    Span,
>)
    ensures
        report::span_views(r@) == investigation_spans(causal::result_views(results@), text::str_opt(symptom)),
{
    let ghost all = causal::result_views(results@);
    let n: usize = results.len();
    let mut out = write_heading(symptom);
    if n == 0 {
        put_styled(&mut out, NOTHING_FOUND, Style::BoldGreen);
        put(&mut out, "\n\n");
        put(&mut out, NOTHING_FOUND_SCOPE);
        assert(report::span_views(out@) =~= investigation_spans(all, text::str_opt(symptom)));
        return out;
    }
    put(&mut out, "Discovered ");
    put_styled(&mut out, &num(n as u64), Style::Bold);
    put(&mut out, " potential root-cause failure pattern(s) ranked by impact:\n\n");
    let ghost first = report::span_views(out@);
    let mut i: usize = 0;
    assert(report::span_views(out@) =~= first + all_lines(all.take(0)));
    while i < n
        invariant
            i <= n,
            n == results@.len(),
            all == causal::result_views(results@),
            report::span_views(out@) == first + all_lines(all.take(i as int)),
        decreases n - i,
    {
        assert(all.take(i + 1).drop_last() =~= all.take(i as int));
        assert(all.take(i + 1).last() == results@[i as int]@);
        put_all(&mut out, write_diagnosis((i + 1) as u64, &results[i]));
        assert(report::span_views(out@) =~= first + all_lines(all.take(i + 1)));
        i += 1;
    }
    assert(all.take(i as int) =~= all);
    assert(report::span_views(out@) =~= investigation_spans(all, text::str_opt(symptom)));
    out
}

/// Renders a terminal report detailing synthesized root-cause diagnoses and causal chains.
pub fn render_investigate_terminal(results: &[InvestigationResult], symptom: Option<&str>) -> (r:
    String)
    ensures
        report::is_rendering(
            investigation_spans(causal::result_views(results@), text::str_opt(symptom)),
            r@,
        ),
{
    render(&report_investigation(results, symptom))
}

/// Every diagnosis is in the report, under its number, in full.
pub proof fn law_report_holds_every_diagnosis(results: Seq<InvestigationResultView>, i: int)
    requires
        0 <= i < results.len(),
    ensures
        exists|before: Seq<SpanView>, after: Seq<SpanView>|
            all_lines(results) == #[trigger] (before + diagnosis_lines(
                (i + 1) as nat,
                results[i],
            ) + after),
    decreases results.len(),
{
    let init = results.drop_last();
    let lines = diagnosis_lines((i + 1) as nat, results[i]);
    if i == results.len() - 1 {
        assert(all_lines(results) =~= all_lines(init) + lines + Seq::<SpanView>::empty());
    } else {
        law_report_holds_every_diagnosis(init, i);
        let (before, after) = choose|before: Seq<SpanView>, after: Seq<SpanView>|
            all_lines(init) == #[trigger] (before + lines + after);
        assert(all_lines(results) =~= before + lines + (after + diagnosis_lines(
            results.len(),
            results.last(),
        )));
    }
}

/// The columns of a causal chain align: a subsystem takes at least its width.
pub proof fn law_subsystem_column(s: Seq<char>, width: nat)
    ensures
        padded(s, width).len() == if s.len() > width {
            s.len()
        } else {
            width
        },
        padded(s, width).take(s.len() as int) == s,
{
    assert(padded(s, width).take(s.len() as int) =~= s);
}

/// The badge of an impact says critical from 90 on, high from 70 on, and moderate below.
pub proof fn law_impact_badge(score: u32)
    ensures
        ({
            let b = impact_badge(score);
            let shown = "IMPACT: "@ + number::dec(score as nat);
            &&& score >= 90 ==> b.style == Style::BoldRed && b.text == shown + "/100 (CRITICAL)"@
            &&& 70 <= score < 90 ==> b.style == Style::BoldYellow && b.text == shown
                + "/100 (HIGH)"@
            &&& score < 70 ==> b.style == Style::Cyan && b.text == shown + "/100 (MODERATE)"@
        }),
{
}

/// The badge of a confidence says which it is.
pub proof fn law_confidence_badge(confidence: Confidence)
    ensures
        confidence_badge(confidence).text == match confidence {
            Confidence::High => "HIGH CONFIDENCE"@,
            Confidence::Medium => "MEDIUM CONFIDENCE"@,
            Confidence::Low => "LOW CONFIDENCE"@,
        },
{
}

proof fn lemma_list_lines(items: Seq<Seq<char>>, before: Seq<char>, style: Style, i: int)
    requires
        0 <= i < items.len(),
    ensures
        list_lines(items, before, style).len() == 3 * items.len(),
        list_lines(items, before, style)[3 * i] == report::plain(before),
        list_lines(items, before, style)[3 * i + 1] == report::styled(items[i], style),
    decreases items.len(),
{
    let init = items.drop_last();
    if items.len() > 1 {
        lemma_list_lines(
            init,
            before,
            style,
            if i < init.len() {
                i
            } else {
                0
            },
        );
    } else {
        assert(list_lines(init, before, style).len() == 0);
    }
}

/// A list has a title where it holds anything, and each item has its line, in order.
pub proof fn law_lists_are_whole(
    title: Seq<char>,
    items: Seq<Seq<char>>,
    before: Seq<char>,
    style: Style,
    i: int,
)
    requires
        0 <= i < items.len(),
    ensures
        ({
            let lines = titled_list(title, items, before, style);
            &&& lines.len() == 1 + 3 * items.len()
            &&& lines[0] == report::plain(title)
            &&& lines[1 + 3 * i].text == before
            &&& lines[2 + 3 * i].text == items[i]
        }),
{
    lemma_list_lines(items, before, style, i);
}

proof fn lemma_numbered_lines(items: Seq<Seq<char>>, i: int)
    requires
        0 <= i < items.len(),
    ensures
        numbered_lines(items).len() == 3 * items.len(),
        numbered_lines(items)[3 * i].text == "│   "@ + number::dec((i + 1) as nat) + ". "@,
        numbered_lines(items)[3 * i + 1].text == items[i],
    decreases items.len(),
{
    let init = items.drop_last();
    if items.len() > 1 {
        lemma_numbered_lines(
            init,
            if i < init.len() {
                i
            } else {
                0
            },
        );
    } else {
        assert(numbered_lines(init).len() == 0);
    }
}

/// The steps of the plan are numbered from one on, in order.
pub proof fn law_plan_is_numbered(steps: Seq<Seq<char>>, i: int)
    requires
        0 <= i < steps.len(),
    ensures
        plan_lines(steps).len() == 1 + 3 * steps.len(),
        plan_lines(steps)[1 + 3 * i].text == "│   "@ + number::dec((i + 1) as nat) + ". "@,
        plan_lines(steps)[2 + 3 * i].text == steps[i],
{
    lemma_numbered_lines(steps, i);
}

/// A step of a chain shows its kind, its subsystem and what happened, then its metric where it
/// has one, and an arrow unless it is the last.
pub proof fn law_chain_step(node: CausalNodeView, is_last: bool)
    ensures
        ({
            let line = step_line(node, is_last);
            &&& line.len() == 7 + (if node.metric is Some {
                3int
            } else {
                0
            }) + (if is_last {
                0int
            } else {
                1
            })
            &&& line[1].text == match node.node_type {
                CausalNodeType::Symptom => "[Symptom]  "@,
                CausalNodeType::Mechanism => "[Mechanism]"@,
                CausalNodeType::Trigger => "[Trigger]  "@,
                CausalNodeType::Culprit => "[Culprit]  "@,
            }
            &&& line[3].text.len() >= 15 && line[3].text.take(node.subsystem.len() as int)
                == node.subsystem
            &&& line[5].text == node.description
            &&& node.metric matches Some(m) ==> line[7].text == m
            &&& !is_last ==> line.last().text == "│        ⬇\n"@
        }),
{
    law_subsystem_column(node.subsystem, 15);
}

/// A report without a diagnosis says so, and one with any gives their number.
pub proof fn law_report_counts(
    results: Seq<InvestigationResultView>,
    symptom: Option<Seq<char>>,
)
    ensures
        ({
            let spans = investigation_spans(results, symptom);
            let n = heading(symptom).len() as int;
            &&& results.len() == 0 ==> spans.len() == n + 3 && spans[n].text
                == "✓ No critical root-cause bottlenecks identified for this query!"@
            &&& results.len() > 0 ==> spans[n + 1].text == number::dec(results.len())
                && spans.skip(n + 3) == all_lines(results)
            &&& symptom matches Some(s) ==> heading(symptom)[4].text == s
        }),
{
    let spans = investigation_spans(results, symptom);
    let n = heading(symptom).len() as int;
    if results.len() > 0 {
        assert(spans.skip(n + 3) =~= all_lines(results));
    }
}

} // verus!
