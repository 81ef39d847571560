//! How runs end: exit codes, the files they write, and what they say about it.

use crate::finding::Severity;
use crate::report::{self, put, put_all, put_styled, Span, SpanView, Style};
use crate::text;
use vstd::prelude::*;
use vstd::string::*;

verus! {

/// Where a baseline goes when no file is named.
pub const BASELINE_FILE: &'static str = "mdoctor-baseline.json";

/// What a saved snapshot may be used for.
pub const SNAPSHOT_NOTE: &'static str =
    "Secrets were strictly sanitized. This file is safe to attach to GitHub or support tickets.\n\n";

/// What a saved baseline is for.
pub const BASELINE_NOTE: &'static str =
    "Store configuration, modules, and diagnostic findings were recorded for drift comparison.\n\n";

/// What is to be known of a rule.
#[derive(Debug, Clone)]
pub struct RuleExplanation {
    pub rule_id: String,
    pub title: String,
    pub what: String,
    pub why_affected: String,
    pub detection_mechanism: String,
    pub false_positives: String,
    pub verification: String,
    pub remediation: String,
}

/// What a [`RuleExplanation`] holds.
#[verifier::ext_equal]
pub struct RuleExplanationView {
    pub rule_id: Seq<char>,
    pub title: Seq<char>,
    pub what: Seq<char>,
    pub why_affected: Seq<char>,
    pub detection_mechanism: Seq<char>,
    pub false_positives: Seq<char>,
    pub verification: Seq<char>,
    pub remediation: Seq<char>,
}

impl View for RuleExplanation {
    type V = RuleExplanationView;

    open spec fn view(&self) -> RuleExplanationView {
        RuleExplanationView {
            rule_id: self.rule_id@,
            title: self.title@,
            what: self.what@,
            why_affected: self.why_affected@,
            detection_mechanism: self.detection_mechanism@,
            false_positives: self.false_positives@,
            verification: self.verification@,
            remediation: self.remediation@,
        }
    }
}

/// Whether a module can be uninstalled.
#[derive(Debug, Clone, Copy, PartialEq, Eq, Structural)]
pub enum UninstallSafety {
    Safe,
    Caution,
    Blocked,
}

/// The exit code of a comparison with a baseline: 2 when a critical finding is new, 1 when
/// anything got worse, 0 otherwise.
pub open spec fn drift_code(has_regressions: bool, worst: Option<Severity>) -> u8 {
    if !has_regressions {
        0
    } else if worst == Some(Severity::Critical) {
        2
    } else {
        1
    }
}

/// The exit code of a comparison with a baseline.
pub fn drift_exit_code(has_regressions: bool, worst: Option<Severity>) -> (r: u8)
    ensures
        r == drift_code(has_regressions, worst),
{
    if !has_regressions {
        return 0;
    }
    match worst {
        Some(Severity::Critical) => 2,
        _ => 1,
    }
}

/// The exit code of an uninstall analysis: 1 when other modules are in the way.
pub fn uninstall_exit_code(safety: UninstallSafety) -> (r: u8)
    ensures
        r == if safety == UninstallSafety::Blocked {
            1u8
        } else {
            0u8
        },
{
    match safety {
        UninstallSafety::Blocked => 1,
        _ => 0,
    }
}

/// The file that a baseline goes to.
pub fn baseline_path(output: Option<&str>) -> (r: String)
    ensures
        r@ == text::text_or(text::str_opt(output), BASELINE_FILE@),
{
    match output {
        Some(path) => path.to_owned(),
        None => BASELINE_FILE.to_owned(),
    }
}

/// The file that a snapshot goes to: the one named, or one named after the time of the run.
pub fn snapshot_path(output: Option<&str>, timestamp: &str) -> (r: String)
    ensures
        r@ == text::text_or(
            text::str_opt(output),
            "mdoctor-snapshot-"@ + timestamp@ + ".mdoctor"@,
        ),
{
    match output {
        Some(path) => path.to_owned(),
        None => "mdoctor-snapshot-".to_owned().concat(timestamp).concat(".mdoctor"),
    }
}

/// What is said of a file that was saved.
pub open spec fn saved(subject: Seq<char>, path: Seq<char>, about: Seq<char>) -> Seq<SpanView> {
    seq![
        report::plain("\n"@),
        report::styled("✓"@, Style::BoldGreen),
        report::plain(" "@ + subject + " snapshot saved safely to '"@),
        report::styled(path, Style::Cyan),
        report::plain("'.\n"@),
        report::plain(about),
    ]
}

fn write_saved(subject: &str, path: &str, about: &str) -> (r: Vec<Span>)
    ensures
        report::span_views(r@) == saved(subject@, path@, about@),
{
    let mut out: Vec<Span> = Vec::new();
    put(&mut out, "\n");
    put_styled(&mut out, "✓", Style::BoldGreen);
    put(&mut out, &" ".to_owned().concat(subject).concat(" snapshot saved safely to '"));
    put_styled(&mut out, path, Style::Cyan);
    put(&mut out, "'.\n");
    put(&mut out, about);
    assert(report::span_views(out@) =~= saved(subject@, path@, about@));
    out
}

/// Writes that a snapshot was saved.
pub fn write_snapshot_saved(path: &str) -> (r: Vec<Span>)
    ensures
        report::span_views(r@) == saved("Diagnostic"@, path@, SNAPSHOT_NOTE@),
{
    write_saved("Diagnostic", path, SNAPSHOT_NOTE)
}

/// Writes that a baseline was saved.
pub fn write_baseline_saved(path: &str) -> (r: Vec<Span>)
    ensures
        report::span_views(r@) == saved("Baseline"@, path@, BASELINE_NOTE@),
{
    write_saved("Baseline", path, BASELINE_NOTE)
}

/// The complaint that a module is not installed.
pub fn module_not_found(name: &str) -> (r: String)
    ensures
        r@ == "Module '"@ + name@ + "' not found in this installation."@,
{
    "Module '".to_owned().concat(name).concat("' not found in this installation.")
}

/// The complaint that a rule is not known.
pub fn rule_not_explained(rule_id: &str) -> (r: String)
    ensures
        r@ == "No detailed explanation found for rule ID '"@ + rule_id@ + "'."@,
{
    "No detailed explanation found for rule ID '".to_owned().concat(rule_id).concat("'.")
}

/// One section of an explanation.
pub open spec fn section(title: Seq<char>, text: Seq<char>, style: Style) -> Seq<SpanView> {
    seq![
        report::styled(title, Style::BoldUnderline),
        report::plain("\n"@),
        report::styled(text, style),
        report::plain("\n\n"@),
    ]
}

/// The explanation of a rule.
pub open spec fn explanation(e: RuleExplanationView) -> Seq<SpanView> {
    seq![
        report::plain("\n"@),
        report::styled(e.title, Style::BoldCyan),
        report::plain(" ["@ + e.rule_id + "]\n\n"@),
    ] + section("WHAT IS THIS?"@, e.what, Style::Plain) + section(
        "WHY DOES IT MATTER?"@,
        e.why_affected,
        Style::Plain,
    ) + section("HOW DETECTION WORKS"@, e.detection_mechanism, Style::Plain) + section(
        "POTENTIAL FALSE POSITIVES"@,
        e.false_positives,
        Style::Plain,
    ) + section("MANUAL VERIFICATION"@, e.verification, Style::Cyan) + section(
        "REMEDIATION"@,
        e.remediation,
        Style::Green,
    )
}

fn write_section(title: &str, text: &str, style: Style) -> (r: Vec<Span>)
    ensures
        report::span_views(r@) == section(title@, text@, style),
{
    let mut out: Vec<Span> = Vec::new();
    put_styled(&mut out, title, Style::BoldUnderline);
    put(&mut out, "\n");
    put_styled(&mut out, text, style);
    put(&mut out, "\n\n");
    assert(report::span_views(out@) =~= section(title@, text@, style));
    out
}

/// Writes the explanation of a rule.
pub fn write_explanation(e: &RuleExplanation) -> (r: Vec<Span>)
    ensures
        report::span_views(r@) == explanation(e@),
{
    let mut out: Vec<Span> = Vec::new();
    put(&mut out, "\n");
    put_styled(&mut out, &e.title, Style::BoldCyan);
    put(&mut out, &" [".to_owned().concat(e.rule_id.as_str()).concat("]\n\n"));
    put_all(&mut out, write_section("WHAT IS THIS?", &e.what, Style::Plain));
    put_all(&mut out, write_section("WHY DOES IT MATTER?", &e.why_affected, Style::Plain));
    put_all(&mut out, write_section("HOW DETECTION WORKS", &e.detection_mechanism, Style::Plain));
    put_all(&mut out, write_section("POTENTIAL FALSE POSITIVES", &e.false_positives, Style::Plain));
    put_all(&mut out, write_section("MANUAL VERIFICATION", &e.verification, Style::Cyan));
    put_all(&mut out, write_section("REMEDIATION", &e.remediation, Style::Green));
    assert(report::span_views(out@) =~= explanation(e@));
    out
}

/// A comparison ends in zero without regressions, in two where the worst is critical, and in
/// one otherwise.
pub proof fn law_drift_exit_code(has_regressions: bool, worst: Option<Severity>)
    ensures
        drift_code(has_regressions, worst) == 0 <==> !has_regressions,
        drift_code(has_regressions, worst) == 2 <==> has_regressions && worst == Some(
            Severity::Critical,
        ),
        drift_code(has_regressions, worst) <= 2,
{
}

} // verus!
