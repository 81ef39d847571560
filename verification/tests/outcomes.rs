//! How runs end.

use mdoctor::finding::Severity;
use mdoctor::outcomes::{
    baseline_path, drift_exit_code, module_not_found, rule_not_explained, snapshot_path,
    uninstall_exit_code, write_baseline_saved, write_explanation, write_snapshot_saved,
    RuleExplanation, UninstallSafety,
};
use mdoctor::report::{paint, Span, Style};

fn bare(spans: &[Span]) -> String {
    spans.iter().map(|s| s.text.as_str()).collect()
}

#[test]
fn drift_is_graded() {
    assert_eq!(drift_exit_code(false, Some(Severity::Critical)), 0);
    assert_eq!(drift_exit_code(true, Some(Severity::Critical)), 2);
    assert_eq!(drift_exit_code(true, Some(Severity::Warning)), 1);
    assert_eq!(drift_exit_code(true, None), 1);
}

#[test]
fn a_blocked_uninstall_fails() {
    assert_eq!(uninstall_exit_code(UninstallSafety::Blocked), 1);
    assert_eq!(uninstall_exit_code(UninstallSafety::Caution), 0);
    assert_eq!(uninstall_exit_code(UninstallSafety::Safe), 0);
}

#[test]
fn files_have_their_places() {
    assert_eq!(baseline_path(None), "mdoctor-baseline.json");
    assert_eq!(baseline_path(Some("b.json")), "b.json");
    assert_eq!(snapshot_path(None, "20260912_101500"), "mdoctor-snapshot-20260912_101500.mdoctor");
    assert_eq!(snapshot_path(Some("s.mdoctor"), "x"), "s.mdoctor");
    assert!(bare(&write_snapshot_saved("s.mdoctor"))
        .starts_with("\n✓ Diagnostic snapshot saved safely to 's.mdoctor'.\nSecrets were strictly"));
    assert!(bare(&write_baseline_saved("b.json"))
        .starts_with("\n✓ Baseline snapshot saved safely to 'b.json'.\nStore configuration"));
}

#[test]
fn complaints_name_what_is_missing() {
    assert_eq!(module_not_found("A_B"), "Module 'A_B' not found in this installation.");
    assert_eq!(
        rule_not_explained("MD-X"),
        "No detailed explanation found for rule ID 'MD-X'."
    );
}

#[test]
fn an_explanation_has_its_sections() {
    let e = RuleExplanation {
        rule_id: "MD-X-1".into(),
        title: "Title".into(),
        what: "a".into(),
        why_affected: "b".into(),
        detection_mechanism: "c".into(),
        false_positives: "d".into(),
        verification: "e".into(),
        remediation: "f".into(),
    };
    let spans = write_explanation(&e);
    assert_eq!(
        bare(&spans),
        "\nTitle [MD-X-1]\n\nWHAT IS THIS?\na\n\nWHY DOES IT MATTER?\nb\n\nHOW DETECTION WORKS\nc\n\n\
         POTENTIAL FALSE POSITIVES\nd\n\nMANUAL VERIFICATION\ne\n\nREMEDIATION\nf\n\n"
    );
    colored::control::set_override(true);
    let heading = spans.iter().find(|s| s.style == Style::BoldUnderline).unwrap();
    assert_eq!(paint(heading), "\u{1b}[1;4mWHAT IS THIS?\u{1b}[0m");
}
