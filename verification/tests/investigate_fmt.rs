//! The terminal report of diagnoses.

use mdoctor::causal::{CausalChain, CausalNode, CausalNodeType, InvestigationResult};
use mdoctor::finding::Confidence;
use mdoctor::investigate_fmt::{pad, render_investigate_terminal, report_investigation};
use mdoctor::report::{Span, Style};

fn bare(spans: &[Span]) -> String {
    spans.iter().map(|s| s.text.as_str()).collect()
}

fn result() -> InvestigationResult {
    let mut chain = CausalChain::new("Test");
    chain.add_node(CausalNode::new(CausalNodeType::Symptom, "MySQL", "Lock wait"));
    chain.add_node(CausalNode::new(CausalNodeType::Culprit, "Vendor_Test", "Missing index"));

    InvestigationResult {
        target: "test".to_string(),
        title: "Test Bottleneck".to_string(),
        confidence: Confidence::High,
        impact_score: 95,
        summary: "Test summary description".to_string(),
        evidence_basis: vec!["Measured signal A".to_string(), "Measured signal B".to_string()],
        causal_chain: chain,
        culprit_modules: vec!["Vendor_Test".to_string()],
        culprit_queries: vec!["SELECT * FROM test".to_string()],
        remediation_steps: vec!["Add index".to_string()],
        verification_commands: vec!["EXPLAIN test".to_string()],
    }
}

#[test]
fn test_render_investigate_terminal() {
    let output = render_investigate_terminal(&[result()], Some("slow"));
    assert!(output.contains("Test Bottleneck"));
    assert!(output.contains("Vendor_Test"));
    assert!(output.contains("[Culprit]"));
    assert!(output.contains("Evidence Measured"));
    assert!(output.contains("Measured signal A"));
}

#[test]
fn a_diagnosis_is_reported_in_full() {
    let text = bare(&report_investigation(&[result()], Some("slow")));
    let edge = "─".repeat(78);
    let expected = format!(
        "\n═══ MAGENTO DOCTOR: ROOT CAUSE INVESTIGATION ═══\n\
         Focused symptom query: slow\n\n\
         Discovered 1 potential root-cause failure pattern(s) ranked by impact:\n\n\
         ┌{edge}┐\n\
         │ [ROOT CAUSE #1] Test Bottleneck\n\
         │ HIGH CONFIDENCE | IMPACT: 95/100 (CRITICAL)\n\
         ├{edge}┤\n\
         │ Summary:\n│   Test summary description\n│\n\
         │ Causal Chain (Observed Symptom ➔ Culprit):\n\
         │   [Symptom]   MySQL           Lock wait\n\
         │        ⬇\n\
         │   [Culprit]   Vendor_Test     Missing index\n\
         │ Evidence Measured:\n\
         │   • Measured signal A\n\
         │   • Measured signal B\n\
         │\n│ Implicated Modules: Vendor_Test\n\
         │ Culprit Query Digests:\n\
         │   • SELECT * FROM test\n\
         │\n│ Recommended Action Plan:\n\
         │   1. Add index\n\
         │\n│ Verification Commands:\n\
         │   $ EXPLAIN test\n\
         └{edge}┘\n\n"
    );
    assert_eq!(text, expected);
}

#[test]
fn impact_and_confidence_have_their_colours() {
    let style_of = |score: u32, confidence: Confidence, text: &str| {
        let mut r = result();
        r.impact_score = score;
        r.confidence = confidence;
        let spans = report_investigation(&[r], None);
        let found = spans.iter().find(|s| s.text.starts_with(text)).unwrap();
        (found.text.clone(), found.style)
    };
    assert_eq!(
        style_of(90, Confidence::High, "IMPACT"),
        ("IMPACT: 90/100 (CRITICAL)".to_string(), Style::BoldRed)
    );
    assert_eq!(
        style_of(89, Confidence::High, "IMPACT"),
        ("IMPACT: 89/100 (HIGH)".to_string(), Style::BoldYellow)
    );
    assert_eq!(
        style_of(69, Confidence::High, "IMPACT"),
        ("IMPACT: 69/100 (MODERATE)".to_string(), Style::Cyan)
    );
    assert_eq!(style_of(1, Confidence::Low, "LOW").1, Style::White);
    assert_eq!(style_of(1, Confidence::Medium, "MEDIUM").1, Style::BoldYellow);
}

#[test]
fn no_diagnosis_is_good_news() {
    let text = bare(&report_investigation(&[], None));
    assert!(text.contains("Multi-dimensional root-cause correlation"));
    assert!(text.contains("✓ No critical root-cause bottlenecks identified for this query!"));
    assert!(text.ends_with("are within operational thresholds.\n"));
}

#[test]
fn subsystems_are_padded_to_their_column() {
    assert_eq!(pad("MySQL", 15), "MySQL          ");
    assert_eq!(pad("PHP-FPM", 3), "PHP-FPM");
    assert_eq!(pad("über", 6), "über  ");
}
