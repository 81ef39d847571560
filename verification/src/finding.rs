//! Diagnostic findings that the rules raise.

use crate::text;
use vstd::prelude::*;
use vstd::string::*;

verus! {

/// How much a finding matters.
#[derive(Debug, Clone, Copy, PartialEq, Eq, Structural)]
pub enum Severity {
    Info,
    Warning,
    Critical,
}

/// How well a diagnosis is supported.
#[derive(Debug, Clone, Copy, PartialEq, Eq, Structural)]
pub enum Confidence {
    Low,
    Medium,
    High,
}

/// The part of the store that a finding is about.
#[derive(Debug, Clone, Copy, PartialEq, Eq, Structural)]
pub enum Category {
    Queries,
    Database,
    Cache,
    Php,
    Search,
}

/// One finding of one rule.
#[derive(Debug, Clone)]
pub struct Finding {
    pub rule_id: String,
    pub title: String,
    pub severity: Severity,
    pub confidence: Confidence,
    pub category: Category,
    pub summary: String,
    pub evidence: Vec<String>,
    pub related_modules: Vec<String>,
    pub related_tables: Vec<String>,
    pub related_files: Vec<String>,
    pub impact: String,
    pub recommendation: String,
    pub verification_commands: Vec<String>,
}

/// What a [`Finding`] holds.
#[verifier::ext_equal]
pub struct FindingView {
    pub rule_id: Seq<char>,
    pub title: Seq<char>,
    pub severity: Severity,
    pub confidence: Confidence,
    pub category: Category,
    pub summary: Seq<char>,
    pub evidence: Seq<Seq<char>>,
    pub related_modules: Seq<Seq<char>>,
    pub related_tables: Seq<Seq<char>>,
    pub related_files: Seq<Seq<char>>,
    pub impact: Seq<char>,
    pub recommendation: Seq<char>,
    pub verification_commands: Seq<Seq<char>>,
}

impl View for Finding {
    type V = FindingView;

    open spec fn view(&self) -> FindingView {
        FindingView {
            rule_id: self.rule_id@,
            title: self.title@,
            severity: self.severity,
            confidence: self.confidence,
            category: self.category,
            summary: self.summary@,
            evidence: text::texts(self.evidence@),
            related_modules: text::texts(self.related_modules@),
            related_tables: text::texts(self.related_tables@),
            related_files: text::texts(self.related_files@),
            impact: self.impact@,
            recommendation: self.recommendation@,
            verification_commands: text::texts(self.verification_commands@),
        }
    }
}

impl FindingView {
    /// A finding of which only the heading is filled in.
    pub open spec fn heading(
        rule_id: Seq<char>,
        title: Seq<char>,
        severity: Severity,
        confidence: Confidence,
        category: Category,
    ) -> FindingView {
        FindingView {
            rule_id,
            title,
            severity,
            confidence,
            category,
            summary: Seq::empty(),
            evidence: Seq::empty(),
            related_modules: Seq::empty(),
            related_tables: Seq::empty(),
            related_files: Seq::empty(),
            impact: Seq::empty(),
            recommendation: Seq::empty(),
            verification_commands: Seq::empty(),
        }
    }

    pub open spec fn with_evidence(self, line: Seq<char>) -> FindingView {
        FindingView { evidence: self.evidence.push(line), ..self }
    }

    /// Evidence that is there only when `value` is: a label and the value.
    pub open spec fn with_labelled(self, label: Seq<char>, value: Option<Seq<char>>) -> FindingView {
        match value {
            Some(v) => self.with_evidence(label + v),
            None => self,
        }
    }

    pub open spec fn with_command(self, line: Seq<char>) -> FindingView {
        FindingView { verification_commands: self.verification_commands.push(line), ..self }
    }

    pub open spec fn with_advice(
        self,
        impact: Seq<char>,
        recommendation: Seq<char>,
    ) -> FindingView {
        FindingView { impact, recommendation, ..self }
    }

    pub open spec fn with_summary(self, summary: Seq<char>) -> FindingView {
        FindingView { summary, ..self }
    }
}

impl Finding {
    /// A finding of which only the heading is filled in.
    pub fn new(
        rule_id: &str,
        title: &str,
        severity: Severity,
        confidence: Confidence,
        category: Category,
    ) -> (r: Finding)
        ensures
            r@ == FindingView::heading(rule_id@, title@, severity, confidence, category),
    {
        broadcast use text::lemma_texts_empty;

        Finding {
            rule_id: rule_id.to_owned(),
            title: title.to_owned(),
            severity,
            confidence,
            category,
            summary: String::new(),
            evidence: Vec::new(),
            related_modules: Vec::new(),
            related_tables: Vec::new(),
            related_files: Vec::new(),
            impact: String::new(),
            recommendation: String::new(),
            verification_commands: Vec::new(),
        }
    }

    pub fn add_evidence(&mut self, line: String)
        ensures
            final(self)@ == old(self)@.with_evidence(line@),
    {
        broadcast use text::lemma_texts_push;

        self.evidence.push(line);
    }

    pub fn add_labelled(&mut self, label: &str, value: &Option<String>)
        ensures
            final(self)@ == old(self)@.with_labelled(label@, text::text_opt(*value)),
    {
        if let Some(v) = value {
            self.add_evidence(label.to_owned().concat(v.as_str()));
        }
    }

    pub fn add_command(&mut self, line: &str)
        ensures
            final(self)@ == old(self)@.with_command(line@),
    {
        broadcast use text::lemma_texts_push;

        self.verification_commands.push(line.to_owned());
    }

    pub fn advise(&mut self, impact: &str, recommendation: &str)
        ensures
            final(self)@ == old(self)@.with_advice(impact@, recommendation@),
    {
        self.impact = impact.to_owned();
        self.recommendation = recommendation.to_owned();
    }

    pub fn summarise(&mut self, summary: String)
        ensures
            final(self)@ == old(self)@.with_summary(summary@),
    {
        self.summary = summary;
    }
}

/// What a list of findings holds.
pub open spec fn finding_views(s: Seq<Finding>) -> Seq<FindingView> {
    Seq::new(s.len(), |i: int| s[i]@)
}

pub broadcast proof fn lemma_findings_push(s: Seq<Finding>, f: Finding)
    ensures
        #[trigger] finding_views(s.push(f)) == finding_views(s).push(f@),
{
    assert(finding_views(s.push(f)) =~= finding_views(s).push(f@));
}

pub broadcast proof fn lemma_findings_empty(s: Seq<Finding>)
    requires
        s.len() == 0,
    ensures
        #[trigger] finding_views(s) == Seq::<FindingView>::empty(),
{
    assert(finding_views(s) =~= Seq::<FindingView>::empty());
}

pub broadcast proof fn lemma_findings_add(a: Seq<Finding>, b: Seq<Finding>)
    ensures
        #[trigger] finding_views(a + b) == finding_views(a) + finding_views(b),
{
    assert(finding_views(a + b) =~= finding_views(a) + finding_views(b));
}

/// Whether a finding of a severity is among the findings.
pub open spec fn any_severity(findings: Seq<FindingView>, severity: Severity) -> bool {
    exists|i: int| 0 <= i < findings.len() && findings[i].severity == severity
}

fn has_severity(findings: &Vec<Finding>, severity: Severity) -> (r: bool)
    ensures
        r == any_severity(finding_views(findings@), severity),
{
    let mut i: usize = 0;
    while i < findings.len()
        invariant
            i <= findings@.len(),
            forall|k: int| 0 <= k < i ==> findings@[k].severity != severity,
        decreases findings@.len() - i,
    {
        if findings[i].severity == severity {
            assert(finding_views(findings@)[i as int].severity == severity);
            return true;
        }
        i += 1;
    }
    assert(forall|k: int|
        0 <= k < findings@.len() ==> (#[trigger] finding_views(findings@)[k]).severity
            == findings@[k].severity);
    false
}

/// The exit code of a scan: two with a critical finding, one with a warning, else zero.
pub open spec fn scan_code(findings: Seq<FindingView>) -> u8 {
    if any_severity(findings, Severity::Critical) {
        2
    } else if any_severity(findings, Severity::Warning) {
        1
    } else {
        0
    }
}

pub fn scan_exit_code(findings: &Vec<Finding>) -> (r: u8)
    ensures
        r == scan_code(finding_views(findings@)),
{
    if has_severity(findings, Severity::Critical) {
        2
    } else if has_severity(findings, Severity::Warning) {
        1
    } else {
        0
    }
}

/// A scan ends in two where a finding is critical, in one where the worst is a warning, and
/// in zero otherwise, whatever else was found.
pub proof fn law_scan_exit_code(findings: Seq<Finding>)
    ensures
        ({
            let code = scan_code(finding_views(findings));
            let critical = exists|i: int|
                0 <= i < findings.len() && (#[trigger] findings[i]).severity == Severity::Critical;
            let warning = exists|i: int|
                0 <= i < findings.len() && (#[trigger] findings[i]).severity == Severity::Warning;
            &&& code == 2 <==> critical
            &&& code == 1 <==> !critical && warning
            &&& code == 0 <==> !critical && !warning
        }),
{
    let views = finding_views(findings);
    assert(forall|i: int| 0 <= i < findings.len() ==> #[trigger] views[i] == findings[i]@);
    lemma_any_severity(findings, Severity::Critical);
    lemma_any_severity(findings, Severity::Warning);
}

proof fn lemma_any_severity(findings: Seq<Finding>, severity: Severity)
    ensures
        any_severity(finding_views(findings), severity) <==> exists|i: int|
            0 <= i < findings.len() && (#[trigger] findings[i]).severity == severity,
{
    let views = finding_views(findings);
    if any_severity(views, severity) {
        let i = choose|i: int| 0 <= i < views.len() && views[i].severity == severity;
        assert(findings[i].severity == severity);
    }
    if exists|i: int| 0 <= i < findings.len() && (#[trigger] findings[i]).severity == severity {
        let i = choose|i: int|
            0 <= i < findings.len() && (#[trigger] findings[i]).severity == severity;
        assert(views[i].severity == severity);
    }
}

} // verus!
