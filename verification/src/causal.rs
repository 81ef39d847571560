//! Root-cause diagnoses and the causal chains that explain them.

use crate::finding::Confidence;
use crate::text;
use vstd::prelude::*;
use vstd::string::*;

verus! {

/// Classification of a causal step in the diagnostic chain.
#[derive(Debug, Clone, Copy, PartialEq, Eq, Structural)]
pub enum CausalNodeType {
    /// High-level observable symptom, such as a gateway timeout.
    Symptom,
    /// System-level manifestation, such as an exhausted worker pool.
    Mechanism,
    /// Operational trigger, such as a cron run.
    Trigger,
    /// Concrete flaw, such as an unindexed query.
    Culprit,
}

impl CausalNodeType {
    pub open spec fn described(self) -> Seq<char> {
        match self {
            CausalNodeType::Symptom => "Symptom"@,
            CausalNodeType::Mechanism => "Mechanism"@,
            CausalNodeType::Trigger => "Trigger"@,
            CausalNodeType::Culprit => "Culprit"@,
        }
    }

    /// The classification in words.
    pub fn describe(self) -> (r: String)
        ensures
            r@ == self.described(),
    {
        match self {
            CausalNodeType::Symptom => "Symptom".to_owned(),
            CausalNodeType::Mechanism => "Mechanism".to_owned(),
            CausalNodeType::Trigger => "Trigger".to_owned(),
            CausalNodeType::Culprit => "Culprit".to_owned(),
        }
    }
}

/// A discrete step within an evidence-backed causal chain.
#[derive(Debug, Clone)]
pub struct CausalNode {
    pub node_type: CausalNodeType,
    pub subsystem: String,
    pub description: String,
    pub metric: Option<String>,
}

/// What a [`CausalNode`] holds.
#[verifier::ext_equal]
pub struct CausalNodeView {
    pub node_type: CausalNodeType,
    pub subsystem: Seq<char>,
    pub description: Seq<char>,
    pub metric: Option<Seq<char>>,
}

impl View for CausalNode {
    type V = CausalNodeView;

    open spec fn view(&self) -> CausalNodeView {
        CausalNodeView {
            node_type: self.node_type,
            subsystem: self.subsystem@,
            description: self.description@,
            metric: text::text_opt(self.metric),
        }
    }
}

impl CausalNode {
    pub fn new(node_type: CausalNodeType, subsystem: &str, description: &str) -> (r: CausalNode)
        ensures
            r@ == (CausalNodeView {
                node_type,
                subsystem: subsystem@,
                description: description@,
                metric: None,
            }),
    {
        CausalNode {
            node_type,
            subsystem: subsystem.to_owned(),
            description: description.to_owned(),
            metric: None,
        }
    }

    pub fn with_metric(self, metric: &str) -> (r: CausalNode)
        ensures
            r@ == (CausalNodeView { metric: Some(metric@), ..self@ }),
    {
        CausalNode {
            node_type: self.node_type,
            subsystem: self.subsystem,
            description: self.description,
            metric: Some(metric.to_owned()),
        }
    }
}

/// Ordered sequence of causes from observable symptom to root culprit.
#[derive(Debug, Clone)]
pub struct CausalChain {
    pub symptom: String,
    pub nodes: Vec<CausalNode>,
}

/// What a [`CausalChain`] holds.
#[verifier::ext_equal]
pub struct CausalChainView {
    pub symptom: Seq<char>,
    pub nodes: Seq<CausalNodeView>,
}

impl View for CausalChain {
    type V = CausalChainView;

    open spec fn view(&self) -> CausalChainView {
        CausalChainView {
            symptom: self.symptom@,
            nodes: Seq::new(self.nodes@.len(), |i: int| self.nodes@[i]@),
        }
    }
}

impl CausalChainView {
    /// Nothing measured.
    pub open spec fn unset() -> CausalChainView {
        CausalChainView {
            symptom: Seq::empty(),
            nodes: Seq::empty(),
        }
    }
}

impl Default for CausalChain {
    fn default() -> (r: CausalChain)
        ensures
            r@ == CausalChainView::unset(),
    {
        let r = CausalChain {
            symptom: String::new(),
            nodes: Vec::new(),
        };
        assert(r@.nodes =~= Seq::empty());
        r
    }
}

impl CausalChain {
    pub fn new(symptom: &str) -> (r: CausalChain)
        ensures
            r@ == (CausalChainView { symptom: symptom@, nodes: Seq::empty() }),
    {
        let r = CausalChain { symptom: symptom.to_owned(), nodes: Vec::new() };
        assert(r@.nodes =~= Seq::empty());
        r
    }

    pub fn add_node(&mut self, node: CausalNode)
        ensures
            final(self)@ == (CausalChainView {
                symptom: old(self)@.symptom,
                nodes: old(self)@.nodes.push(node@),
            }),
    {
        let ghost before = self@;
        self.nodes.push(node);
        assert(self@.nodes =~= before.nodes.push(node@));
    }
}

/// Synthesized root-cause diagnosis.
#[derive(Debug, Clone)]
pub struct InvestigationResult {
    /// Focus area or symptom keyword.
    pub target: String,
    /// Human-readable diagnosis title.
    pub title: String,
    /// Confidence rating based on multi-factor correlation.
    pub confidence: Confidence,
    /// Impact severity score, out of a hundred.
    pub impact_score: u32,
    /// Executive summary.
    pub summary: String,
    /// The measurements that the diagnosis is built on.
    pub evidence_basis: Vec<String>,
    /// Step-by-step chain explaining the mechanics.
    pub causal_chain: CausalChain,
    /// Responsible or implicated modules.
    pub culprit_modules: Vec<String>,
    /// Offending SQL fingerprints.
    pub culprit_queries: Vec<String>,
    /// Concrete actionable remediation steps.
    pub remediation_steps: Vec<String>,
    /// Safe verification commands.
    pub verification_commands: Vec<String>,
}

/// What a [`InvestigationResult`] holds.
#[verifier::ext_equal]
pub struct InvestigationResultView {
    pub target: Seq<char>,
    pub title: Seq<char>,
    pub confidence: Confidence,
    pub impact_score: u32,
    pub summary: Seq<char>,
    pub evidence_basis: Seq<Seq<char>>,
    pub causal_chain: CausalChainView,
    pub culprit_modules: Seq<Seq<char>>,
    pub culprit_queries: Seq<Seq<char>>,
    pub remediation_steps: Seq<Seq<char>>,
    pub verification_commands: Seq<Seq<char>>,
}

impl View for InvestigationResult {
    type V = InvestigationResultView;

    open spec fn view(&self) -> InvestigationResultView {
        InvestigationResultView {
            target: self.target@,
            title: self.title@,
            confidence: self.confidence,
            impact_score: self.impact_score,
            summary: self.summary@,
            evidence_basis: text::texts(self.evidence_basis@),
            causal_chain: self.causal_chain@,
            culprit_modules: text::texts(self.culprit_modules@),
            culprit_queries: text::texts(self.culprit_queries@),
            remediation_steps: text::texts(self.remediation_steps@),
            verification_commands: text::texts(self.verification_commands@),
        }
    }
}

/// What a list of diagnoses holds.
pub open spec fn result_views(s: Seq<InvestigationResult>) -> Seq<InvestigationResultView> {
    Seq::new(s.len(), |i: int| s[i]@)
}

} // verus!
