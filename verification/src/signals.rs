//! Evidence gathered for one diagnosis, and what it amounts to.

use crate::causal::{
    CausalChain, CausalChainView, CausalNode, CausalNodeType, CausalNodeView, InvestigationResult,
    InvestigationResultView,
};
use crate::correlation::{self, push_once};
use crate::finding::Confidence;
use crate::text;
use vstd::prelude::*;
use vstd::string::*;

verus! {

/// Evidence gathered for one diagnosis.
///
/// The weights are a deliberate ranking of how much each observation tells: a live
/// scoreboard reading outweighs a static config smell, and two independent signals pointing
/// the same way outweigh either alone.
#[derive(Debug)]
pub struct SignalSet {
    pub entries: Vec<(String, u32)>,
}

impl View for SignalSet {
    type V = Seq<(Seq<char>, u32)>;

    open spec fn view(&self) -> Seq<(Seq<char>, u32)> {
        Seq::new(self.entries@.len(), |i: int| (self.entries@[i].0@, self.entries@[i].1))
    }
}

/// The sum of the weights.
pub open spec fn weight_sum(s: Seq<(Seq<char>, u32)>) -> nat
    decreases s.len(),
{
    if s.len() == 0 {
        0
    } else {
        weight_sum(s.drop_last()) + s.last().1 as nat
    }
}

/// The greatest weight, or zero.
pub open spec fn strongest(s: Seq<(Seq<char>, u32)>) -> u32
    decreases s.len(),
{
    if s.len() == 0 {
        0
    } else if s.last().1 >= strongest(s.drop_last()) {
        s.last().1
    } else {
        strongest(s.drop_last())
    }
}

/// What was observed, without the weights.
pub open spec fn descriptions_of(s: Seq<(Seq<char>, u32)>) -> Seq<Seq<char>> {
    Seq::new(s.len(), |i: int| s[i].0)
}

/// High requires corroboration from more than one measurement; a single weak signal can
/// only ever be Low.
pub open spec fn confidence_of(s: Seq<(Seq<char>, u32)>) -> Confidence {
    if s.len() >= 2 && weight_sum(s) >= 70 {
        Confidence::High
    } else if strongest(s) >= 40 {
        Confidence::Medium
    } else {
        Confidence::Low
    }
}

/// The highest impact that a confidence supports.
pub open spec fn impact_cap(c: Confidence) -> u32 {
    match c {
        Confidence::High => 98,
        Confidence::Medium => 85,
        Confidence::Low => 65,
    }
}

/// The sum of the weights, held between ten and what the confidence supports.
pub open spec fn impact_of(s: Seq<(Seq<char>, u32)>) -> u32 {
    let cap = impact_cap(confidence_of(s));
    if weight_sum(s) < 10 {
        10
    } else if weight_sum(s) > cap {
        cap
    } else {
        weight_sum(s) as u32
    }
}

impl SignalSet {
    pub fn new() -> (r: SignalSet)
        ensures
            r@ == Seq::<(Seq<char>, u32)>::empty(),
    {
        let r = SignalSet { entries: Vec::new() };
        assert(r@ =~= Seq::<(Seq<char>, u32)>::empty());
        r
    }

    pub fn add(&mut self, description: String, weight: u32)
        ensures
            final(self)@ == old(self)@.push((description@, weight)),
    {
        let ghost before = self@;
        self.entries.push((description, weight));
        assert(self@ =~= before.push((description@, weight)));
    }

    pub fn is_empty(&self) -> (r: bool)
        ensures
            r == (self@.len() == 0),
    {
        self.entries.len() == 0
    }

    /// The sum of the weights, as far as it fits.
    pub fn total_weight(&self) -> (r: u32)
        ensures
            weight_sum(self@) <= u32::MAX ==> r == weight_sum(self@),
            weight_sum(self@) > u32::MAX ==> r == u32::MAX,
    {
        let ghost all = self@;
        let mut sum: u32 = 0;
        let mut i: usize = 0;
        while i < self.entries.len()
            invariant
                i <= self.entries@.len(),
                all == self@,
                weight_sum(all.take(i as int)) <= u32::MAX ==> sum == weight_sum(
                    all.take(i as int),
                ),
                weight_sum(all.take(i as int)) > u32::MAX ==> sum == u32::MAX,
            decreases self.entries@.len() - i,
        {
            assert(all.take(i + 1).drop_last() =~= all.take(i as int));
            sum = sum.saturating_add(self.entries[i].1);
            i += 1;
        }
        assert(all.take(i as int) =~= all);
        sum
    }

    pub fn strongest_weight(&self) -> (r: u32)
        ensures
            r == strongest(self@),
    {
        let ghost all = self@;
        let mut best: u32 = 0;
        let mut i: usize = 0;
        while i < self.entries.len()
            invariant
                i <= self.entries@.len(),
                all == self@,
                best == strongest(all.take(i as int)),
            decreases self.entries@.len() - i,
        {
            assert(all.take(i + 1).drop_last() =~= all.take(i as int));
            if self.entries[i].1 >= best {
                best = self.entries[i].1;
            }
            i += 1;
        }
        assert(all.take(i as int) =~= all);
        best
    }

    pub fn descriptions(&self) -> (r: Vec<String>)
        ensures
            text::texts(r@) == descriptions_of(self@),
    {
        let mut out: Vec<String> = Vec::new();
        let mut i: usize = 0;
        while i < self.entries.len()
            invariant
                i <= self.entries@.len(),
                out@.len() == i,
                forall|k: int| 0 <= k < i ==> out@[k]@ == #[trigger] self.entries@[k].0@,
            decreases self.entries@.len() - i,
        {
            out.push(self.entries[i].0.clone());
            i += 1;
        }
        assert(text::texts(out@) =~= descriptions_of(self@));
        out
    }

    /// How well the evidence supports a diagnosis.
    pub fn confidence(&self) -> (r: Confidence)
        ensures
            r == confidence_of(self@),
    {
        if self.entries.len() >= 2 && self.total_weight() >= 70 {
            Confidence::High
        } else if self.strongest_weight() >= 40 {
            Confidence::Medium
        } else {
            Confidence::Low
        }
    }

    /// Impact is capped by confidence, so only a corroborated High-confidence diagnosis can
    /// reach the band that callers treat as critical.
    pub fn impact_score(&self) -> (r: u32)
        ensures
            r == impact_of(self@),
    {
        let cap: u32 = match self.confidence() {
            Confidence::High => 98,
            Confidence::Medium => 85,
            Confidence::Low => 65,
        };
        let total = self.total_weight();
        if total < 10 {
            10
        } else if total > cap {
            cap
        } else {
            total
        }
    }
}

/// The least impact that callers treat as critical.
pub const CRITICAL_IMPACT: u32 = 90;

/// Only a diagnosis on two or more measurements, and one of high confidence, reaches the
/// critical band; the impact always lies between 10 and 98.
pub proof fn law_critical_impact_is_corroborated(s: Seq<(Seq<char>, u32)>)
    ensures
        10 <= impact_of(s) <= 98,
        impact_of(s) >= CRITICAL_IMPACT ==> confidence_of(s) == Confidence::High && s.len() >= 2,
        confidence_of(s) == Confidence::High ==> s.len() >= 2 && weight_sum(s) >= 70,
        s.len() == 1 && s[0].1 < 40 ==> confidence_of(s) == Confidence::Low,
{
    if s.len() == 1 {
        assert(strongest(s.drop_last()) == 0);
        assert(s.last() == s[0]);
    }
}

/// What a diagnosis is built from.
#[derive(Debug)]
pub struct Draft {
    pub signals: SignalSet,
    pub chain: CausalChain,
    pub culprits: Vec<String>,
    pub queries: Vec<String>,
    pub remediations: Vec<String>,
    pub verifications: Vec<String>,
}

/// What a [`Draft`] holds.
#[verifier::ext_equal]
pub struct DraftView {
    pub signals: Seq<(Seq<char>, u32)>,
    pub chain: CausalChainView,
    pub culprits: Seq<Seq<char>>,
    pub queries: Seq<Seq<char>>,
    pub remediations: Seq<Seq<char>>,
    pub verifications: Seq<Seq<char>>,
}

impl View for Draft {
    type V = DraftView;

    open spec fn view(&self) -> DraftView {
        DraftView {
            signals: self.signals@,
            chain: self.chain@,
            culprits: text::texts(self.culprits@),
            queries: text::texts(self.queries@),
            remediations: text::texts(self.remediations@),
            verifications: text::texts(self.verifications@),
        }
    }
}

impl DraftView {
    pub open spec fn of(symptom: Seq<char>) -> DraftView {
        DraftView {
            signals: Seq::empty(),
            chain: CausalChainView { symptom, nodes: Seq::empty() },
            culprits: Seq::empty(),
            queries: Seq::empty(),
            remediations: Seq::empty(),
            verifications: Seq::empty(),
        }
    }

    pub open spec fn signal(self, description: Seq<char>, weight: u32) -> DraftView {
        DraftView { signals: self.signals.push((description, weight)), ..self }
    }

    /// One more step of the chain, without a metric.
    pub open spec fn step(
        self,
        node_type: CausalNodeType,
        subsystem: Seq<char>,
        description: Seq<char>,
    ) -> DraftView {
        self.node(CausalNodeView { node_type, subsystem, description, metric: None })
    }

    /// One more step of the chain, with a metric.
    pub open spec fn measured(
        self,
        node_type: CausalNodeType,
        subsystem: Seq<char>,
        description: Seq<char>,
        metric: Seq<char>,
    ) -> DraftView {
        self.node(CausalNodeView { node_type, subsystem, description, metric: Some(metric) })
    }

    pub open spec fn node(self, node: CausalNodeView) -> DraftView {
        DraftView {
            chain: CausalChainView {
                symptom: self.chain.symptom,
                nodes: self.chain.nodes.push(node),
            },
            ..self
        }
    }

    pub open spec fn culprit(self, module: Seq<char>) -> DraftView {
        DraftView { culprits: correlation::with_once(self.culprits, module), ..self }
    }

    pub open spec fn query(self, fingerprint: Seq<char>) -> DraftView {
        DraftView { queries: self.queries.push(fingerprint), ..self }
    }

    pub open spec fn remedy(self, line: Seq<char>) -> DraftView {
        DraftView { remediations: self.remediations.push(line), ..self }
    }

    pub open spec fn verify(self, line: Seq<char>) -> DraftView {
        DraftView { verifications: self.verifications.push(line), ..self }
    }

    /// The diagnosis: confidence, impact and evidence are what the signals amount to.
    pub open spec fn diagnosis(
        self,
        target: Seq<char>,
        title: Seq<char>,
        summary: Seq<char>,
    ) -> InvestigationResultView {
        InvestigationResultView {
            target,
            title,
            confidence: confidence_of(self.signals),
            impact_score: impact_of(self.signals),
            summary,
            evidence_basis: descriptions_of(self.signals),
            causal_chain: self.chain,
            culprit_modules: self.culprits,
            culprit_queries: self.queries,
            remediation_steps: self.remediations,
            verification_commands: self.verifications,
        }
    }
}

impl Draft {
    pub fn new(symptom: &str) -> (r: Draft)
        ensures
            r@ == DraftView::of(symptom@),
    {
        broadcast use text::lemma_texts_empty;

        Draft {
            signals: SignalSet::new(),
            chain: CausalChain::new(symptom),
            culprits: Vec::new(),
            queries: Vec::new(),
            remediations: Vec::new(),
            verifications: Vec::new(),
        }
    }

    pub fn add_signal(&mut self, description: String, weight: u32)
        ensures
            final(self)@ == old(self)@.signal(description@, weight),
    {
        self.signals.add(description, weight);
    }

    pub fn add_step(&mut self, node_type: CausalNodeType, subsystem: &str, description: &str)
        ensures
            final(self)@ == old(self)@.step(node_type, subsystem@, description@),
    {
        self.chain.add_node(CausalNode::new(node_type, subsystem, description));
    }

    pub fn add_measured(
        &mut self,
        node_type: CausalNodeType,
        subsystem: &str,
        description: &str,
        metric: &str,
    )
        ensures
            final(self)@ == old(self)@.measured(node_type, subsystem@, description@, metric@),
    {
        self.chain.add_node(CausalNode::new(node_type, subsystem, description).with_metric(metric));
    }

    pub fn add_culprit(&mut self, module: &str)
        ensures
            final(self)@ == old(self)@.culprit(module@),
    {
        push_once(&mut self.culprits, module);
    }

    pub fn add_query(&mut self, fingerprint: &str)
        ensures
            final(self)@ == old(self)@.query(fingerprint@),
    {
        broadcast use text::lemma_texts_push;

        self.queries.push(fingerprint.to_owned());
    }

    pub fn add_remedy(&mut self, line: String)
        ensures
            final(self)@ == old(self)@.remedy(line@),
    {
        broadcast use text::lemma_texts_push;

        self.remediations.push(line);
    }

    pub fn add_verification(&mut self, line: &str)
        ensures
            final(self)@ == old(self)@.verify(line@),
    {
        broadcast use text::lemma_texts_push;

        self.verifications.push(line.to_owned());
    }

    /// Turns the draft into a diagnosis.
    pub fn diagnose(self, target: &str, title: &str, summary: String) -> (r: InvestigationResult)
        ensures
            r@ == self@.diagnosis(target@, title@, summary@),
    {
        InvestigationResult {
            target: target.to_owned(),
            title: title.to_owned(),
            confidence: self.signals.confidence(),
            impact_score: self.signals.impact_score(),
            summary,
            evidence_basis: self.signals.descriptions(),
            causal_chain: self.chain,
            culprit_modules: self.culprits,
            culprit_queries: self.queries,
            remediation_steps: self.remediations,
            verification_commands: self.verifications,
        }
    }
}

/// One more signal adds its weight and no other.
pub proof fn law_weights_add_up(s: Seq<(Seq<char>, u32)>, signal: (Seq<char>, u32))
    ensures
        weight_sum(s.push(signal)) == weight_sum(s) + signal.1,
        weight_sum(Seq::<(Seq<char>, u32)>::empty()) == 0,
{
    assert(s.push(signal).drop_last() =~= s);
}

proof fn lemma_strongest(s: Seq<(Seq<char>, u32)>, w: u32)
    requires
        w > 0,
    ensures
        strongest(s) >= w <==> exists|i: int| 0 <= i < s.len() && (#[trigger] s[i]).1 >= w,
    decreases s.len(),
{
    if s.len() > 0 {
        let init = s.drop_last();
        lemma_strongest(init, w);
        assert(forall|i: int| 0 <= i < init.len() ==> #[trigger] init[i] == s[i]);
        assert(s.last() == s[s.len() - 1]);
        if exists|i: int| 0 <= i < s.len() && (#[trigger] s[i]).1 >= w {
            let i = choose|i: int| 0 <= i < s.len() && (#[trigger] s[i]).1 >= w;
            if i < init.len() {
                assert(init[i].1 >= w);
            }
        }
    }
}

/// Confidence is high where two or more signals weigh 70 or more together, medium where it is
/// not and one weighs 40 or more, and low otherwise. The impact is the sum of the weights,
/// but at least 10, and at most 98, 85 or 65 by the confidence.
pub proof fn law_confidence_and_impact(s: Seq<(Seq<char>, u32)>)
    ensures
        ({
            let sum = weight_sum(s) as int;
            let high = s.len() >= 2 && sum >= 70;
            let strong = exists|i: int| 0 <= i < s.len() && (#[trigger] s[i]).1 >= 40;
            let most: int = if high {
                98
            } else if strong {
                85
            } else {
                65
            };
            &&& confidence_of(s) == Confidence::High <==> high
            &&& confidence_of(s) == Confidence::Medium <==> !high && strong
            &&& confidence_of(s) == Confidence::Low <==> !high && !strong
            &&& 10 <= sum <= most ==> impact_of(s) == sum
            &&& sum < 10 ==> impact_of(s) == 10
            &&& sum > most ==> impact_of(s) == most
        }),
{
    lemma_strongest(s, 40);
}

} // verus!
