//! The structural oracle: candidates mined from the contract's structure by
//! one of five miner families, and the below-threshold findings that are
//! only reported.
use vstd::prelude::*;

use crate::source::Source;
use crate::synthesis::SpecCandidate;

verus! {

/// The miner families.
#[derive(Debug, Clone, Copy, PartialEq, Eq, Structural)]
pub enum StructuralMiner {
    InvariantConstants,
    Monotonicity,
    AccessPolicy,
    Conservation,
    TwoStep,
}

pub open spec fn spec_miner_id(m: StructuralMiner) -> Seq<char> {
    match m {
        StructuralMiner::InvariantConstants => "invariant-constants"@,
        StructuralMiner::Monotonicity => "monotonicity"@,
        StructuralMiner::AccessPolicy => "access-policy"@,
        StructuralMiner::Conservation => "conservation"@,
        StructuralMiner::TwoStep => "two-step"@,
    }
}

impl StructuralMiner {
    /// Stable kebab-case identifier.
    pub fn id(self) -> (r: &'static str)
        ensures
            r@ == spec_miner_id(self),
    {
        match self {
            StructuralMiner::InvariantConstants => "invariant-constants",
            StructuralMiner::Monotonicity => "monotonicity",
            StructuralMiner::AccessPolicy => "access-policy",
            StructuralMiner::Conservation => "conservation",
            StructuralMiner::TwoStep => "two-step",
        }
    }

    /// All five miners in declaration order.
    pub fn all() -> (r: [StructuralMiner; 5])
        ensures
            r@ == seq![
                StructuralMiner::InvariantConstants,
                StructuralMiner::Monotonicity,
                StructuralMiner::AccessPolicy,
                StructuralMiner::Conservation,
                StructuralMiner::TwoStep,
            ],
    {
        let r = [
            StructuralMiner::InvariantConstants,
            StructuralMiner::Monotonicity,
            StructuralMiner::AccessPolicy,
            StructuralMiner::Conservation,
            StructuralMiner::TwoStep,
        ];
        assert(r@ =~= seq![
            StructuralMiner::InvariantConstants,
            StructuralMiner::Monotonicity,
            StructuralMiner::AccessPolicy,
            StructuralMiner::Conservation,
            StructuralMiner::TwoStep,
        ]);
        r
    }
}

/// A mined candidate before the confidence cut.
#[derive(Debug, Clone)]
pub struct StructuralCandidate {
    pub spec: SpecCandidate,
    /// The confidence written with two decimals.
    pub confidence: String,
    pub miner: StructuralMiner,
}

/// `structural:{miner}:{confidence}`.
pub open spec fn spec_structural_ref(m: StructuralMiner, confidence: Seq<char>) -> Seq<char> {
    "structural:"@ + spec_miner_id(m) + ":"@ + confidence
}

impl StructuralCandidate {
    /// The candidate as the pipeline sees it: from the structural source,
    /// with its miner and confidence recorded as its template reference
    /// unless the miner already set one.
    pub fn into_spec_candidate(self) -> (r: SpecCandidate)
        ensures
            r.source == Source::StructuralAnalysis,
            r.name == self.spec.name,
            r.halmos == self.spec.halmos,
            r.smtchecker == self.spec.smtchecker,
            r.intent_satisfied == self.spec.intent_satisfied,
            r.intent_text == self.spec.intent_text,
            self.spec.template_ref is Some ==> r.template_ref == self.spec.template_ref,
            self.spec.template_ref is None ==> (r.template_ref matches Some(t) && t@
                == spec_structural_ref(self.miner, self.confidence@)),
    {
        let mut spec = self.spec;
        spec.source = Source::StructuralAnalysis;
        if spec.template_ref.is_none() {
            let mut t = String::from_str("structural:");
            t.append(self.miner.id());
            t.append(":");
            t.append(self.confidence.as_str());
            spec.template_ref = Some(t);
        }
        spec
    }
}

/// A finding below the confidence threshold: reported, not verified.
#[derive(Debug, Clone)]
pub struct LowConfidenceFinding {
    pub miner: StructuralMiner,
    pub description: String,
    /// The confidence written with two decimals, e.g. `"0.55"`.
    pub confidence: String,
    pub fn_or_var: Option<String>,
}

impl LowConfidenceFinding {
    pub fn new(miner: StructuralMiner, description: String, confidence: String) -> (r:
        LowConfidenceFinding)
        ensures
            r.miner == miner,
            r.description == description,
            r.confidence == confidence,
            r.fn_or_var is None,
    {
        LowConfidenceFinding { miner, description, confidence, fn_or_var: None }
    }

    /// The same finding, pointing at a function or variable.
    pub fn with_target(self, fn_or_var: String) -> (r: LowConfidenceFinding)
        ensures
            r.miner == self.miner,
            r.description == self.description,
            r.confidence == self.confidence,
            r.fn_or_var == Some(fn_or_var),
    {
        LowConfidenceFinding { fn_or_var: Some(fn_or_var), ..self }
    }
}

/// What one structural pass produced.
#[derive(Debug, Clone)]
pub struct StructuralReport {
    /// At or above the confidence threshold: these go on to verification.
    pub candidates: Vec<SpecCandidate>,
    /// Below it: report only.
    pub low_confidence_findings: Vec<LowConfidenceFinding>,
    /// High-confidence candidates per miner, each miner at most once.
    pub miner_counts: Vec<(StructuralMiner, usize)>,
}

/// The structural pass over `(path, source)` pairs. No miner is enabled
/// yet, so the report is empty.
pub fn extract_from_structural(sources: &Vec<(String, String)>) -> (r: StructuralReport)
    ensures
        r.candidates@.len() == 0,
        r.low_confidence_findings@.len() == 0,
        r.miner_counts@.len() == 0,
{
    StructuralReport {
        candidates: Vec::new(),
        low_confidence_findings: Vec::new(),
        miner_counts: Vec::new(),
    }
}

} // verus!
