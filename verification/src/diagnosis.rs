//! Triage of a verification failure: a counterexample is blamed on the
//! code, on the spec, or left ambiguous. The class routes the CEGIS loop.
use vstd::prelude::*;

verus! {

/// Where a counterexample puts the blame.
#[derive(Debug, Clone, Copy, PartialEq, Eq)]
pub enum DiagnosisClass {
    CodeBug,
    SpecBug,
    Ambiguous,
}

/// A classified failure with the model's reasoning.
#[derive(Debug, Clone)]
pub struct Diagnosis {
    pub class: DiagnosisClass,
    pub rationale: String,
    pub fix_hint: Option<String>,
}

impl Diagnosis {
    /// A copy equal to `self`.
    pub fn duplicate(&self) -> (r: Diagnosis)
        ensures
            r == *self,
    {
        Diagnosis {
            class: self.class,
            rationale: self.rationale.clone(),
            fix_hint: crate::portfolio::copy_opt_string(&self.fix_hint),
        }
    }
}

/// Rationale recorded when diagnosis could not be obtained.
pub open spec fn spec_ambiguous_rationale(reason: Seq<char>) -> Seq<char> {
    "diagnose failed, defaulting Ambiguous: "@ + reason
}

/// The fallback diagnosis: `Ambiguous`, with the reason it was not
/// obtained, and no fix hint.
pub fn ambiguous_with(reason: &str) -> (d: Diagnosis)
    ensures
        d.class == DiagnosisClass::Ambiguous,
        d.rationale@ == spec_ambiguous_rationale(reason@),
        d.fix_hint is None,
{
    let mut r = String::from_str("diagnose failed, defaulting Ambiguous: ");
    r.append(reason);
    Diagnosis { class: DiagnosisClass::Ambiguous, rationale: r, fix_hint: None }
}

/// What came back from asking the model for a diagnosis.
#[derive(Debug)]
pub enum DiagnosisReply {
    /// The reply parsed into a diagnosis.
    Parsed(Diagnosis),
    /// The prompt could not be rendered; the renderer's message.
    RenderFailed(String),
    /// The provider failed; its message.
    LlmFailed(String),
    /// The reply did not have the diagnosis shape; the parser's message.
    BadShape(String),
}

/// The diagnosis a reply settles on: the parsed one, or `Ambiguous` with a
/// reason naming the step that failed.
pub open spec fn spec_settle_diagnosis(reply: DiagnosisReply) -> (DiagnosisClass, Seq<char>) {
    match reply {
        DiagnosisReply::Parsed(d) => (d.class, d.rationale@),
        DiagnosisReply::RenderFailed(e) => (
            DiagnosisClass::Ambiguous,
            spec_ambiguous_rationale("prompt render failed: "@ + e@),
        ),
        DiagnosisReply::LlmFailed(e) => (
            DiagnosisClass::Ambiguous,
            spec_ambiguous_rationale("llm: "@ + e@),
        ),
        DiagnosisReply::BadShape(e) => (
            DiagnosisClass::Ambiguous,
            spec_ambiguous_rationale("diagnosis JSON shape: "@ + e@),
        ),
    }
}

/// Settles a reply into a diagnosis; every failure becomes `Ambiguous`, so
/// the loop always gets a class.
pub fn settle_diagnosis(reply: DiagnosisReply) -> (d: Diagnosis)
    ensures
        (d.class, d.rationale@) == spec_settle_diagnosis(reply),
        reply matches DiagnosisReply::Parsed(p) ==> d == p,
        !(reply is Parsed) ==> d.fix_hint is None,
{
    match reply {
        DiagnosisReply::Parsed(d) => d,
        DiagnosisReply::RenderFailed(e) => {
            let mut m = String::from_str("prompt render failed: ");
            m.append(e.as_str());
            ambiguous_with(m.as_str())
        },
        DiagnosisReply::LlmFailed(e) => {
            let mut m = String::from_str("llm: ");
            m.append(e.as_str());
            ambiguous_with(m.as_str())
        },
        DiagnosisReply::BadShape(e) => {
            let mut m = String::from_str("diagnosis JSON shape: ");
            m.append(e.as_str());
            ambiguous_with(m.as_str())
        },
    }
}

/// Named values the diagnosis prompt is filled with.
pub fn diagnosis_prompt_vars(intent: &str, spec_source: &str, counterexample_trace: &str) -> (vars:
    Vec<(String, String)>)
    ensures
        vars.len() == 3,
        vars@[0].0@ == "intent"@ && vars@[0].1@ == intent@,
        vars@[1].0@ == "spec_source"@ && vars@[1].1@ == spec_source@,
        vars@[2].0@ == "counterexample_trace"@ && vars@[2].1@ == counterexample_trace@,
{
    let mut v: Vec<(String, String)> = Vec::new();
    v.push((String::from_str("intent"), String::from_str(intent)));
    v.push((String::from_str("spec_source"), String::from_str(spec_source)));
    v.push((String::from_str("counterexample_trace"), String::from_str(counterexample_trace)));
    v
}

} // verus!
