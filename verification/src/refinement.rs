//! What the refinement steps hand back (a code repair plan, a refined spec,
//! a decomposition) and the inputs their prompts are filled with.
use vstd::prelude::*;

use crate::synthesis::{spec_source_blob, spec_source_blob_of, SpecCandidate};

verus! {

#[derive(Debug, Clone)]
pub struct CodePatch {
    pub file: String,
    pub before: String,
    pub after: String,
    pub rationale: String,
}

#[derive(Debug, Clone)]
pub struct CodeRepairPlan {
    pub patches: Vec<CodePatch>,
    pub summary: String,
}

#[derive(Debug, Clone)]
pub struct RefinedSpec {
    pub name: String,
    pub halmos: String,
    pub smtchecker: String,
    pub delta: String,
}

#[derive(Debug, Clone)]
pub struct DecomposeSubProperty {
    pub name: String,
    pub halmos: String,
    pub smtchecker: String,
    pub implies: String,
    pub cost_class: String,
}

#[derive(Debug, Clone)]
pub struct DecomposeResult {
    pub sub_properties: Vec<DecomposeSubProperty>,
    pub composition_argument: String,
}

/// Why a refinement step failed; each carries the underlying message.
#[derive(Debug)]
pub enum RefineError {
    Prompt(String),
    Llm(String),
    Schema(String),
}

/// The message a refinement error is shown with.
pub open spec fn spec_refine_error_message(e: RefineError) -> Seq<char> {
    match e {
        RefineError::Prompt(m) => "prompt render: "@ + m@,
        RefineError::Llm(m) => "llm: "@ + m@,
        RefineError::Schema(m) => "schema: "@ + m@,
    }
}

impl RefineError {
    /// The error's message, prefixed by the step that failed.
    pub fn message(&self) -> (r: String)
        ensures
            r@ == spec_refine_error_message(*self),
    {
        let (mut out, m) = match self {
            RefineError::Prompt(m) => (String::from_str("prompt render: "), m),
            RefineError::Llm(m) => (String::from_str("llm: "), m),
            RefineError::Schema(m) => (String::from_str("schema: "), m),
        };
        out.append(m.as_str());
        out
    }
}

/// Named values the code-repair and spec-refinement prompts are filled
/// with; both take the same four inputs.
pub fn repair_prompt_vars(
    intent: &str,
    spec: &SpecCandidate,
    contract_source: &str,
    counterexample_trace: &str,
) -> (vars: Vec<(String, String)>)
    ensures
        vars.len() == 4,
        vars@[0].0@ == "intent"@ && vars@[0].1@ == intent@,
        vars@[1].0@ == "spec_source"@ && vars@[1].1@ == spec_source_blob(
            spec.halmos@,
            spec.smtchecker@,
        ),
        vars@[2].0@ == "contract_source"@ && vars@[2].1@ == contract_source@,
        vars@[3].0@ == "counterexample_trace"@ && vars@[3].1@ == counterexample_trace@,
{
    let mut v: Vec<(String, String)> = Vec::new();
    v.push((String::from_str("intent"), String::from_str(intent)));
    v.push((String::from_str("spec_source"), spec_source_blob_of(spec)));
    v.push((String::from_str("contract_source"), String::from_str(contract_source)));
    v.push((String::from_str("counterexample_trace"), String::from_str(counterexample_trace)));
    v
}

/// Named values the decomposition prompt is filled with.
pub fn decompose_prompt_vars(intent: &str, spec: &SpecCandidate, timeout_context: &str) -> (vars:
    Vec<(String, String)>)
    ensures
        vars.len() == 3,
        vars@[0].0@ == "intent"@ && vars@[0].1@ == intent@,
        vars@[1].0@ == "spec_source"@ && vars@[1].1@ == spec_source_blob(
            spec.halmos@,
            spec.smtchecker@,
        ),
        vars@[2].0@ == "timeout_context"@ && vars@[2].1@ == timeout_context@,
{
    let mut v: Vec<(String, String)> = Vec::new();
    v.push((String::from_str("intent"), String::from_str(intent)));
    v.push((String::from_str("spec_source"), spec_source_blob_of(spec)));
    v.push((String::from_str("timeout_context"), String::from_str(timeout_context)));
    v
}

} // verus!
