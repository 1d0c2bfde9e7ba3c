//! The critique pass: a second model scores each candidate, and only
//! accepted candidates that clear the per-axis minimum go on. The scores
//! themselves are numbers the caller compares; what is decided here is the
//! prompt's inputs, what a failed critique records, and how outcomes are
//! kept, dropped and counted.
use vstd::prelude::*;

use crate::source::Source;
use crate::synthesis::{spec_source_blob, spec_source_blob_of, SpecCandidate};
use crate::text::{spec_starts_with, spec_trim};

verus! {

/// The critic's verdict on one candidate.
#[derive(Debug, Clone, Copy, PartialEq, Eq, Structural)]
pub enum Verdict {
    Accept,
    Reject,
}

/// The verdict and rationale of one critique (its scores stay with the
/// caller).
#[derive(Debug, Clone)]
pub struct CritiqueOutcome {
    pub verdict: Verdict,
    pub rationale: String,
}

/// Counts of a batch of critiques.
#[derive(Debug, Clone, Copy, PartialEq, Eq, Structural)]
pub struct CritiqueOutcomeCounts {
    pub accepted: usize,
    pub rejected: usize,
    pub error: usize,
}

/// Prefix of the rationale a failed critique records.
pub open spec fn error_prefix() -> Seq<char> {
    "critique-pass error"@
}

/// A candidate goes on when the critic accepted it and every axis is at
/// least the minimum.
pub fn critique_keeps(verdict: Verdict, passes_axes: bool) -> (b: bool)
    ensures
        b == (verdict == Verdict::Accept && passes_axes),
{
    verdict == Verdict::Accept && passes_axes
}

/// Rationale recorded when the critique could not be obtained.
pub fn reject_rationale(reason: &str) -> (r: String)
    ensures
        r@ == "critique-pass error: "@ + reason@,
{
    let mut r = String::from_str("critique-pass error: ");
    r.append(reason);
    r
}

/// On a failed critique every axis scores zero, except that
/// restate-the-source stays at one for candidates not drawn from tests or
/// NatSpec (the axis does not apply to them).
pub fn restate_axis_zeroed(source: Source) -> (b: bool)
    ensures
        b == (source == Source::Tests || source == Source::NatSpec),
{
    match source {
        Source::Tests | Source::NatSpec => true,
        _ => false,
    }
}

pub open spec fn spec_counts(rs: Seq<CritiqueOutcome>) -> CritiqueOutcomeCounts
    decreases rs.len(),
{
    if rs.len() == 0 {
        CritiqueOutcomeCounts { accepted: 0, rejected: 0, error: 0 }
    } else {
        let c = spec_counts(rs.drop_last());
        let r = rs.last();
        if r.verdict == Verdict::Accept {
            CritiqueOutcomeCounts { accepted: (c.accepted + 1) as usize, ..c }
        } else if spec_starts_with(r.rationale@, error_prefix()) {
            CritiqueOutcomeCounts { error: (c.error + 1) as usize, ..c }
        } else {
            CritiqueOutcomeCounts { rejected: (c.rejected + 1) as usize, ..c }
        }
    }
}

/// Counts accepted critiques, rejections, and failed critiques (a
/// rejection whose rationale starts with `critique-pass error`).
pub fn classify_critique_outcomes(results: &Vec<CritiqueOutcome>) -> (r: CritiqueOutcomeCounts)
    ensures
        r == spec_counts(results@),
        r.accepted + r.rejected + r.error == results.len(),
{
    let mut out = CritiqueOutcomeCounts { accepted: 0, rejected: 0, error: 0 };
    let mut i: usize = 0;
    while i < results.len()
        invariant
            i <= results.len(),
            out == spec_counts(results@.take(i as int)),
            out.accepted + out.rejected + out.error == i,
        decreases results.len() - i,
    {
        proof {
            let t = results@.take(i + 1);
            assert(t.drop_last() =~= results@.take(i as int));
            assert(t.last() == results@[i as int]);
            reveal_strlit("critique-pass error");
        }
        let r = &results[i];
        if r.verdict == Verdict::Accept {
            out.accepted += 1;
        } else if crate::text::starts_with(r.rationale.as_str(), "critique-pass error") {
            out.error += 1;
        } else {
            out.rejected += 1;
        }
        i += 1;
    }
    assert(results@.take(results.len() as int) =~= results@);
    out
}

pub open spec fn spec_source_kind(s: Source) -> Seq<char> {
    match s {
        Source::UserIntent => "user_intent"@,
        Source::AttackCatalog => "attack_catalog"@,
        Source::Conformance => "conformance"@,
        Source::Tests => "tests"@,
        Source::NatSpec => "natspec"@,
        Source::StructuralAnalysis => "structural"@,
    }
}

/// The source label the critique prompt picks its guidance by.
pub fn source_label(candidate: &SpecCandidate) -> (r: &'static str)
    ensures
        r@ == spec_source_kind(candidate.source),
{
    match candidate.source {
        Source::UserIntent => "user_intent",
        Source::AttackCatalog => "attack_catalog",
        Source::Conformance => "conformance",
        Source::Tests => "tests",
        Source::NatSpec => "natspec",
        Source::StructuralAnalysis => "structural",
    }
}

pub open spec fn tests_guidance() -> Seq<char> {
    "The candidate was derived from a Foundry / Halmos test function (Phase 4 §3.4a). Score restate_the_source LOW when the derived intent — or the spec_source itself — is just a literal paraphrase of the test's `assertEq` / `assertTrue` / bare `assert(...)` calls without generalizing across symbolic inputs. A candidate that asserts the SAME concrete check the test does (hardcoded amounts / addresses / single equality, no quantifier) belongs below the threshold. A candidate that generalizes the test (e.g. \"for any amount, transfer preserves totalSupply\" from a single-amount test) belongs at or above the threshold."@
}

pub open spec fn natspec_guidance() -> Seq<char> {
    "The candidate was derived from a NatSpec doc comment (Phase 4 §3.4b). Score restate_the_source LOW when the derived intent — or the spec_source — is just a paraphrase of the doc comment's English without adding verifiable contract-state structure. A candidate that turns `@notice transfers tokens` into `assert(transferHappened)` belongs below the threshold (the spec adds no real state-level check). A candidate that turns the doc comment into a state-level invariant (e.g. \"transfer's accounting preserves totalSupply\") belongs at or above the threshold. `@invariant` and `@custom:security` tags are by-design verbatim invariants; for those, the restate_the_source axis is satisfied as long as the spec_source actually exercises the named state."@
}

pub open spec fn other_guidance() -> Seq<char> {
    "The candidate is not Phase-4-extracted; the restate-the-source axis does not apply. Score restate_the_source = 1.0 unconditionally."@
}

pub open spec fn spec_source_guidance(s: Source) -> Seq<char> {
    match s {
        Source::Tests => tests_guidance(),
        Source::NatSpec => natspec_guidance(),
        _ => other_guidance(),
    }
}

/// How the critic should score restate-the-source for this candidate.
pub fn source_guidance(candidate: &SpecCandidate) -> (r: &'static str)
    ensures
        r@ == spec_source_guidance(candidate.source),
{
    match candidate.source {
        Source::Tests => "The candidate was derived from a Foundry / Halmos test function (Phase 4 §3.4a). Score restate_the_source LOW when the derived intent — or the spec_source itself — is just a literal paraphrase of the test's `assertEq` / `assertTrue` / bare `assert(...)` calls without generalizing across symbolic inputs. A candidate that asserts the SAME concrete check the test does (hardcoded amounts / addresses / single equality, no quantifier) belongs below the threshold. A candidate that generalizes the test (e.g. \"for any amount, transfer preserves totalSupply\" from a single-amount test) belongs at or above the threshold.",
        Source::NatSpec => "The candidate was derived from a NatSpec doc comment (Phase 4 §3.4b). Score restate_the_source LOW when the derived intent — or the spec_source — is just a paraphrase of the doc comment's English without adding verifiable contract-state structure. A candidate that turns `@notice transfers tokens` into `assert(transferHappened)` belongs below the threshold (the spec adds no real state-level check). A candidate that turns the doc comment into a state-level invariant (e.g. \"transfer's accounting preserves totalSupply\") belongs at or above the threshold. `@invariant` and `@custom:security` tags are by-design verbatim invariants; for those, the restate_the_source axis is satisfied as long as the spec_source actually exercises the named state.",
        _ => "The candidate is not Phase-4-extracted; the restate-the-source axis does not apply. Score restate_the_source = 1.0 unconditionally.",
    }
}

/// The description the critic scores against: the given one, trimmed,
/// unless it is missing or blank.
pub open spec fn spec_description(description: Option<Seq<char>>) -> Seq<char> {
    match description {
        Some(d) if spec_trim(d).len() > 0 => spec_trim(d),
        _ => "(none — score against the broader intent)"@,
    }
}

/// Named values the critique prompt is filled with; `min_axis` is the
/// threshold already written with two decimals.
pub fn critique_prompt_vars(
    intent: &str,
    candidate: &SpecCandidate,
    description: Option<&str>,
    min_axis: &str,
) -> (vars: Vec<(String, String)>)
    ensures
        vars.len() == 7,
        vars@[0].0@ == "intent"@ && vars@[0].1@ == intent@,
        vars@[1].0@ == "description"@ && vars@[1].1@ == spec_description(
            match description {
                Some(d) => Some(d@),
                None => None,
            },
        ),
        vars@[2].0@ == "spec_source"@ && vars@[2].1@ == spec_source_blob(
            candidate.halmos@,
            candidate.smtchecker@,
        ),
        vars@[3].0@ == "min_axis"@ && vars@[3].1@ == min_axis@,
        vars@[4].0@ == "source_kind"@ && vars@[4].1@ == spec_source_kind(candidate.source),
        vars@[5].0@ == "source_guidance"@ && vars@[5].1@ == spec_source_guidance(
            candidate.source,
        ),
        vars@[6].0@ == "derived_intent"@ && vars@[6].1@ == match candidate.intent_text {
            Some(t) => t@,
            None => "(none)"@,
        },
{
    let desc = match description {
        Some(d) => {
            let t = crate::text::trim(d);
            if t.as_str().is_empty() {
                String::from_str("(none — score against the broader intent)")
            } else {
                t
            }
        },
        None => String::from_str("(none — score against the broader intent)"),
    };
    let derived = match &candidate.intent_text {
        Some(t) => t.clone(),
        None => String::from_str("(none)"),
    };
    let mut v: Vec<(String, String)> = Vec::new();
    v.push((String::from_str("intent"), String::from_str(intent)));
    v.push((String::from_str("description"), desc));
    v.push((String::from_str("spec_source"), spec_source_blob_of(candidate)));
    v.push((String::from_str("min_axis"), String::from_str(min_axis)));
    v.push((String::from_str("source_kind"), String::from_str(source_label(candidate))));
    v.push((String::from_str("source_guidance"), String::from_str(source_guidance(candidate))));
    v.push((String::from_str("derived_intent"), derived));
    v
}

} // verus!
