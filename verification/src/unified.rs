//! The unified verify run's decisions: which activated templates stay,
//! which confirmed intents are dispatched, what each dispatch becomes in
//! the verdict, and the run's exit code. The oracles, the confirmation prompts and
//! the solvers are outside work.
use vstd::prelude::*;

use crate::catalog_intent::{DecidabilityKind, TemplateInfo};
use crate::cegis::VerifierVerdict;
use crate::confirm::{spec_source_wire, source_wire, ProposedIntent};
use crate::fingerprint::AvailableOracles;
use crate::source::{spec_tier_for_source, tier_for_source};
use crate::synthesis::SpecCandidate;
use crate::verdict::{
    AvailableOraclesSummary, DocumentOnlyTemplate, FingerprintSummary, Headline, PropertyOutcome,
    PropertyVerdict, SkippedTemplateSummary,
};

verus! {

/// Options of a unified verify run.
#[derive(Debug, Clone)]
pub struct UnifiedVerifyArgs {
    pub project: String,
    pub scaffold_override: Option<String>,
    pub no_tests: bool,
    pub no_natspec: bool,
    /// Catalog categories to keep; empty keeps every applicable one.
    pub catalog_categories: Vec<String>,
    pub auto_confirm: bool,
    pub resume: bool,
    pub list_applicable: bool,
    pub telemetry_json: Option<String>,
    pub tenant_id: String,
    /// Per-dispatch budget, in milliseconds.
    pub dispatch_budget_ms: u64,
}

impl Default for UnifiedVerifyArgs {
    fn default() -> (r: UnifiedVerifyArgs)
        ensures
            r.project@.len() == 0,
            r.scaffold_override is None,
            !r.no_tests && !r.no_natspec && !r.auto_confirm && !r.resume && !r.list_applicable,
            r.catalog_categories@.len() == 0,
            r.telemetry_json is None,
            r.tenant_id@ == "internal"@,
            r.dispatch_budget_ms == 120_000,
    {
        UnifiedVerifyArgs {
            project: String::new(),
            scaffold_override: None,
            no_tests: false,
            no_natspec: false,
            catalog_categories: Vec::new(),
            auto_confirm: false,
            resume: false,
            list_applicable: false,
            telemetry_json: None,
            tenant_id: String::from_str("internal"),
            dispatch_budget_ms: 120_000,
        }
    }
}

/// Why a unified run stopped short of a verdict; each carries the
/// underlying message.
#[derive(Debug)]
pub enum UnifiedVerifyError {
    BadProject(String),
    Fingerprint(String),
    Catalog(String),
    ProviderInit(String),
    Synthesis(String),
    Scaffold(String),
    Io(String),
    Confirm(String),
    Serialize(String),
    Telemetry(String),
}

pub open spec fn spec_unified_error_message(e: UnifiedVerifyError) -> Seq<char> {
    match e {
        UnifiedVerifyError::BadProject(m) => "invalid project: "@ + m@,
        UnifiedVerifyError::Fingerprint(m) => "fingerprint: "@ + m@,
        UnifiedVerifyError::Catalog(m) => "catalog load: "@ + m@,
        UnifiedVerifyError::ProviderInit(m) => "provider init: "@ + m@,
        UnifiedVerifyError::Synthesis(m) => "synthesis: "@ + m@,
        UnifiedVerifyError::Scaffold(m) => "scaffold: "@ + m@,
        UnifiedVerifyError::Io(m) => "io: "@ + m@,
        UnifiedVerifyError::Confirm(m) => "confirm gate: "@ + m@,
        UnifiedVerifyError::Serialize(m) => "serialize: "@ + m@,
        UnifiedVerifyError::Telemetry(m) => "telemetry sink: "@ + m@,
    }
}

impl UnifiedVerifyError {
    /// Every pipeline error exits with 3.
    pub fn exit_code(&self) -> (r: u8)
        ensures
            r == 3,
    {
        3
    }

    /// The error's message.
    pub fn message(&self) -> (r: String)
        ensures
            r@ == spec_unified_error_message(*self),
    {
        let (p, m) = match self {
            UnifiedVerifyError::BadProject(m) => ("invalid project: ", m),
            UnifiedVerifyError::Fingerprint(m) => ("fingerprint: ", m),
            UnifiedVerifyError::Catalog(m) => ("catalog load: ", m),
            UnifiedVerifyError::ProviderInit(m) => ("provider init: ", m),
            UnifiedVerifyError::Synthesis(m) => ("synthesis: ", m),
            UnifiedVerifyError::Scaffold(m) => ("scaffold: ", m),
            UnifiedVerifyError::Io(m) => ("io: ", m),
            UnifiedVerifyError::Confirm(m) => ("confirm gate: ", m),
            UnifiedVerifyError::Serialize(m) => ("serialize: ", m),
            UnifiedVerifyError::Telemetry(m) => ("telemetry sink: ", m),
        };
        let mut r = String::from_str(p);
        r.append(m.as_str());
        r
    }
}

/// What a unified run reports.
#[derive(Debug)]
pub enum RunReport {
    /// `--list-applicable`: nothing was verified.
    ListApplicable {
        project_path: String,
        fingerprint: FingerprintSummary,
        activated: usize,
        skipped: usize,
    },
    /// A verdict was formatted.
    Verdict {
        project_path: String,
        headline: Headline,
        outcomes: Vec<PropertyOutcome>,
        report_md_path: String,
        proof_json_path: String,
    },
}

/// 0 for a listing or a Verified-in-scope verdict, 1 for Refuted; an
/// Incomplete verdict gives 3 when some property errored and 2 otherwise.
pub open spec fn spec_run_exit_code(r: RunReport) -> u8 {
    match r {
        RunReport::ListApplicable { .. } => 0,
        RunReport::Verdict { headline, outcomes, .. } => match headline {
            Headline::Refuted => 1,
            Headline::VerifiedInScope => 0,
            Headline::Incomplete => if exists|i: int|
                0 <= i < outcomes.len() && (#[trigger] outcomes@[i]).verdict is Error {
                3
            } else {
                2
            },
        },
    }
}

fn any_error(outcomes: &Vec<PropertyOutcome>) -> (b: bool)
    ensures
        b == exists|i: int| 0 <= i < outcomes.len() && (#[trigger] outcomes@[i]).verdict is Error,
{
    let mut i: usize = 0;
    while i < outcomes.len()
        invariant
            i <= outcomes.len(),
            forall|k: int| 0 <= k < i ==> !((#[trigger] outcomes@[k]).verdict is Error),
        decreases outcomes.len() - i,
    {
        match &outcomes[i].verdict {
            PropertyVerdict::Error { .. } => {
                assert(outcomes@[i as int].verdict is Error);
                return true;
            },
            _ => {},
        }
        i += 1;
    }
    false
}

impl RunReport {
    /// The process exit code of the run.
    pub fn exit_code(&self) -> (r: u8)
        ensures
            r == spec_run_exit_code(*self),
    {
        match self {
            RunReport::ListApplicable { .. } => 0,
            RunReport::Verdict { headline, outcomes, .. } => match headline {
                Headline::Refuted => 1,
                Headline::VerifiedInScope => 0,
                Headline::Incomplete => if any_error(outcomes) {
                    3
                } else {
                    2
                },
            },
        }
    }
}

/// The key a candidate is confirmed under: `{source wire name}:{name}`.
pub open spec fn spec_candidate_id(c: SpecCandidate) -> Seq<char> {
    spec_source_wire(c.source) + ":"@ + c.name@
}

pub fn candidate_id(c: &SpecCandidate) -> (r: String)
    ensures
        r@ == spec_candidate_id(*c),
{
    let mut r = String::from_str(source_wire(c.source));
    r.append(":");
    r.append(c.name.as_str());
    r
}

/// The intent a kept candidate proposes for confirmation; `confidence` is the
/// critique's lowest axis, already written out.
pub fn spec_to_proposed(c: &SpecCandidate, rationale: &String, confidence: String) -> (r:
    ProposedIntent)
    ensures
        r.id@ == spec_candidate_id(*c),
        r.source == c.source,
        r.intent_text == match c.intent_text {
            Some(t) => t,
            None => c.name,
        },
        r.rationale == *rationale,
        r.confidence == confidence,
        r.template_ref == c.template_ref,
{
    ProposedIntent {
        id: candidate_id(c),
        source: c.source,
        intent_text: match &c.intent_text {
            Some(t) => t.clone(),
            None => c.name.clone(),
        },
        rationale: rationale.clone(),
        confidence,
        template_ref: crate::portfolio::copy_opt_string(&c.template_ref),
    }
}

/// The candidate confirmed under `id`: when several share it, the last
/// one, as a map keyed by id keeps it.
pub fn find_candidate(kept: &Vec<SpecCandidate>, id: &String) -> (r: Option<usize>)
    ensures
        r matches Some(k) ==> k < kept.len() && spec_candidate_id(kept@[k as int]) == id@ && forall|
            j: int,
        |
            k < j < kept.len() ==> spec_candidate_id(#[trigger] kept@[j]) != id@,
        r is None ==> forall|j: int| 0 <= j < kept.len() ==> spec_candidate_id(#[trigger] kept@[j]) != id@,
{
    let mut i = kept.len();
    while i > 0
        invariant
            i <= kept.len(),
            forall|j: int| i <= j < kept.len() ==> spec_candidate_id(#[trigger] kept@[j]) != id@,
        decreases i,
    {
        i -= 1;
        let cid = candidate_id(&kept[i]);
        if cid == *id {
            return Some(i);
        }
    }
    None
}

/// The verdict entry of a dispatched candidate: the verifier's verdict
/// mapped onto the report's (a counterexample points at its `Cex_` file,
/// a verifier that never ran is Unknown), with the candidate's
/// provenance and its intent, or the proposed one.
pub fn build_outcome(candidate: &SpecCandidate, intent: &ProposedIntent, verdict: &VerifierVerdict) -> (r:
    PropertyOutcome)
    ensures
        r.name == candidate.name,
        r.source == candidate.source,
        r.tier == spec_tier_for_source(candidate.source),
        r.template_ref == candidate.template_ref,
        r.intent_text == match candidate.intent_text {
            Some(t) => Some(t),
            None => Some(intent.intent_text),
        },
        match *verdict {
            VerifierVerdict::Verified { backend, smt_query_sha256 } => r.verdict
                == (PropertyVerdict::Verified { backend, smt_query_sha256 }),
            VerifierVerdict::Counterexample { message } => r.verdict matches PropertyVerdict::Refuted {
                backend: b,
                cex_file,
                trace_summary,
            } && b@ == "halmos"@ && cex_file@ == "vergil-out/counterexamples/Cex_"@
                + candidate.name@ + ".t.sol"@ && trace_summary == message,
            VerifierVerdict::Unknown { detail } => r.verdict == (PropertyVerdict::Unknown {
                detail,
                frontier_over_approximation: None,
            }),
            VerifierVerdict::Error { detail } => r.verdict == (PropertyVerdict::Error { detail }),
            VerifierVerdict::NotRun => r.verdict matches PropertyVerdict::Unknown {
                detail,
                frontier_over_approximation: None,
            } && detail@ == "verifier did not run"@,
        },
{
    let pv = match verdict {
        VerifierVerdict::Verified { backend, smt_query_sha256 } => PropertyVerdict::Verified {
            backend: backend.clone(),
            smt_query_sha256: crate::portfolio::copy_opt_string(smt_query_sha256),
        },
        VerifierVerdict::Counterexample { message } => {
            let mut f = String::from_str("vergil-out/counterexamples/Cex_");
            f.append(candidate.name.as_str());
            f.append(".t.sol");
            PropertyVerdict::Refuted {
                backend: String::from_str("halmos"),
                cex_file: f,
                trace_summary: message.clone(),
            }
        },
        VerifierVerdict::Unknown { detail } => PropertyVerdict::Unknown {
            detail: detail.clone(),
            frontier_over_approximation: None,
        },
        VerifierVerdict::Error { detail } => PropertyVerdict::Error { detail: detail.clone() },
        VerifierVerdict::NotRun => PropertyVerdict::Unknown {
            detail: String::from_str("verifier did not run"),
            frontier_over_approximation: None,
        },
    };
    PropertyOutcome {
        name: candidate.name.clone(),
        source: candidate.source,
        tier: tier_for_source(candidate.source),
        verdict: pv,
        template_ref: crate::portfolio::copy_opt_string(&candidate.template_ref),
        intent_text: match &candidate.intent_text {
            Some(t) => Some(t.clone()),
            None => Some(intent.intent_text.clone()),
        },
    }
}

/// The verdict entry of an intent the user edited: its synthesized check
/// no longer matches, so it is Unknown rather than a misleading proof.
pub fn edited_outcome(candidate: &SpecCandidate, new_text: &String) -> (r: PropertyOutcome)
    ensures
        r.name == candidate.name,
        r.source == candidate.source,
        r.tier == spec_tier_for_source(candidate.source),
        r.template_ref == candidate.template_ref,
        r.intent_text == Some(*new_text),
        r.verdict matches PropertyVerdict::Unknown { detail, frontier_over_approximation: None }
            && detail@ == "intent edited at Stage 2 (new text: '"@ + new_text@
            + "'); re-synthesis not yet wired"@,
{
    let mut d = String::from_str("intent edited at Stage 2 (new text: '");
    d.append(new_text.as_str());
    d.append("'); re-synthesis not yet wired");
    PropertyOutcome {
        name: candidate.name.clone(),
        source: candidate.source,
        tier: tier_for_source(candidate.source),
        verdict: PropertyVerdict::Unknown { detail: d, frontier_over_approximation: None },
        template_ref: crate::portfolio::copy_opt_string(&candidate.template_ref),
        intent_text: Some(new_text.clone()),
    }
}

/// The placeholder counterexample file written when a property is refuted.
pub fn render_simple_cex(property: &str, message: &str) -> (r: String)
    ensures
        r@ == "// SPDX-License-Identifier: UNLICENSED\npragma solidity ^0.8.20;\n\n// Counterexample for "@
            + property@ + ".\n// Trace: "@ + message@
            + "\n//\n// This is a minimal placeholder. Slice 8 emits the file at the moment\n// of refutation; Slice 11 will render the full Halmos trace.\n\ncontract Cex_"@
            + property@ + " {}\n"@,
{
    let mut r = String::from_str(
        "// SPDX-License-Identifier: UNLICENSED\npragma solidity ^0.8.20;\n\n// Counterexample for ",
    );
    r.append(property);
    r.append(".\n// Trace: ");
    r.append(message);
    r.append(
        "\n//\n// This is a minimal placeholder. Slice 8 emits the file at the moment\n// of refutation; Slice 11 will render the full Halmos trace.\n\ncontract Cex_",
    );
    r.append(property);
    r.append(" {}\n");
    r
}

/// The oracles need a model when a template activated, or an enabled
/// oracle has input.
pub fn needs_llm(
    activated: usize,
    no_tests: bool,
    tests_available: bool,
    no_natspec: bool,
    natspec_available: bool,
) -> (r: bool)
    ensures
        r == (activated > 0 || (!no_tests && tests_available) || (!no_natspec
            && natspec_available)),
{
    activated > 0 || (!no_tests && tests_available) || (!no_natspec && natspec_available)
}

/// The fingerprint as the verdict header shows it.
pub fn fingerprint_summary(
    interfaces: &Vec<String>,
    primitives: &Vec<String>,
    oracles: &AvailableOracles,
) -> (r: FingerprintSummary)
    ensures
        r.interfaces@ == interfaces@,
        r.primitives@ == primitives@,
        r.available_oracles.tests == oracles.tests,
        r.available_oracles.natspec == oracles.natspec,
        r.available_oracles.readme == (oracles.readme is Some),
{
    FingerprintSummary {
        interfaces: interfaces.clone(),
        primitives: primitives.clone(),
        available_oracles: AvailableOraclesSummary {
            tests: oracles.tests,
            natspec: oracles.natspec,
            readme: oracles.readme.is_some(),
        },
    }
}

/// Some category in `cats` is `c`.
pub open spec fn in_categories(cats: Seq<String>, c: Seq<char>) -> bool {
    exists|i: int| 0 <= i < cats.len() && (#[trigger] cats[i])@ == c
}

/// The templates of the selected categories, in order.
pub open spec fn spec_kept_categories(ts: Seq<TemplateInfo>, cats: Seq<String>) -> Seq<TemplateInfo>
    decreases ts.len(),
{
    if ts.len() == 0 {
        Seq::empty()
    } else if in_categories(cats, ts.last().category@) {
        spec_kept_categories(ts.drop_last(), cats).push(ts.last())
    } else {
        spec_kept_categories(ts.drop_last(), cats)
    }
}

/// The ids of the other templates, with the reason each was skipped.
pub open spec fn spec_skipped_categories(ts: Seq<TemplateInfo>, cats: Seq<String>) -> Seq<
    (Seq<char>, Seq<char>),
>
    decreases ts.len(),
{
    if ts.len() == 0 {
        Seq::empty()
    } else if in_categories(cats, ts.last().category@) {
        spec_skipped_categories(ts.drop_last(), cats)
    } else {
        spec_skipped_categories(ts.drop_last(), cats).push(
            (ts.last().id@, "category "@ + ts.last().category@ + " not in --catalog-subset"@),
        )
    }
}

pub open spec fn skipped_views(xs: Seq<SkippedTemplateSummary>) -> Seq<(Seq<char>, Seq<char>)> {
    xs.map_values(|x: SkippedTemplateSummary| (x.id@, x.reason@))
}

/// Keeps the templates of the given categories, in order; each other one
/// becomes a skipped entry saying its category was not selected.
pub fn filter_by_category(templates: Vec<TemplateInfo>, categories: &Vec<String>) -> (r: (
    Vec<TemplateInfo>,
    Vec<SkippedTemplateSummary>,
))
    ensures
        r.0@ == spec_kept_categories(templates@, categories@),
        skipped_views(r.1@) == spec_skipped_categories(templates@, categories@),
{
    let mut kept: Vec<TemplateInfo> = Vec::new();
    let mut skipped: Vec<SkippedTemplateSummary> = Vec::new();
    let mut i: usize = 0;
    while i < templates.len()
        invariant
            i <= templates.len(),
            kept@ == spec_kept_categories(templates@.take(i as int), categories@),
            skipped_views(skipped@) == spec_skipped_categories(templates@.take(i as int), categories@),
        decreases templates.len() - i,
    {
        proof {
            let t = templates@.take(i + 1);
            assert(t.drop_last() =~= templates@.take(i as int));
            assert(t.last() == templates@[i as int]);
        }
        let t = &templates[i];
        let mut found = false;
        let mut c: usize = 0;
        while c < categories.len()
            invariant
                c <= categories.len(),
                found == exists|k: int| 0 <= k < c && (#[trigger] categories@[k])@ == t.category@,
            decreases categories.len() - c,
        {
            if categories[c] == t.category {
                found = true;
            }
            c += 1;
        }
        if found {
            kept.push(t.duplicate());
        } else {
            let mut reason = String::from_str("category ");
            reason.append(t.category.as_str());
            reason.append(" not in --catalog-subset");
            let s = SkippedTemplateSummary { id: t.id.clone(), reason };
            let ghost before = skipped@;
            skipped.push(s);
            assert(skipped_views(skipped@) =~= skipped_views(before).push((s.id@, s.reason@)));
        }
        i += 1;
    }
    assert(templates@.take(templates.len() as int) =~= templates@);
    (kept, skipped)
}

/// The templates that ship no encoding, in order.
pub open spec fn spec_document_only(ts: Seq<TemplateInfo>) -> Seq<(Seq<char>, Seq<char>)>
    decreases ts.len(),
{
    if ts.len() == 0 {
        Seq::empty()
    } else if ts.last().decidability == DecidabilityKind::DocumentOnly {
        spec_document_only(ts.drop_last()).push((ts.last().id@, ts.last().name@))
    } else {
        spec_document_only(ts.drop_last())
    }
}

pub open spec fn document_views(xs: Seq<DocumentOnlyTemplate>) -> Seq<(Seq<char>, Seq<char>)> {
    xs.map_values(|x: DocumentOnlyTemplate| (x.id@, x.name@))
}

/// The activated templates that ship no encoding, as the verdict lists
/// them.
pub fn collect_document_only_templates(templates: &Vec<TemplateInfo>) -> (r: Vec<
    DocumentOnlyTemplate,
>)
    ensures
        document_views(r@) == spec_document_only(templates@),
{
    let mut out: Vec<DocumentOnlyTemplate> = Vec::new();
    let mut i: usize = 0;
    while i < templates.len()
        invariant
            i <= templates.len(),
            document_views(out@) == spec_document_only(templates@.take(i as int)),
        decreases templates.len() - i,
    {
        proof {
            let t = templates@.take(i + 1);
            assert(t.drop_last() =~= templates@.take(i as int));
            assert(t.last() == templates@[i as int]);
        }
        if templates[i].decidability == DecidabilityKind::DocumentOnly {
            let d = DocumentOnlyTemplate {
                id: templates[i].id.clone(),
                name: templates[i].name.clone(),
            };
            let ghost before = out@;
            out.push(d);
            assert(document_views(out@) =~= document_views(before).push((d.id@, d.name@)));
        }
        i += 1;
    }
    assert(templates@.take(templates.len() as int) =~= templates@);
    out
}

} // verus!
