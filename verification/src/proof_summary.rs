//! What a run contributes to its `proof.json`: the verified properties and
//! the counterexamples, taken from the run's outcomes. Hashing the sources
//! and writing the artifact are done by the caller.
use vstd::prelude::*;

use crate::cegis::{CandidateOutcome, IterationStats, VerifierVerdict};
use crate::portfolio::{spec_backend_label, backend_label, Verdict};
use crate::report::VerifyReport;
use crate::source::{spec_tier_for_source, tier_for_source, Source, Tier};
use crate::verdict::{PropertyOutcome, PropertyVerdict};

verus! {

/// One verified property of the artifact.
#[derive(Debug, Clone)]
pub struct VerifiedEntry {
    pub name: String,
    pub backend: String,
    /// The text whose digest is recorded as the property's spec hash.
    pub hashed: String,
    pub template_ref: Option<String>,
    pub wall_clock_ms: u64,
    pub smt_query_sha256: Option<String>,
    /// Source and tier, where the run knows them.
    pub provenance: Option<(Source, Tier)>,
}

/// One counterexample of the artifact.
#[derive(Debug, Clone)]
pub struct CounterexampleEntry {
    pub property: String,
    pub backend: String,
    pub cex_file: String,
    pub wall_clock_ms: u64,
    pub trace_summary: String,
}

/// `counterexamples/Cex_{name}.t.sol`.
pub open spec fn spec_cex_file(name: Seq<char>) -> Seq<char> {
    "counterexamples/Cex_"@ + name + ".t.sol"@
}

pub fn cex_file(name: &str) -> (r: String)
    ensures
        r@ == spec_cex_file(name@),
{
    let mut r = String::from_str("counterexamples/Cex_");
    r.append(name);
    r.append(".t.sol");
    r
}

// ---- the properties-file run ----

/// The verified entry of a properties-file property with this verdict.
pub open spec fn phase1_entry_ok(e: VerifiedEntry, p: crate::report::PropertyOutcome) -> bool {
    match p.result.verdict {
        Verdict::Verified { backend, wall_clock_ms, smt_query_sha256 } => {
            &&& e.name == p.name
            &&& e.backend@ == spec_backend_label(backend)
            &&& e.hashed == p.name
            &&& e.template_ref is None
            &&& e.wall_clock_ms == wall_clock_ms
            &&& e.smt_query_sha256 == smt_query_sha256
            &&& e.provenance is None
        },
        _ => false,
    }
}

/// The counterexample entry of a refuted properties-file property.
pub open spec fn phase1_cex_ok(e: CounterexampleEntry, p: crate::report::PropertyOutcome) -> bool {
    match p.result.verdict {
        Verdict::Counterexample { backend, wall_clock_ms, message, .. } => {
            &&& e.property == p.name
            &&& e.backend@ == spec_backend_label(backend)
            &&& e.cex_file@ == spec_cex_file(p.name@)
            &&& e.wall_clock_ms == wall_clock_ms
            &&& e.trace_summary == message
        },
        _ => false,
    }
}

pub open spec fn is_verified_result(p: crate::report::PropertyOutcome) -> bool {
    p.result.verdict is Verified
}

pub open spec fn is_cex_result(p: crate::report::PropertyOutcome) -> bool {
    p.result.verdict is Counterexample
}

/// The properties with a verdict of the given kind, in order.
pub open spec fn results_where(
    ps: Seq<crate::report::PropertyOutcome>,
    verified: bool,
) -> Seq<crate::report::PropertyOutcome>
    decreases ps.len(),
{
    if ps.len() == 0 {
        Seq::empty()
    } else if (verified && is_verified_result(ps.last())) || (!verified && is_cex_result(ps.last())) {
        results_where(ps.drop_last(), verified).push(ps.last())
    } else {
        results_where(ps.drop_last(), verified)
    }
}

/// Wall-clock time of a result: that of its verdict when definitive, else
/// zero.
pub open spec fn result_ms(p: crate::report::PropertyOutcome) -> int {
    match p.result.verdict {
        Verdict::Verified { wall_clock_ms, .. } => wall_clock_ms as int,
        Verdict::Counterexample { wall_clock_ms, .. } => wall_clock_ms as int,
        _ => 0,
    }
}

pub open spec fn results_ms(ps: Seq<crate::report::PropertyOutcome>) -> int
    decreases ps.len(),
{
    if ps.len() == 0 {
        0
    } else {
        results_ms(ps.drop_last()) + result_ms(ps.last())
    }
}

proof fn lemma_results_ms_prefix(ps: Seq<crate::report::PropertyOutcome>, n: int)
    requires
        0 <= n <= ps.len(),
    ensures
        results_ms(ps.take(n)) <= results_ms(ps),
    decreases ps.len(),
{
    if n < ps.len() {
        assert(ps.drop_last().take(n) =~= ps.take(n));
        lemma_results_ms_prefix(ps.drop_last(), n);
    } else {
        assert(ps.take(n) =~= ps);
    }
}

/// The artifact entries of a properties-file run: one verified entry per
/// verified property (its name as the hashed spec), one counterexample
/// entry per refuted one, and the total wall-clock time of the definitive
/// verdicts.
pub fn phase1_entries(report: &VerifyReport) -> (r: (Vec<VerifiedEntry>, Vec<CounterexampleEntry>, u64))
    requires
        results_ms(report.properties@) <= u64::MAX,
    ensures
        r.0.len() == results_where(report.properties@, true).len(),
        forall|i: int| 0 <= i < r.0.len() ==> phase1_entry_ok(#[trigger] r.0@[i], results_where(report.properties@, true)[i]),
        r.1.len() == results_where(report.properties@, false).len(),
        forall|i: int|
            0 <= i < r.1.len() ==> phase1_cex_ok(#[trigger] r.1@[i], results_where(report.properties@, false)[i]),
        r.2 == results_ms(report.properties@),
{
    let ps = &report.properties;
    let mut verified: Vec<VerifiedEntry> = Vec::new();
    let mut cexs: Vec<CounterexampleEntry> = Vec::new();
    let mut ms: u64 = 0;
    let mut i: usize = 0;
    while i < ps.len()
        invariant
            i <= ps.len(),
            results_ms(ps@) <= u64::MAX,
            verified.len() == results_where(ps@.take(i as int), true).len(),
            forall|k: int| 0 <= k < verified.len() ==> phase1_entry_ok(#[trigger] verified@[k], results_where(ps@.take(i as int), true)[k]),
            cexs.len() == results_where(ps@.take(i as int), false).len(),
            forall|k: int|
                0 <= k < cexs.len() ==> phase1_cex_ok(#[trigger] cexs@[k], results_where(ps@.take(i as int), false)[k]),
            ms == results_ms(ps@.take(i as int)),
        decreases ps.len() - i,
    {
        proof {
            let t = ps@.take(i + 1);
            assert(t.drop_last() =~= ps@.take(i as int));
            assert(t.last() == ps@[i as int]);
            lemma_results_ms_prefix(ps@, i + 1);
        }
        let p = &ps[i];
        match &p.result.verdict {
            Verdict::Verified { backend, wall_clock_ms, smt_query_sha256 } => {
                verified.push(
                    VerifiedEntry {
                        name: p.name.clone(),
                        backend: backend_label(*backend),
                        hashed: p.name.clone(),
                        template_ref: None,
                        wall_clock_ms: *wall_clock_ms,
                        smt_query_sha256: crate::portfolio::copy_opt_string(smt_query_sha256),
                        provenance: None,
                    },
                );
                ms = ms + *wall_clock_ms;
            },
            Verdict::Counterexample { backend, wall_clock_ms, message, .. } => {
                cexs.push(
                    CounterexampleEntry {
                        property: p.name.clone(),
                        backend: backend_label(*backend),
                        cex_file: cex_file(p.name.as_str()),
                        wall_clock_ms: *wall_clock_ms,
                        trace_summary: message.clone(),
                    },
                );
                ms = ms + *wall_clock_ms;
            },
            _ => {},
        }
        i += 1;
    }
    assert(ps@.take(ps.len() as int) =~= ps@);
    (verified, cexs, ms)
}

// ---- the intent (CEGIS) run ----

/// Total wall-clock time of the iterations.
pub open spec fn iterations_ms(its: Seq<IterationStats>) -> int
    decreases its.len(),
{
    if its.len() == 0 {
        0
    } else {
        iterations_ms(its.drop_last()) + its.last().wall_clock_ms
    }
}

pub fn total_wall_clock(iterations: &Vec<IterationStats>) -> (r: u64)
    requires
        iterations_ms(iterations@) <= u64::MAX,
    ensures
        r == iterations_ms(iterations@),
{
    let mut total: u64 = 0;
    let mut i: usize = 0;
    while i < iterations.len()
        invariant
            i <= iterations.len(),
            total == iterations_ms(iterations@.take(i as int)),
            iterations_ms(iterations@) <= u64::MAX,
        decreases iterations.len() - i,
    {
        proof {
            let t = iterations@.take(i + 1);
            assert(t.drop_last() =~= iterations@.take(i as int));
            lemma_iterations_ms_prefix(iterations@, i + 1);
        }
        total = total + iterations[i].wall_clock_ms;
        i += 1;
    }
    assert(iterations@.take(iterations.len() as int) =~= iterations@);
    total
}

proof fn lemma_iterations_ms_prefix(its: Seq<IterationStats>, n: int)
    requires
        0 <= n <= its.len(),
    ensures
        iterations_ms(its.take(n)) <= iterations_ms(its),
    decreases its.len(),
{
    if n < its.len() {
        assert(its.drop_last().take(n) =~= its.take(n));
        lemma_iterations_ms_prefix(its.drop_last(), n);
    } else {
        assert(its.take(n) =~= its);
    }
}

pub open spec fn outcome_verified(o: CandidateOutcome) -> bool {
    o.verifier_verdict is Verified
}

pub open spec fn outcome_cex(o: CandidateOutcome) -> bool {
    o.verifier_verdict is Counterexample
}

/// The outcomes of the given kind (verified or counterexample), in order.
pub open spec fn outcomes_where(os: Seq<CandidateOutcome>, verified: bool) -> Seq<CandidateOutcome>
    decreases os.len(),
{
    if os.len() == 0 {
        Seq::empty()
    } else if (verified && outcome_verified(os.last())) || (!verified && outcome_cex(os.last())) {
        outcomes_where(os.drop_last(), verified).push(os.last())
    } else {
        outcomes_where(os.drop_last(), verified)
    }
}

/// The verified entry of a verified CEGIS outcome: its Halmos source is
/// the hashed spec, and the time is the whole run's.
pub open spec fn cegis_entry_ok(e: VerifiedEntry, o: CandidateOutcome, total_ms: u64) -> bool {
    match o.verifier_verdict {
        VerifierVerdict::Verified { backend, smt_query_sha256 } => {
            &&& e.name == o.candidate.name
            &&& e.backend == backend
            &&& e.hashed == o.candidate.halmos
            &&& e.template_ref == o.candidate.template_ref
            &&& e.wall_clock_ms == total_ms
            &&& e.smt_query_sha256 == smt_query_sha256
            &&& e.provenance == Some((o.candidate.source, spec_tier_for_source(o.candidate.source)))
        },
        _ => false,
    }
}

/// The counterexample entry of a refuted CEGIS outcome.
pub open spec fn cegis_cex_ok(e: CounterexampleEntry, o: CandidateOutcome) -> bool {
    match o.verifier_verdict {
        VerifierVerdict::Counterexample { message } => {
            &&& e.property == o.candidate.name
            &&& e.backend@ == "halmos"@
            &&& e.cex_file@ == spec_cex_file(o.candidate.name@)
            &&& e.wall_clock_ms == 0
            &&& e.trace_summary == message
        },
        _ => false,
    }
}

/// The artifact entries of a CEGIS run: one verified entry per verified
/// outcome, and one counterexample entry (Halmos, no time recorded) per
/// refuted one.
pub fn cegis_entries(outcomes: &Vec<CandidateOutcome>, total_ms: u64) -> (r: (
    Vec<VerifiedEntry>,
    Vec<CounterexampleEntry>,
))
    ensures
        r.0.len() == outcomes_where(outcomes@, true).len(),
        forall|i: int| 0 <= i < r.0.len() ==> cegis_entry_ok(#[trigger] r.0@[i], outcomes_where(outcomes@, true)[i], total_ms),
        r.1.len() == outcomes_where(outcomes@, false).len(),
        forall|i: int|
            0 <= i < r.1.len() ==> cegis_cex_ok(#[trigger] r.1@[i], outcomes_where(outcomes@, false)[i]),
{
    let mut verified: Vec<VerifiedEntry> = Vec::new();
    let mut cexs: Vec<CounterexampleEntry> = Vec::new();
    let mut i: usize = 0;
    while i < outcomes.len()
        invariant
            i <= outcomes.len(),
            verified.len() == outcomes_where(outcomes@.take(i as int), true).len(),
            forall|k: int| 0 <= k < verified.len() ==> cegis_entry_ok(#[trigger] verified@[k], outcomes_where(outcomes@.take(i as int), true)[k], total_ms),
            cexs.len() == outcomes_where(outcomes@.take(i as int), false).len(),
            forall|k: int|
                0 <= k < cexs.len() ==> cegis_cex_ok(#[trigger] cexs@[k], outcomes_where(outcomes@.take(i as int), false)[k]),
        decreases outcomes.len() - i,
    {
        proof {
            let t = outcomes@.take(i + 1);
            assert(t.drop_last() =~= outcomes@.take(i as int));
            assert(t.last() == outcomes@[i as int]);
        }
        let o = &outcomes[i];
        match &o.verifier_verdict {
            VerifierVerdict::Verified { backend, smt_query_sha256 } => {
                verified.push(
                    VerifiedEntry {
                        name: o.candidate.name.clone(),
                        backend: backend.clone(),
                        hashed: o.candidate.halmos.clone(),
                        template_ref: crate::portfolio::copy_opt_string(&o.candidate.template_ref),
                        wall_clock_ms: total_ms,
                        smt_query_sha256: crate::portfolio::copy_opt_string(smt_query_sha256),
                        provenance: Some((o.candidate.source, tier_for_source(o.candidate.source))),
                    },
                );
            },
            VerifierVerdict::Counterexample { message } => {
                cexs.push(
                    CounterexampleEntry {
                        property: o.candidate.name.clone(),
                        backend: String::from_str("halmos"),
                        cex_file: cex_file(o.candidate.name.as_str()),
                        wall_clock_ms: 0,
                        trace_summary: message.clone(),
                    },
                );
            },
            _ => {},
        }
        i += 1;
    }
    assert(outcomes@.take(outcomes.len() as int) =~= outcomes@);
    (verified, cexs)
}

// ---- the unified run ----

pub open spec fn property_verified(p: PropertyOutcome) -> bool {
    p.verdict is Verified
}

pub open spec fn properties_verified(ps: Seq<PropertyOutcome>) -> Seq<PropertyOutcome>
    decreases ps.len(),
{
    if ps.len() == 0 {
        Seq::empty()
    } else if property_verified(ps.last()) {
        properties_verified(ps.drop_last()).push(ps.last())
    } else {
        properties_verified(ps.drop_last())
    }
}

pub open spec fn unified_entry_ok(e: VerifiedEntry, p: PropertyOutcome) -> bool {
    match p.verdict {
        PropertyVerdict::Verified { backend, smt_query_sha256 } => {
            &&& e.name == p.name
            &&& e.backend == backend
            &&& e.hashed == p.name
            &&& e.template_ref == p.template_ref
            &&& e.wall_clock_ms == 0
            &&& e.smt_query_sha256 == smt_query_sha256
            &&& e.provenance == Some((p.source, p.tier))
        },
        _ => false,
    }
}

/// The verified entries of a unified run, one per verified property.
pub fn unified_entries(outcomes: &Vec<PropertyOutcome>) -> (r: Vec<VerifiedEntry>)
    ensures
        r.len() == properties_verified(outcomes@).len(),
        forall|i: int| 0 <= i < r.len() ==> unified_entry_ok(#[trigger] r@[i], properties_verified(outcomes@)[i]),
{
    let mut out: Vec<VerifiedEntry> = Vec::new();
    let mut i: usize = 0;
    while i < outcomes.len()
        invariant
            i <= outcomes.len(),
            out.len() == properties_verified(outcomes@.take(i as int)).len(),
            forall|k: int| 0 <= k < out.len() ==> unified_entry_ok(#[trigger] out@[k], properties_verified(outcomes@.take(i as int))[k]),
        decreases outcomes.len() - i,
    {
        proof {
            let t = outcomes@.take(i + 1);
            assert(t.drop_last() =~= outcomes@.take(i as int));
            assert(t.last() == outcomes@[i as int]);
        }
        let p = &outcomes[i];
        match &p.verdict {
            PropertyVerdict::Verified { backend, smt_query_sha256 } => {
                out.push(
                    VerifiedEntry {
                        name: p.name.clone(),
                        backend: backend.clone(),
                        hashed: p.name.clone(),
                        template_ref: crate::portfolio::copy_opt_string(&p.template_ref),
                        wall_clock_ms: 0,
                        smt_query_sha256: crate::portfolio::copy_opt_string(smt_query_sha256),
                        provenance: Some((p.source, p.tier)),
                    },
                );
            },
            _ => {},
        }
        i += 1;
    }
    assert(outcomes@.take(outcomes.len() as int) =~= outcomes@);
    out
}

} // verus!
