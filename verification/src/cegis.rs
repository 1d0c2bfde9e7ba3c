//! The CEGIS outer loop as a state machine.
//!
//! Each iteration synthesizes candidates, critiques them, gates them on
//! mutation coverage, dispatches the survivors to the verifiers and, when
//! nothing verified, diagnoses the latest counterexample and repairs the
//! code or refines the spec before trying again. The model calls, the
//! verifier runs and the cost estimate are outside work: [`CegisState::step`]
//! takes what one of them produced and says what to do next.
//!
//! What the machine keeps:
//! - at most `max_iterations` iterations are recorded;
//! - outcomes are only ever appended;
//! - the run stops with `"verified"` exactly when some outcome verified,
//!   and no state that is still running holds a verified outcome;
//! - diagnosis always targets the most recent counterexample.
use vstd::prelude::*;

use crate::diagnosis::DiagnosisClass;
use crate::synthesis::SpecCandidate;
use crate::text::decimal;

verus! {

/// What the verifiers said about one candidate.
#[derive(Debug, Clone)]
pub enum VerifierVerdict {
    NotRun,
    Verified {
        /// Backend that produced the verdict, as a lowercase label.
        backend: String,
        /// Digest of the SMT query the winning backend dumped, if any.
        smt_query_sha256: Option<String>,
    },
    Counterexample { message: String },
    Unknown { detail: String },
    Error { detail: String },
}

impl VerifierVerdict {
    /// `Verified` by Halmos, with no captured query.
    pub fn verified() -> (r: VerifierVerdict)
        ensures
            r matches VerifierVerdict::Verified { backend, smt_query_sha256 } && backend@
                == "halmos"@ && smt_query_sha256 is None,
    {
        VerifierVerdict::Verified { backend: String::from_str("halmos"), smt_query_sha256: None }
    }

    /// A copy equal to `self`.
    pub fn duplicate(&self) -> (r: VerifierVerdict)
        ensures
            r == *self,
    {
        match self {
            VerifierVerdict::NotRun => VerifierVerdict::NotRun,
            VerifierVerdict::Verified { backend, smt_query_sha256 } => VerifierVerdict::Verified {
                backend: backend.clone(),
                smt_query_sha256: crate::portfolio::copy_opt_string(smt_query_sha256),
            },
            VerifierVerdict::Counterexample { message } => VerifierVerdict::Counterexample {
                message: message.clone(),
            },
            VerifierVerdict::Unknown { detail } => VerifierVerdict::Unknown {
                detail: detail.clone(),
            },
            VerifierVerdict::Error { detail } => VerifierVerdict::Error { detail: detail.clone() },
        }
    }
}

/// Counters for one iteration of the loop.
#[derive(Debug, Clone)]
pub struct IterationStats {
    pub iteration: usize,
    pub synthesized: usize,
    pub dropped_critique: usize,
    pub dropped_mutation: usize,
    pub dropped_manifest: usize,
    pub dispatched: usize,
    pub verified: usize,
    pub counterexamples: usize,
    pub tokens_in: u32,
    pub tokens_out: u32,
    pub wall_clock_ms: u64,
    pub diagnosis: Option<DiagnosisClass>,
}

impl IterationStats {
    /// Counters of iteration `iteration`, all zero.
    pub fn new(iteration: usize) -> (r: IterationStats)
        ensures
            r == IterationStats::zero(iteration),
    {
        IterationStats {
            iteration,
            synthesized: 0,
            dropped_critique: 0,
            dropped_mutation: 0,
            dropped_manifest: 0,
            dispatched: 0,
            verified: 0,
            counterexamples: 0,
            tokens_in: 0,
            tokens_out: 0,
            wall_clock_ms: 0,
            diagnosis: None,
        }
    }

    pub open spec fn zero(iteration: usize) -> IterationStats {
        IterationStats {
            iteration,
            synthesized: 0,
            dropped_critique: 0,
            dropped_mutation: 0,
            dropped_manifest: 0,
            dispatched: 0,
            verified: 0,
            counterexamples: 0,
            tokens_in: 0,
            tokens_out: 0,
            wall_clock_ms: 0,
            diagnosis: None,
        }
    }

    /// A copy equal to `self`.
    pub fn duplicate(&self) -> (r: IterationStats)
        ensures
            r == *self,
    {
        IterationStats {
            iteration: self.iteration,
            synthesized: self.synthesized,
            dropped_critique: self.dropped_critique,
            dropped_mutation: self.dropped_mutation,
            dropped_manifest: self.dropped_manifest,
            dispatched: self.dispatched,
            verified: self.verified,
            counterexamples: self.counterexamples,
            tokens_in: self.tokens_in,
            tokens_out: self.tokens_out,
            wall_clock_ms: self.wall_clock_ms,
            diagnosis: self.diagnosis,
        }
    }
}

/// One candidate's fate in the run. The critique result and mutation
/// coverage that go with it are found by `iteration` and
/// `candidate_index` (its position among that iteration's synthesized
/// candidates).
#[derive(Debug, Clone)]
pub struct CandidateOutcome {
    pub candidate: SpecCandidate,
    pub iteration: usize,
    pub candidate_index: usize,
    /// Dropped by the mutation gate before dispatch.
    pub mutation_dropped: bool,
    pub verifier_verdict: VerifierVerdict,
}

/// Where the loop stands: which outside result it waits for.
#[derive(Debug, Clone, Copy, PartialEq, Eq, Structural)]
pub enum CegisPhase {
    Synthesizing,
    Critiquing,
    Gating,
    Dispatching,
    Diagnosing,
    Repairing,
    Refining,
    CheckingCost,
    Stopped,
}

/// The outside work the loop asks for next.
#[derive(Debug, Clone, Copy, PartialEq, Eq, Structural)]
pub enum CegisAction {
    /// Synthesize this iteration's candidates.
    Synthesize { iteration: usize },
    /// Critique every synthesized candidate (`pending`).
    Critique,
    /// Score mutation coverage of each candidate the critic kept (`kept`).
    GateMutation,
    /// Dispatch each surviving candidate (`survivors`) to the verifiers.
    Dispatch,
    /// Diagnose the counterexample of this outcome.
    Diagnose { outcome: usize },
    /// Ask for a code repair from this outcome's counterexample.
    RepairCode { outcome: usize },
    /// Ask for a refined spec from this outcome's counterexample.
    RefineSpec { outcome: usize },
    /// Compare the spend so far with the cost budget.
    CheckCost,
    /// The run is over; `stop_reason` says why.
    Stop,
}

/// The result of the outside work the loop asked for.
#[derive(Debug)]
pub enum CegisEvent {
    /// The candidates, and `(tokens_in, tokens_out)` of each sample.
    Synthesized { candidates: Vec<SpecCandidate>, samples: Vec<(u32, u32)> },
    /// For each pending candidate, whether the critic accepted it.
    Critiqued { accepted: Vec<bool> },
    /// For each kept candidate, whether its coverage fell below the mutation filter's
    /// minimum (all `false` when there is no gate).
    Gated { below_min: Vec<bool> },
    /// One verdict per survivor, and the iteration's elapsed time.
    Dispatched { verdicts: Vec<VerifierVerdict>, wall_clock_ms: u64 },
    Diagnosed { class: DiagnosisClass },
    /// `Some(message)` when the repair failed.
    Repaired { error: Option<String> },
    /// `Some(message)` when the refinement failed.
    Refined { error: Option<String> },
    /// When the budget is spent, the spend and the limit, each already
    /// written with two decimals.
    CostChecked { over_budget: Option<(String, String)> },
}

/// The whole loop state.
#[derive(Debug)]
pub struct CegisState {
    pub max_iterations: usize,
    pub iteration: usize,
    pub phase: CegisPhase,
    pub iterations: Vec<IterationStats>,
    pub outcomes: Vec<CandidateOutcome>,
    pub stop_reason: Option<String>,
    /// Counters of the iteration in progress.
    pub stats: IterationStats,
    /// Candidates synthesized in the iteration in progress.
    pub pending: Vec<SpecCandidate>,
    /// Indices into `pending` of the candidates the critic kept.
    pub kept: Vec<usize>,
    /// Indices into `pending` of the kept candidates the mutation gate let through.
    pub survivors: Vec<usize>,
    /// The outcome diagnosis and refinement work on.
    pub target: usize,
}

// ---- sequence helpers for the contracts ----

/// `0, 1, ..., n - 1`.
pub open spec fn spec_range(n: nat) -> Seq<usize> {
    Seq::new(n, |i: int| i as usize)
}

/// The elements of `idx` whose flag in `flags` equals `want`, in order.
pub open spec fn spec_pick(idx: Seq<usize>, flags: Seq<bool>, want: bool) -> Seq<usize>
    decreases idx.len(),
{
    if idx.len() == 0 {
        Seq::empty()
    } else {
        let rest = spec_pick(idx.drop_last(), flags.take(idx.len() - 1), want);
        if flags[idx.len() - 1] == want {
            rest.push(idx.last())
        } else {
            rest
        }
    }
}

pub open spec fn is_verified(v: VerifierVerdict) -> bool {
    v is Verified
}

pub open spec fn is_counterexample(v: VerifierVerdict) -> bool {
    v is Counterexample
}

/// How many verdicts are `Verified`.
pub open spec fn count_verified(vs: Seq<VerifierVerdict>) -> nat
    decreases vs.len(),
{
    if vs.len() == 0 {
        0
    } else {
        count_verified(vs.drop_last()) + (if is_verified(vs.last()) {
            1nat
        } else {
            0nat
        })
    }
}

/// How many verdicts are `Counterexample`.
pub open spec fn count_counterexamples(vs: Seq<VerifierVerdict>) -> nat
    decreases vs.len(),
{
    if vs.len() == 0 {
        0
    } else {
        count_counterexamples(vs.drop_last()) + (if is_counterexample(vs.last()) {
            1nat
        } else {
            0nat
        })
    }
}

/// Token total of a list of samples, saturating at `u32::MAX` at each
/// step as the counters do.
pub open spec fn spec_sat_sum(xs: Seq<u32>) -> u32
    decreases xs.len(),
{
    if xs.len() == 0 {
        0
    } else {
        let s = spec_sat_sum(xs.drop_last()) + xs.last();
        if s > u32::MAX {
            u32::MAX
        } else {
            s as u32
        }
    }
}

pub open spec fn firsts(xs: Seq<(u32, u32)>) -> Seq<u32> {
    Seq::new(xs.len(), |i: int| xs[i].0)
}

pub open spec fn seconds(xs: Seq<(u32, u32)>) -> Seq<u32> {
    Seq::new(xs.len(), |i: int| xs[i].1)
}

/// Some outcome in `os` verified.
pub open spec fn any_verified(os: Seq<CandidateOutcome>) -> bool {
    exists|i: int| 0 <= i < os.len() && #[trigger] is_verified(os[i].verifier_verdict)
}

/// `k` is the last outcome in `os` with a counterexample.
pub open spec fn is_last_counterexample(os: Seq<CandidateOutcome>, k: int) -> bool {
    &&& 0 <= k < os.len()
    &&& is_counterexample(os[k].verifier_verdict)
    &&& forall|j: int| k < j < os.len() ==> !#[trigger] is_counterexample(os[j].verifier_verdict)
}

/// The outcome recorded for a candidate the mutation gate dropped.
pub open spec fn dropped_outcome(
    pending: Seq<SpecCandidate>,
    iteration: usize,
    k: usize,
) -> CandidateOutcome {
    CandidateOutcome {
        candidate: pending[k as int],
        iteration,
        candidate_index: k,
        mutation_dropped: true,
        verifier_verdict: VerifierVerdict::NotRun,
    }
}

/// The outcome recorded for a dispatched candidate.
pub open spec fn dispatched_outcome(
    pending: Seq<SpecCandidate>,
    iteration: usize,
    k: usize,
    v: VerifierVerdict,
) -> CandidateOutcome {
    CandidateOutcome {
        candidate: pending[k as int],
        iteration,
        candidate_index: k,
        mutation_dropped: false,
        verifier_verdict: v,
    }
}

/// Stop reason when the cost budget is spent.
pub open spec fn spec_cost_reason(spent: Seq<char>, limit: Seq<char>) -> Seq<char> {
    "cost budget $"@ + spent + " reached (limit $"@ + limit + ")"@
}

/// Stop reason when the iteration cap is reached.
pub open spec fn spec_max_iterations_reason(max: usize) -> Seq<char> {
    "max_iterations ("@ + decimal(max as nat) + ")"@
}

pub open spec fn spec_stop_reason_is(s: CegisState, r: Seq<char>) -> bool {
    &&& s.phase == CegisPhase::Stopped
    &&& s.stop_reason matches Some(x) && x@ == r
}

impl CegisState {
    /// The invariant every state of the loop keeps.
    pub open spec fn wf(self) -> bool {
        &&& self.stats.iteration == self.iteration
        &&& self.iterations.len() <= self.max_iterations
        &&& (self.phase == CegisPhase::Stopped <==> self.stop_reason is Some)
        &&& (any_verified(self.outcomes@) <==> spec_stop_reason_is(self, "verified"@))
        &&& (self.phase == CegisPhase::Synthesizing || self.phase == CegisPhase::Critiquing
            || self.phase == CegisPhase::Gating || self.phase == CegisPhase::Dispatching)
            ==> self.iterations.len() == self.iteration && self.iteration < self.max_iterations
        &&& (self.phase == CegisPhase::Diagnosing || self.phase == CegisPhase::Repairing
            || self.phase == CegisPhase::Refining || self.phase == CegisPhase::CheckingCost)
            ==> self.iterations.len() == self.iteration + 1
        &&& (self.phase == CegisPhase::Diagnosing || self.phase == CegisPhase::Repairing
            || self.phase == CegisPhase::Refining) ==> is_last_counterexample(
            self.outcomes@,
            self.target as int,
        )
        &&& (forall|j: int| 0 <= j < self.kept.len() ==> #[trigger] self.kept@[j] < self.pending.len())
        &&& (forall|j: int|
            0 <= j < self.survivors.len() ==> #[trigger] self.survivors@[j] < self.pending.len())
    }

    /// The event is the one the current phase waits for, with one entry per
    /// candidate it speaks of.
    pub open spec fn accepts(self, e: CegisEvent) -> bool {
        match e {
            CegisEvent::Synthesized { .. } => self.phase == CegisPhase::Synthesizing,
            CegisEvent::Critiqued { accepted } => self.phase == CegisPhase::Critiquing
                && accepted.len() == self.pending.len(),
            CegisEvent::Gated { below_min } => self.phase == CegisPhase::Gating && below_min.len()
                == self.kept.len(),
            CegisEvent::Dispatched { verdicts, .. } => self.phase == CegisPhase::Dispatching
                && verdicts.len() == self.survivors.len(),
            CegisEvent::Diagnosed { .. } => self.phase == CegisPhase::Diagnosing,
            CegisEvent::Repaired { .. } => self.phase == CegisPhase::Repairing,
            CegisEvent::Refined { .. } => self.phase == CegisPhase::Refining,
            CegisEvent::CostChecked { .. } => self.phase == CegisPhase::CheckingCost,
        }
    }
}

fn sat_add(a: u32, b: u32) -> (r: u32)
    ensures
        r == (if a + b > u32::MAX { u32::MAX } else { (a + b) as u32 }),
{
    if a > u32::MAX - b {
        u32::MAX
    } else {
        a + b
    }
}

fn stop_with(s: &mut CegisState, reason: String) -> (a: CegisAction)
    ensures
        a == CegisAction::Stop,
        final(s).phase == CegisPhase::Stopped,
        final(s).stop_reason == Some(reason),
        final(s).max_iterations == old(s).max_iterations,
        final(s).iteration == old(s).iteration,
        final(s).iterations == old(s).iterations,
        final(s).outcomes == old(s).outcomes,
        final(s).stats == old(s).stats,
        final(s).pending == old(s).pending,
        final(s).kept == old(s).kept,
        final(s).survivors == old(s).survivors,
        final(s).target == old(s).target,
{
    s.phase = CegisPhase::Stopped;
    s.stop_reason = Some(reason);
    CegisAction::Stop
}

/// `"max_iterations (N)"`.
pub fn max_iterations_reason(max: usize) -> (r: String)
    ensures
        r@ == spec_max_iterations_reason(max),
{
    let mut r = String::from_str("max_iterations (");
    crate::text::push_decimal(&mut r, max as u64);
    r.append(")");
    r
}

impl CegisState {
    /// A fresh run capped at `max_iterations`, and its first action: the
    /// first synthesis, or an immediate stop when the cap is zero.
    pub fn start(max_iterations: usize) -> (r: (CegisState, CegisAction))
        ensures
            r.0.wf(),
            r.0.max_iterations == max_iterations,
            r.0.iteration == 0,
            r.0.iterations@.len() == 0,
            r.0.outcomes@.len() == 0,
            max_iterations > 0 ==> r.0.phase == CegisPhase::Synthesizing && r.1
                == (CegisAction::Synthesize { iteration: 0 }),
            max_iterations == 0 ==> spec_stop_reason_is(r.0, spec_max_iterations_reason(0))
                && r.1 == CegisAction::Stop,
    {
        let mut s = CegisState {
            max_iterations,
            iteration: 0,
            phase: CegisPhase::Synthesizing,
            iterations: Vec::new(),
            outcomes: Vec::new(),
            stop_reason: None,
            stats: IterationStats::new(0),
            pending: Vec::new(),
            kept: Vec::new(),
            survivors: Vec::new(),
            target: 0,
        };
        if max_iterations == 0 {
            let reason = max_iterations_reason(0);
            proof {
                reveal_strlit("verified");
                reveal_strlit("max_iterations (");
                assert(reason@[0] != "verified"@[0]);
            }
            let a = stop_with(&mut s, reason);
            (s, a)
        } else {
            (s, CegisAction::Synthesize { iteration: 0 })
        }
    }

    /// Whether `step` takes this event now (see [`CegisState::accepts`]).
    pub fn accepts_event(&self, e: &CegisEvent) -> (b: bool)
        ensures
            b == self.accepts(*e),
    {
        match e {
            CegisEvent::Synthesized { .. } => self.phase == CegisPhase::Synthesizing,
            CegisEvent::Critiqued { accepted } => self.phase == CegisPhase::Critiquing
                && accepted.len() == self.pending.len(),
            CegisEvent::Gated { below_min } => self.phase == CegisPhase::Gating
                && below_min.len() == self.kept.len(),
            CegisEvent::Dispatched { verdicts, .. } => self.phase == CegisPhase::Dispatching
                && verdicts.len() == self.survivors.len(),
            CegisEvent::Diagnosed { .. } => self.phase == CegisPhase::Diagnosing,
            CegisEvent::Repaired { .. } => self.phase == CegisPhase::Repairing,
            CegisEvent::Refined { .. } => self.phase == CegisPhase::Refining,
            CegisEvent::CostChecked { .. } => self.phase == CegisPhase::CheckingCost,
        }
    }
}

impl CegisState {
    /// The fields that only the iteration bookkeeping changes are kept.
    pub open spec fn same_run(self, other: CegisState) -> bool {
        &&& self.max_iterations == other.max_iterations
        &&& self.iteration == other.iteration
        &&& self.iterations == other.iterations
        &&& self.outcomes == other.outcomes
    }

    /// Takes the synthesized candidates: they await critique, and the
    /// iteration's counters start over with the candidate count and the
    /// samples' token totals (saturating).
    pub fn on_synthesized(&mut self, candidates: Vec<SpecCandidate>, samples: Vec<(u32, u32)>) -> (a:
        CegisAction)
        requires
            old(self).wf(),
            old(self).phase == CegisPhase::Synthesizing,
        ensures
            final(self).wf(),
            final(self).same_run(*old(self)),
            final(self).phase == CegisPhase::Critiquing,
            final(self).stop_reason is None,
            final(self).pending@ == candidates@,
            final(self).kept@.len() == 0,
            final(self).survivors@.len() == 0,
            final(self).stats == (IterationStats {
                synthesized: candidates.len(),
                tokens_in: spec_sat_sum(firsts(samples@)),
                tokens_out: spec_sat_sum(seconds(samples@)),
                ..IterationStats::zero(old(self).iteration)
            }),
            a == CegisAction::Critique,
    {
        let mut t_in: u32 = 0;
        let mut t_out: u32 = 0;
        let mut i: usize = 0;
        while i < samples.len()
            invariant
                i <= samples.len(),
                t_in == spec_sat_sum(firsts(samples@.take(i as int))),
                t_out == spec_sat_sum(seconds(samples@.take(i as int))),
            decreases samples.len() - i,
        {
            proof {
                let t = samples@.take(i + 1);
                assert(firsts(t).drop_last() =~= firsts(samples@.take(i as int)));
                assert(seconds(t).drop_last() =~= seconds(samples@.take(i as int)));
            }
            t_in = sat_add(t_in, samples[i].0);
            t_out = sat_add(t_out, samples[i].1);
            i += 1;
        }
        assert(samples@.take(samples.len() as int) =~= samples@);
        let mut stats = IterationStats::new(self.iteration);
        stats.synthesized = candidates.len();
        stats.tokens_in = t_in;
        stats.tokens_out = t_out;
        self.stats = stats;
        self.pending = candidates;
        self.kept = Vec::new();
        self.survivors = Vec::new();
        self.phase = CegisPhase::Critiquing;
        CegisAction::Critique
    }

    /// Takes the critic's decisions: the accepted candidates are kept, in
    /// order, and the rejected ones counted.
    pub fn on_critiqued(&mut self, accepted: Vec<bool>) -> (a: CegisAction)
        requires
            old(self).wf(),
            old(self).phase == CegisPhase::Critiquing,
            accepted.len() == old(self).pending.len(),
        ensures
            final(self).wf(),
            final(self).same_run(*old(self)),
            final(self).phase == CegisPhase::Gating,
            final(self).pending == old(self).pending,
            final(self).kept@ == spec_pick(spec_range(accepted.len() as nat), accepted@, true),
            final(self).survivors@.len() == 0,
            final(self).stats == (IterationStats {
                dropped_critique: (accepted.len() - final(self).kept.len()) as usize,
                ..old(self).stats
            }),
            a == CegisAction::GateMutation,
    {
        let n = accepted.len();
        let mut kept: Vec<usize> = Vec::new();
        let mut dropped: usize = 0;
        let mut i: usize = 0;
        while i < n
            invariant
                i <= n,
                n == accepted.len(),
                n == self.pending.len(),
                kept@ == spec_pick(spec_range(i as nat), accepted@.take(i as int), true),
                dropped + kept.len() == i,
                forall|j: int| 0 <= j < kept.len() ==> #[trigger] kept@[j] < i,
            decreases n - i,
        {
            proof {
                let idx = spec_range((i + 1) as nat);
                let fl = accepted@.take(i + 1);
                assert(idx.drop_last() =~= spec_range(i as nat));
                assert(fl.take(i as int) =~= accepted@.take(i as int));
                assert(idx.last() == i);
                assert(fl[i as int] == accepted@[i as int]);
            }
            if accepted[i] {
                kept.push(i);
            } else {
                dropped += 1;
            }
            i += 1;
        }
        assert(accepted@.take(n as int) =~= accepted@);
        self.kept = kept;
        self.survivors = Vec::new();
        self.stats.dropped_critique = dropped;
        self.phase = CegisPhase::Gating;
        CegisAction::GateMutation
    }
}

proof fn lemma_push_keeps_unverified(os: Seq<CandidateOutcome>, o: CandidateOutcome)
    requires
        !any_verified(os),
        !is_verified(o.verifier_verdict),
    ensures
        !any_verified(os.push(o)),
{
    assert forall|i: int| 0 <= i < os.push(o).len() implies !#[trigger] is_verified(
        os.push(o)[i].verifier_verdict,
    ) by {
        if i < os.len() {
            assert(os.push(o)[i] == os[i]);
        }
    }
}

proof fn lemma_pick_step(idx: Seq<usize>, flags: Seq<bool>, j: int, want: bool)
    requires
        0 <= j < idx.len(),
        idx.len() == flags.len(),
    ensures
        spec_pick(idx.take(j + 1), flags.take(j + 1), want) == (if flags[j] == want {
            spec_pick(idx.take(j), flags.take(j), want).push(idx[j])
        } else {
            spec_pick(idx.take(j), flags.take(j), want)
        }),
{
    let i2 = idx.take(j + 1);
    let f2 = flags.take(j + 1);
    assert(i2.drop_last() =~= idx.take(j));
    assert(f2.take(j) =~= flags.take(j));
}

/// Index of the last outcome with a counterexample.
fn last_counterexample(os: &Vec<CandidateOutcome>) -> (r: Option<usize>)
    ensures
        r matches Some(k) ==> is_last_counterexample(os@, k as int),
        r is None ==> forall|i: int| 0 <= i < os.len() ==> !#[trigger] is_counterexample(os@[i].verifier_verdict),
{
    let mut i = os.len();
    while i > 0
        invariant
            i <= os.len(),
            forall|j: int| i <= j < os.len() ==> !#[trigger] is_counterexample(os@[j].verifier_verdict),
        decreases i,
    {
        i -= 1;
        match &os[i].verifier_verdict {
            VerifierVerdict::Counterexample { .. } => {
                return Some(i);
            },
            _ => {},
        }
    }
    None
}

impl CegisState {
    /// Takes the mutation gate's findings: each kept candidate below the
    /// minimum is recorded as dropped (not run), in order; the others
    /// survive to dispatch.
    pub fn on_gated(&mut self, below_min: Vec<bool>) -> (a: CegisAction)
        requires
            old(self).wf(),
            old(self).phase == CegisPhase::Gating,
            below_min.len() == old(self).kept.len(),
        ensures
            final(self).wf(),
            final(self).max_iterations == old(self).max_iterations,
            final(self).iteration == old(self).iteration,
            final(self).iterations == old(self).iterations,
            final(self).phase == CegisPhase::Dispatching,
            final(self).pending == old(self).pending,
            final(self).kept == old(self).kept,
            final(self).survivors@ == spec_pick(old(self).kept@, below_min@, false),
            final(self).outcomes@ == old(self).outcomes@ + spec_pick(
                old(self).kept@,
                below_min@,
                true,
            ).map_values(|k: usize| dropped_outcome(old(self).pending@, old(self).iteration, k)),
            final(self).stats == (IterationStats {
                dropped_mutation: spec_pick(old(self).kept@, below_min@, true).len() as usize,
                ..old(self).stats
            }),
            a == CegisAction::Dispatch,
    {
        let ghost s0 = *self;
        let ghost old_outcomes = self.outcomes@;
        let ghost pend = self.pending@;
        let ghost it = self.iteration;
        let ghost f = |k: usize| dropped_outcome(pend, it, k);
        let m = below_min.len();
        let mut survivors: Vec<usize> = Vec::new();
        let mut dropped: usize = 0;
        let mut j: usize = 0;
        while j < m
            invariant
                j <= m,
                m == below_min.len(),
                m == self.kept.len(),
                s0.wf(),
                s0.phase == CegisPhase::Gating,
                self.max_iterations == s0.max_iterations,
                self.iteration == s0.iteration,
                self.iterations == s0.iterations,
                self.phase == s0.phase,
                self.stop_reason == s0.stop_reason,
                self.stats == s0.stats,
                self.pending == s0.pending,
                self.kept == s0.kept,
                self.survivors == s0.survivors,
                self.target == s0.target,
                pend == self.pending@,
                it == self.iteration,
                f == (|k: usize| dropped_outcome(pend, it, k)),
                forall|x: int| 0 <= x < self.kept.len() ==> #[trigger] self.kept@[x] < self.pending.len(),
                survivors@ == spec_pick(self.kept@.take(j as int), below_min@.take(j as int), false),
                self.outcomes@ == old_outcomes + spec_pick(
                    self.kept@.take(j as int),
                    below_min@.take(j as int),
                    true,
                ).map_values(f),
                dropped == spec_pick(self.kept@.take(j as int), below_min@.take(j as int), true).len(),
                dropped <= j,
                !any_verified(self.outcomes@),
                forall|x: int| 0 <= x < survivors.len() ==> #[trigger] survivors@[x] < self.pending.len(),
            decreases m - j,
        {
            proof {
                lemma_pick_step(self.kept@, below_min@, j as int, true);
                lemma_pick_step(self.kept@, below_min@, j as int, false);
            }
            let k = self.kept[j];
            if below_min[j] {
                let o = CandidateOutcome {
                    candidate: self.pending[k].duplicate(),
                    iteration: self.iteration,
                    candidate_index: k,
                    mutation_dropped: true,
                    verifier_verdict: VerifierVerdict::NotRun,
                };
                proof {
                    lemma_push_keeps_unverified(self.outcomes@, o);
                    let p = spec_pick(self.kept@.take(j as int), below_min@.take(j as int), true);
                    assert(p.push(k).map_values(f) =~= p.map_values(f).push(f(k)));
                }
                self.outcomes.push(o);
                dropped += 1;
            } else {
                survivors.push(k);
            }
            j += 1;
        }
        assert(self.kept@.take(m as int) =~= self.kept@);
        assert(below_min@.take(m as int) =~= below_min@);
        self.survivors = survivors;
        self.stats.dropped_mutation = dropped;
        self.phase = CegisPhase::Dispatching;
        CegisAction::Dispatch
    }
}

/// The outcomes a dispatch round appends: one per survivor, in order.
pub open spec fn dispatched_outcomes(
    pending: Seq<SpecCandidate>,
    iteration: usize,
    survivors: Seq<usize>,
    verdicts: Seq<VerifierVerdict>,
) -> Seq<CandidateOutcome> {
    Seq::new(
        survivors.len(),
        |j: int| dispatched_outcome(pending, iteration, survivors[j], verdicts[j]),
    )
}

proof fn lemma_count_verified_positive(vs: Seq<VerifierVerdict>)
    ensures
        count_verified(vs) > 0 <==> exists|i: int| 0 <= i < vs.len() && #[trigger] is_verified(vs[i]),
    decreases vs.len(),
{
    if vs.len() > 0 {
        lemma_count_verified_positive(vs.drop_last());
        if count_verified(vs.drop_last()) > 0 {
            let i = choose|i: int| 0 <= i < vs.drop_last().len() && #[trigger] is_verified(vs.drop_last()[i]);
            assert(is_verified(vs[i]));
        }
        if exists|i: int| 0 <= i < vs.len() && #[trigger] is_verified(vs[i]) {
            let i = choose|i: int| 0 <= i < vs.len() && #[trigger] is_verified(vs[i]);
            if i < vs.len() - 1 {
                assert(is_verified(vs.drop_last()[i]));
            }
        }
    }
}

impl CegisState {
    /// Takes the verdicts of the survivors: each becomes an outcome, the
    /// iteration's counters are closed and recorded, and the loop decides:
    /// stop with `"verified"` when a candidate verified; otherwise diagnose
    /// the most recent counterexample, or stop with
    /// `"no_definitive_verdict"` when there is none.
    pub fn on_dispatched(&mut self, verdicts: Vec<VerifierVerdict>, wall_clock_ms: u64) -> (a:
        CegisAction)
        requires
            old(self).wf(),
            old(self).phase == CegisPhase::Dispatching,
            verdicts.len() == old(self).survivors.len(),
        ensures
            final(self).wf(),
            final(self).max_iterations == old(self).max_iterations,
            final(self).iteration == old(self).iteration,
            final(self).outcomes@ == old(self).outcomes@ + dispatched_outcomes(
                old(self).pending@,
                old(self).iteration,
                old(self).survivors@,
                verdicts@,
            ),
            final(self).iterations@ == old(self).iterations@.push(
                IterationStats {
                    dispatched: verdicts.len(),
                    verified: count_verified(verdicts@) as usize,
                    counterexamples: count_counterexamples(verdicts@) as usize,
                    wall_clock_ms,
                    ..old(self).stats
                },
            ),
            count_verified(verdicts@) > 0 ==> spec_stop_reason_is(*final(self), "verified"@) && a
                == CegisAction::Stop,
            count_verified(verdicts@) == 0 ==> match a {
                CegisAction::Diagnose { outcome } => {
                    &&& final(self).phase == CegisPhase::Diagnosing
                    &&& final(self).target == outcome
                    &&& is_last_counterexample(final(self).outcomes@, outcome as int)
                },
                CegisAction::Stop => {
                    &&& spec_stop_reason_is(*final(self), "no_definitive_verdict"@)
                    &&& forall|i: int|
                        0 <= i < final(self).outcomes.len() ==> !#[trigger] is_counterexample(
                            final(self).outcomes@[i].verifier_verdict,
                        )
                },
                _ => false,
            },
    {
        let ghost s0 = *self;
        let m = verdicts.len();
        let mut verified: usize = 0;
        let mut cex: usize = 0;
        let mut j: usize = 0;
        while j < m
            invariant
                j <= m,
                m == verdicts.len(),
                m == self.survivors.len(),
                s0.wf(),
                s0.phase == CegisPhase::Dispatching,
                self.max_iterations == s0.max_iterations,
                self.iteration == s0.iteration,
                self.iterations == s0.iterations,
                self.phase == s0.phase,
                self.stop_reason == s0.stop_reason,
                self.stats == s0.stats,
                self.pending == s0.pending,
                self.kept == s0.kept,
                self.survivors == s0.survivors,
                self.target == s0.target,
                self.outcomes@ == s0.outcomes@ + dispatched_outcomes(
                    s0.pending@,
                    s0.iteration,
                    s0.survivors@.take(j as int),
                    verdicts@.take(j as int),
                ),
                verified == count_verified(verdicts@.take(j as int)),
                cex == count_counterexamples(verdicts@.take(j as int)),
                verified <= j,
                cex <= j,
            decreases m - j,
        {
            let k = self.survivors[j];
            let v = verdicts[j].duplicate();
            proof {
                let t = verdicts@.take(j + 1);
                assert(t.drop_last() =~= verdicts@.take(j as int));
                assert(t.last() == verdicts@[j as int]);
            }
            match &v {
                VerifierVerdict::Verified { .. } => {
                    verified += 1;
                },
                VerifierVerdict::Counterexample { .. } => {
                    cex += 1;
                },
                _ => {},
            }
            let o = CandidateOutcome {
                candidate: self.pending[k].duplicate(),
                iteration: self.iteration,
                candidate_index: k,
                mutation_dropped: false,
                verifier_verdict: v,
            };
            proof {
                let before = dispatched_outcomes(
                    s0.pending@,
                    s0.iteration,
                    s0.survivors@.take(j as int),
                    verdicts@.take(j as int),
                );
                let after = dispatched_outcomes(
                    s0.pending@,
                    s0.iteration,
                    s0.survivors@.take(j + 1),
                    verdicts@.take(j + 1),
                );
                assert(after =~= before.push(o));
                assert(s0.outcomes@ + after =~= (s0.outcomes@ + before).push(o));
            }
            self.outcomes.push(o);
            j += 1;
        }
        assert(self.survivors@.take(m as int) =~= self.survivors@);
        assert(verdicts@.take(m as int) =~= verdicts@);
        let mut st = self.stats.duplicate();
        st.dispatched = m;
        st.verified = verified;
        st.counterexamples = cex;
        st.wall_clock_ms = wall_clock_ms;
        self.iterations.push(st);
        proof {
            let news = dispatched_outcomes(s0.pending@, s0.iteration, s0.survivors@, verdicts@);
            lemma_count_verified_positive(verdicts@);
            assert(!any_verified(s0.outcomes@)) by {
                reveal_strlit("verified");
            }
            if any_verified(self.outcomes@) {
                let i = choose|i: int| 0 <= i < self.outcomes@.len() && #[trigger] is_verified(self.outcomes@[i].verifier_verdict);
                if i >= s0.outcomes.len() {
                    assert(is_verified(verdicts@[i - s0.outcomes.len()]));
                } else {
                    assert(self.outcomes@[i] == s0.outcomes@[i]);
                }
            }
            if verified > 0 {
                let jj = choose|i: int| 0 <= i < verdicts@.len() && #[trigger] is_verified(verdicts@[i]);
                assert(self.outcomes@[s0.outcomes.len() + jj] == news[jj]);
                assert(is_verified(self.outcomes@[s0.outcomes.len() + jj].verifier_verdict));
            }
        }
        if verified > 0 {
            return stop_with(self, String::from_str("verified"));
        }
        match last_counterexample(&self.outcomes) {
            Some(k) => {
                self.target = k;
                self.phase = CegisPhase::Diagnosing;
                CegisAction::Diagnose { outcome: k }
            },
            None => {
                let r = String::from_str("no_definitive_verdict");
                proof {
                    reveal_strlit("verified");
                    reveal_strlit("no_definitive_verdict");
                    assert(r@[0] != "verified"@[0]);
                }
                stop_with(self, r)
            },
        }
    }
}

impl CegisState {
    /// Takes the diagnosis of the target counterexample: it is recorded on
    /// the iteration, then a code bug asks for a repair, a spec bug for a
    /// refinement, and an ambiguous one stops the run with
    /// `"ambiguous_diagnosis"`.
    pub fn on_diagnosed(&mut self, class: DiagnosisClass) -> (a: CegisAction)
        requires
            old(self).wf(),
            old(self).phase == CegisPhase::Diagnosing,
        ensures
            final(self).wf(),
            final(self).max_iterations == old(self).max_iterations,
            final(self).iteration == old(self).iteration,
            final(self).outcomes == old(self).outcomes,
            final(self).target == old(self).target,
            final(self).iterations@ == old(self).iterations@.update(
                old(self).iterations.len() - 1,
                IterationStats { diagnosis: Some(class), ..old(self).iterations@.last() },
            ),
            class == DiagnosisClass::CodeBug ==> final(self).phase == CegisPhase::Repairing && a
                == (CegisAction::RepairCode { outcome: old(self).target }),
            class == DiagnosisClass::SpecBug ==> final(self).phase == CegisPhase::Refining && a
                == (CegisAction::RefineSpec { outcome: old(self).target }),
            class == DiagnosisClass::Ambiguous ==> spec_stop_reason_is(
                *final(self),
                "ambiguous_diagnosis"@,
            ) && a == CegisAction::Stop,
    {
        let last = self.iterations.len() - 1;
        let mut st = self.iterations[last].duplicate();
        st.diagnosis = Some(class);
        self.iterations.set(last, st);
        match class {
            DiagnosisClass::CodeBug => {
                self.phase = CegisPhase::Repairing;
                CegisAction::RepairCode { outcome: self.target }
            },
            DiagnosisClass::SpecBug => {
                self.phase = CegisPhase::Refining;
                CegisAction::RefineSpec { outcome: self.target }
            },
            DiagnosisClass::Ambiguous => {
                let r = String::from_str("ambiguous_diagnosis");
                proof {
                    reveal_strlit("verified");
                    reveal_strlit("ambiguous_diagnosis");
                    assert(r@[0] != "verified"@[0]);
                    assert(!any_verified(old(self).outcomes@));
                }
                stop_with(self, r)
            },
        }
    }

    fn after_refinement(&mut self, prefix: &str, error: Option<String>) -> (a: CegisAction)
        requires
            old(self).wf(),
            old(self).phase == CegisPhase::Repairing || old(self).phase == CegisPhase::Refining,
            prefix@.len() > 0,
            prefix@[0] != 'v',
        ensures
            final(self).wf(),
            final(self).same_run(*old(self)),
            error matches Some(e) ==> spec_stop_reason_is(*final(self), prefix@ + e@) && a
                == CegisAction::Stop,
            error is None ==> final(self).phase == CegisPhase::CheckingCost && a
                == CegisAction::CheckCost,
    {
        match error {
            Some(e) => {
                let mut r = String::from_str(prefix);
                r.append(e.as_str());
                proof {
                    reveal_strlit("verified");
                    assert(r@[0] != "verified"@[0]);
                    assert(!any_verified(old(self).outcomes@));
                }
                stop_with(self, r)
            },
            None => {
                self.phase = CegisPhase::CheckingCost;
                CegisAction::CheckCost
            },
        }
    }

    /// Takes the outcome of the code repair: a failure stops the run with
    /// `"repair_code error: <message>"`; success goes on to the cost check.
    pub fn on_repaired(&mut self, error: Option<String>) -> (a: CegisAction)
        requires
            old(self).wf(),
            old(self).phase == CegisPhase::Repairing,
        ensures
            final(self).wf(),
            final(self).same_run(*old(self)),
            error matches Some(e) ==> spec_stop_reason_is(
                *final(self),
                "repair_code error: "@ + e@,
            ) && a == CegisAction::Stop,
            error is None ==> final(self).phase == CegisPhase::CheckingCost && a
                == CegisAction::CheckCost,
    {
        proof {
            reveal_strlit("repair_code error: ");
        }
        self.after_refinement("repair_code error: ", error)
    }

    /// Takes the outcome of the spec refinement: a failure stops the run
    /// with `"refine_spec error: <message>"`; success goes on to the cost
    /// check.
    pub fn on_refined(&mut self, error: Option<String>) -> (a: CegisAction)
        requires
            old(self).wf(),
            old(self).phase == CegisPhase::Refining,
        ensures
            final(self).wf(),
            final(self).same_run(*old(self)),
            error matches Some(e) ==> spec_stop_reason_is(
                *final(self),
                "refine_spec error: "@ + e@,
            ) && a == CegisAction::Stop,
            error is None ==> final(self).phase == CegisPhase::CheckingCost && a
                == CegisAction::CheckCost,
    {
        proof {
            reveal_strlit("refine_spec error: ");
        }
        self.after_refinement("refine_spec error: ", error)
    }

    /// Takes the cost check: a spent budget stops the run; otherwise the
    /// next iteration starts, unless the cap is reached, which stops the
    /// run with `"max_iterations (N)"`.
    pub fn on_cost_checked(&mut self, over_budget: Option<(String, String)>) -> (a: CegisAction)
        requires
            old(self).wf(),
            old(self).phase == CegisPhase::CheckingCost,
        ensures
            final(self).wf(),
            final(self).max_iterations == old(self).max_iterations,
            final(self).iterations == old(self).iterations,
            final(self).outcomes == old(self).outcomes,
            over_budget matches Some(p) ==> spec_stop_reason_is(
                *final(self),
                spec_cost_reason(p.0@, p.1@),
            ) && a == CegisAction::Stop && final(self).iteration == old(self).iteration,
            over_budget is None ==> final(self).iteration == old(self).iteration + 1,
            over_budget is None && old(self).iteration + 1 >= old(self).max_iterations
                ==> spec_stop_reason_is(
                *final(self),
                spec_max_iterations_reason(old(self).max_iterations),
            ) && a == CegisAction::Stop,
            over_budget is None && old(self).iteration + 1 < old(self).max_iterations ==> {
                &&& final(self).phase == CegisPhase::Synthesizing
                &&& final(self).stats == IterationStats::zero(final(self).iteration)
                &&& a == (CegisAction::Synthesize { iteration: final(self).iteration })
            },
    {
        proof {
            reveal_strlit("verified");
            assert(!any_verified(old(self).outcomes@));
        }
        match over_budget {
            Some((spent, limit)) => {
                let mut r = String::from_str("cost budget $");
                r.append(spent.as_str());
                r.append(" reached (limit $");
                r.append(limit.as_str());
                r.append(")");
                proof {
                    reveal_strlit("cost budget $");
                    assert(r@[0] != "verified"@[0]);
                }
                stop_with(self, r)
            },
            None => {
                self.iteration = self.iteration + 1;
                self.stats = IterationStats::new(self.iteration);
                if self.iteration >= self.max_iterations {
                    let r = max_iterations_reason(self.max_iterations);
                    proof {
                        reveal_strlit("max_iterations (");
                        assert(r@[0] != "verified"@[0]);
                    }
                    stop_with(self, r)
                } else {
                    self.pending = Vec::new();
                    self.kept = Vec::new();
                    self.survivors = Vec::new();
                    self.phase = CegisPhase::Synthesizing;
                    CegisAction::Synthesize { iteration: self.iteration }
                }
            },
        }
    }

    /// Advances the loop by one event: does what the handler of that event
    /// does (`step_post`). Whatever the event, the invariant holds after
    /// it, outcomes are only appended, and the cap is kept.
    pub fn step(&mut self, e: CegisEvent) -> (a: CegisAction)
        requires
            old(self).wf(),
            old(self).accepts(e),
        ensures
            final(self).wf(),
            final(self).max_iterations == old(self).max_iterations,
            old(self).outcomes@.is_prefix_of(final(self).outcomes@),
            final(self).iterations.len() <= final(self).max_iterations,
            (a == CegisAction::Stop) == (final(self).phase == CegisPhase::Stopped),
            step_post(*old(self), *final(self), e, a),
    {
        let ghost before = self.outcomes@;
        let a = match e {
            CegisEvent::Synthesized { candidates, samples } => self.on_synthesized(
                candidates,
                samples,
            ),
            CegisEvent::Critiqued { accepted } => self.on_critiqued(accepted),
            CegisEvent::Gated { below_min } => self.on_gated(below_min),
            CegisEvent::Dispatched { verdicts, wall_clock_ms } => self.on_dispatched(
                verdicts,
                wall_clock_ms,
            ),
            CegisEvent::Diagnosed { class } => self.on_diagnosed(class),
            CegisEvent::Repaired { error } => self.on_repaired(error),
            CegisEvent::Refined { error } => self.on_refined(error),
            CegisEvent::CostChecked { over_budget } => self.on_cost_checked(over_budget),
        };
        assert(before.is_prefix_of(self.outcomes@));
        a
    }
}

/// What taking the synthesized candidates does (see [`CegisState::on_synthesized`]).
pub open spec fn synthesized_post(
    s0: CegisState,
    s: CegisState,
    candidates: Vec<SpecCandidate>,
    samples: Vec<(u32, u32)>,
    a: CegisAction,
) -> bool {
    &&& s.wf()
    &&& s.same_run(s0)
    &&& s.phase == CegisPhase::Critiquing
    &&& s.stop_reason is None
    &&& s.pending@ == candidates@
    &&& s.kept@.len() == 0
    &&& s.survivors@.len() == 0
    &&& s.stats == (IterationStats {
        synthesized: candidates.len(),
        tokens_in: spec_sat_sum(firsts(samples@)),
        tokens_out: spec_sat_sum(seconds(samples@)),
        ..IterationStats::zero(s0.iteration)
    })
    &&& a == CegisAction::Critique
}

/// What taking the critic's decisions does (see [`CegisState::on_critiqued`]).
pub open spec fn critiqued_post(s0: CegisState, s: CegisState, accepted: Vec<bool>, a: CegisAction) -> bool {
    &&& s.wf()
    &&& s.same_run(s0)
    &&& s.phase == CegisPhase::Gating
    &&& s.pending == s0.pending
    &&& s.kept@ == spec_pick(spec_range(accepted.len() as nat), accepted@, true)
    &&& s.survivors@.len() == 0
    &&& s.stats == (IterationStats {
        dropped_critique: (accepted.len() - s.kept.len()) as usize,
        ..s0.stats
    })
    &&& a == CegisAction::GateMutation
}

/// What taking the mutation gate's findings does (see [`CegisState::on_gated`]).
pub open spec fn gated_post(s0: CegisState, s: CegisState, below_min: Vec<bool>, a: CegisAction) -> bool {
    &&& s.wf()
    &&& s.max_iterations == s0.max_iterations
    &&& s.iteration == s0.iteration
    &&& s.iterations == s0.iterations
    &&& s.phase == CegisPhase::Dispatching
    &&& s.pending == s0.pending
    &&& s.kept == s0.kept
    &&& s.survivors@ == spec_pick(s0.kept@, below_min@, false)
    &&& s.outcomes@ == s0.outcomes@ + spec_pick(s0.kept@, below_min@, true).map_values(
        |k: usize| dropped_outcome(s0.pending@, s0.iteration, k),
    )
    &&& s.stats == (IterationStats {
        dropped_mutation: spec_pick(s0.kept@, below_min@, true).len() as usize,
        ..s0.stats
    })
    &&& a == CegisAction::Dispatch
}

/// What taking the survivors' verdicts does (see [`CegisState::on_dispatched`]).
pub open spec fn dispatched_post(
    s0: CegisState,
    s: CegisState,
    verdicts: Vec<VerifierVerdict>,
    wall_clock_ms: u64,
    a: CegisAction,
) -> bool {
    &&& s.wf()
    &&& s.max_iterations == s0.max_iterations
    &&& s.iteration == s0.iteration
    &&& s.outcomes@ == s0.outcomes@ + dispatched_outcomes(
        s0.pending@,
        s0.iteration,
        s0.survivors@,
        verdicts@,
    )
    &&& s.iterations@ == s0.iterations@.push(
        IterationStats {
            dispatched: verdicts.len(),
            verified: count_verified(verdicts@) as usize,
            counterexamples: count_counterexamples(verdicts@) as usize,
            wall_clock_ms,
            ..s0.stats
        },
    )
    &&& (count_verified(verdicts@) > 0 ==> spec_stop_reason_is(s, "verified"@) && a
        == CegisAction::Stop)
    &&& (count_verified(verdicts@) == 0 ==> match a {
        CegisAction::Diagnose { outcome } => {
            &&& s.phase == CegisPhase::Diagnosing
            &&& s.target == outcome
            &&& is_last_counterexample(s.outcomes@, outcome as int)
        },
        CegisAction::Stop => {
            &&& spec_stop_reason_is(s, "no_definitive_verdict"@)
            &&& forall|i: int|
                0 <= i < s.outcomes.len() ==> !#[trigger] is_counterexample(
                    s.outcomes@[i].verifier_verdict,
                )
        },
        _ => false,
    })
}

/// What taking the diagnosis does (see [`CegisState::on_diagnosed`]).
pub open spec fn diagnosed_post(s0: CegisState, s: CegisState, class: DiagnosisClass, a: CegisAction) -> bool {
    &&& s.wf()
    &&& s.max_iterations == s0.max_iterations
    &&& s.iteration == s0.iteration
    &&& s.outcomes == s0.outcomes
    &&& s.target == s0.target
    &&& s.iterations@ == s0.iterations@.update(
        s0.iterations.len() - 1,
        IterationStats { diagnosis: Some(class), ..s0.iterations@.last() },
    )
    &&& (class == DiagnosisClass::CodeBug ==> s.phase == CegisPhase::Repairing && a
        == (CegisAction::RepairCode { outcome: s0.target }))
    &&& (class == DiagnosisClass::SpecBug ==> s.phase == CegisPhase::Refining && a
        == (CegisAction::RefineSpec { outcome: s0.target }))
    &&& (class == DiagnosisClass::Ambiguous ==> spec_stop_reason_is(s, "ambiguous_diagnosis"@) && a
        == CegisAction::Stop)
}

/// What taking the outcome of a repair or a refinement does: a failure
/// stops the run with `prefix` and the message; success goes on to the
/// cost check.
pub open spec fn refinement_post(
    s0: CegisState,
    s: CegisState,
    prefix: Seq<char>,
    error: Option<String>,
    a: CegisAction,
) -> bool {
    &&& s.wf()
    &&& s.same_run(s0)
    &&& (error matches Some(e) ==> spec_stop_reason_is(s, prefix + e@) && a == CegisAction::Stop)
    &&& (error is None ==> s.phase == CegisPhase::CheckingCost && a == CegisAction::CheckCost)
}

/// What taking the cost check does (see [`CegisState::on_cost_checked`]).
pub open spec fn cost_checked_post(
    s0: CegisState,
    s: CegisState,
    over_budget: Option<(String, String)>,
    a: CegisAction,
) -> bool {
    &&& s.wf()
    &&& s.max_iterations == s0.max_iterations
    &&& s.iterations == s0.iterations
    &&& s.outcomes == s0.outcomes
    &&& (over_budget matches Some(p) ==> spec_stop_reason_is(s, spec_cost_reason(p.0@, p.1@)) && a
        == CegisAction::Stop && s.iteration == s0.iteration)
    &&& (over_budget is None ==> s.iteration == s0.iteration + 1)
    &&& (over_budget is None && s0.iteration + 1 >= s0.max_iterations ==> spec_stop_reason_is(
        s,
        spec_max_iterations_reason(s0.max_iterations),
    ) && a == CegisAction::Stop)
    &&& (over_budget is None && s0.iteration + 1 < s0.max_iterations ==> {
        &&& s.phase == CegisPhase::Synthesizing
        &&& s.stats == IterationStats::zero(s.iteration)
        &&& a == (CegisAction::Synthesize { iteration: s.iteration })
    })
}

/// What one step does with the event: exactly what the handler of that
/// event does.
pub open spec fn step_post(s0: CegisState, s: CegisState, e: CegisEvent, a: CegisAction) -> bool {
    match e {
        CegisEvent::Synthesized { candidates, samples } => synthesized_post(s0, s, candidates, samples, a),
        CegisEvent::Critiqued { accepted } => critiqued_post(s0, s, accepted, a),
        CegisEvent::Gated { below_min } => gated_post(s0, s, below_min, a),
        CegisEvent::Dispatched { verdicts, wall_clock_ms } => dispatched_post(s0, s, verdicts, wall_clock_ms, a),
        CegisEvent::Diagnosed { class } => diagnosed_post(s0, s, class, a),
        CegisEvent::Repaired { error } => refinement_post(s0, s, "repair_code error: "@, error, a),
        CegisEvent::Refined { error } => refinement_post(s0, s, "refine_spec error: "@, error, a),
        CegisEvent::CostChecked { over_budget } => cost_checked_post(s0, s, over_budget, a),
    }
}

/// Exact sum of the iterations' input (or output) token counters.
pub open spec fn spec_token_sum(its: Seq<IterationStats>, is_in: bool) -> int
    decreases its.len(),
{
    if its.len() == 0 {
        0
    } else {
        spec_token_sum(its.drop_last(), is_in) + (if is_in {
            its.last().tokens_in as int
        } else {
            its.last().tokens_out as int
        })
    }
}

/// Total input (`is_in`) or output tokens over the iterations.
pub fn total_tokens(iterations: &Vec<IterationStats>, is_in: bool) -> (r: u32)
    requires
        spec_token_sum(iterations@, is_in) <= u32::MAX,
    ensures
        r == spec_token_sum(iterations@, is_in),
{
    let mut total: u32 = 0;
    let mut i: usize = 0;
    while i < iterations.len()
        invariant
            i <= iterations.len(),
            total == spec_token_sum(iterations@.take(i as int), is_in),
            spec_token_sum(iterations@, is_in) <= u32::MAX,
        decreases iterations.len() - i,
    {
        proof {
            let t = iterations@.take(i + 1);
            assert(t.drop_last() =~= iterations@.take(i as int));
            lemma_token_sum_prefix(iterations@, (i + 1) as int, is_in);
        }
        let x = if is_in {
            iterations[i].tokens_in
        } else {
            iterations[i].tokens_out
        };
        total = total + x;
        i += 1;
    }
    assert(iterations@.take(iterations.len() as int) =~= iterations@);
    total
}

proof fn lemma_token_sum_prefix(its: Seq<IterationStats>, n: int, is_in: bool)
    requires
        0 <= n <= its.len(),
    ensures
        spec_token_sum(its.take(n), is_in) <= spec_token_sum(its, is_in),
    decreases its.len(),
{
    if n < its.len() {
        assert(its.drop_last().take(n) =~= its.take(n));
        lemma_token_sum_prefix(its.drop_last(), n, is_in);
    } else {
        assert(its.take(n) =~= its);
    }
}

/// Number of outcomes whose verdict is `Verified`.
pub open spec fn count_verified_outcomes(os: Seq<CandidateOutcome>) -> nat
    decreases os.len(),
{
    if os.len() == 0 {
        0
    } else {
        count_verified_outcomes(os.drop_last()) + (if is_verified(os.last().verifier_verdict) {
            1nat
        } else {
            0nat
        })
    }
}

/// How many outcomes verified.
pub fn verified_count(outcomes: &Vec<CandidateOutcome>) -> (r: usize)
    ensures
        r == count_verified_outcomes(outcomes@),
{
    let mut n: usize = 0;
    let mut i: usize = 0;
    while i < outcomes.len()
        invariant
            i <= outcomes.len(),
            n == count_verified_outcomes(outcomes@.take(i as int)),
            n <= i,
        decreases outcomes.len() - i,
    {
        proof {
            let t = outcomes@.take(i + 1);
            assert(t.drop_last() =~= outcomes@.take(i as int));
        }
        match &outcomes[i].verifier_verdict {
            VerifierVerdict::Verified { .. } => {
                n += 1;
            },
            _ => {},
        }
        i += 1;
    }
    assert(outcomes@.take(outcomes.len() as int) =~= outcomes@);
    n
}

impl CegisState {
    /// Why the run stopped; `"loop_completed"` if no reason was recorded.
    pub fn final_stop_reason(&self) -> (r: String)
        ensures
            self.stop_reason matches Some(x) ==> r == x,
            self.stop_reason is None ==> r@ == "loop_completed"@,
    {
        match &self.stop_reason {
            Some(x) => x.clone(),
            None => String::from_str("loop_completed"),
        }
    }
}

/// A run stops with `"verified"` exactly when one of its outcomes
/// verified; while it is still running, none has.
pub proof fn law_verified_stop(s: CegisState)
    requires
        s.wf(),
    ensures
        any_verified(s.outcomes@) <==> spec_stop_reason_is(s, "verified"@),
        s.phase != CegisPhase::Stopped ==> !any_verified(s.outcomes@),
{
}

/// No run records more iterations than its cap.
pub proof fn law_iteration_cap(s: CegisState)
    requires
        s.wf(),
    ensures
        s.iterations.len() <= s.max_iterations,
{
}

/// Diagnosis and the refinement that follows it always work on the most
/// recent counterexample of the run.
pub proof fn law_diagnosis_targets_latest_counterexample(s: CegisState)
    requires
        s.wf(),
        s.phase == CegisPhase::Diagnosing || s.phase == CegisPhase::Repairing || s.phase
            == CegisPhase::Refining,
    ensures
        is_last_counterexample(s.outcomes@, s.target as int),
{
}

} // verus!
