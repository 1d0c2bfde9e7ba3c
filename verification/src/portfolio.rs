//! Portfolio dispatch: Halmos and SMTChecker race on one property and the
//! first definitive verdict wins.
//!
//! The race itself (spawning the solvers, awaiting whichever finishes
//! first) is I/O; what is decided here is what each finished backend
//! means and when the race is over: a definitive outcome (Verified or
//! Counterexample) ends it at once and cancels the backend still running;
//! when both finish without one (unknown, timed out or errored, both
//! errored included), the result is `Unknown` carrying both backends'
//! outcomes, Halmos before SMTChecker, so each one's detail is reported.
use vstd::prelude::*;

use crate::layout::{join_path, spec_join_path};

verus! {

#[derive(Debug, Clone, Copy, PartialEq, Eq, Structural)]
pub enum Backend {
    Halmos,
    SmtChecker,
}

#[derive(Debug, Clone, Copy, PartialEq, Eq, Structural)]
pub enum BackendState {
    Verified,
    Counterexample,
    Unknown,
    Timeout,
    Error,
}

/// What one backend reported.
#[derive(Debug, Clone)]
pub struct BackendOutcome {
    pub backend: Backend,
    pub state: BackendState,
    pub detail: String,
    pub wall_clock_ms: u64,
    /// Digest of the SMT-LIB query the backend dumped, when it dumped one.
    pub smt_query_sha256: Option<String>,
}

/// Verdict of a whole portfolio run on one property.
#[derive(Debug, Clone)]
pub enum Verdict {
    Verified { backend: Backend, wall_clock_ms: u64, smt_query_sha256: Option<String> },
    Counterexample { backend: Backend, property: String, message: String, wall_clock_ms: u64 },
    Unknown { backends: Vec<BackendOutcome> },
    Error { backends: Vec<BackendOutcome> },
}

#[derive(Debug, Clone)]
pub struct PortfolioResult {
    pub property: String,
    pub verdict: Verdict,
}

/// Configuration for a portfolio run. Paths are kept as text.
#[derive(Debug, Clone)]
pub struct PortfolioConfig {
    /// Foundry project directory (contains `foundry.toml`).
    pub project: String,
    /// `check_*` function name Halmos will verify.
    pub property: String,
    /// Source file passed to SMTChecker.
    pub smtchecker_source: String,
    /// Per-backend wall-clock budget, in milliseconds.
    pub budget_ms: u64,
    /// Dump the SMT queries so the winning verdict carries their digest.
    pub capture_smt_queries: bool,
    /// Where captured queries are persisted, when they are.
    pub smt_persist_dir: Option<String>,
}

/// Copy of an optional string that Verus knows to be equal to it.
pub fn copy_opt_string(s: &Option<String>) -> (r: Option<String>)
    ensures
        r == *s,
{
    match s {
        Some(x) => Some(x.clone()),
        None => None,
    }
}

impl BackendOutcome {
    /// A copy equal to `self`.
    pub fn duplicate(&self) -> (r: BackendOutcome)
        ensures
            r == *self,
    {
        BackendOutcome {
            backend: self.backend,
            state: self.state,
            detail: self.detail.clone(),
            wall_clock_ms: self.wall_clock_ms,
            smt_query_sha256: copy_opt_string(&self.smt_query_sha256),
        }
    }

    /// The state ends the race: the backend proved or refuted the property.
    pub open spec fn is_definitive(self) -> bool {
        self.state == BackendState::Verified || self.state == BackendState::Counterexample
    }

    /// `r` is the verdict a definitive outcome stands for, for `property`.
    pub open spec fn definitive_verdict_is(self, property: Seq<char>, r: Verdict) -> bool {
        match r {
            Verdict::Verified { backend, wall_clock_ms, smt_query_sha256 } => {
                &&& self.state == BackendState::Verified
                &&& backend == self.backend
                &&& wall_clock_ms == self.wall_clock_ms
                &&& smt_query_sha256 == self.smt_query_sha256
            },
            Verdict::Counterexample { backend, property: p, message, wall_clock_ms } => {
                &&& self.state == BackendState::Counterexample
                &&& backend == self.backend
                &&& p@ == property
                &&& message == self.detail
                &&& wall_clock_ms == self.wall_clock_ms
            },
            _ => false,
        }
    }

    /// Verified and Counterexample outcomes become the run's verdict;
    /// Unknown, Timeout and Error do not.
    pub fn try_definitive(&self, property: &str) -> (r: Option<Verdict>)
        ensures
            r is Some <==> self.is_definitive(),
            r matches Some(v) ==> self.definitive_verdict_is(property@, v),
    {
        match self.state {
            BackendState::Verified => Some(
                Verdict::Verified {
                    backend: self.backend,
                    wall_clock_ms: self.wall_clock_ms,
                    smt_query_sha256: copy_opt_string(&self.smt_query_sha256),
                },
            ),
            BackendState::Counterexample => Some(
                Verdict::Counterexample {
                    backend: self.backend,
                    property: String::from_str(property),
                    message: self.detail.clone(),
                    wall_clock_ms: self.wall_clock_ms,
                },
            ),
            BackendState::Unknown | BackendState::Timeout | BackendState::Error => None,
        }
    }
}

impl PortfolioConfig {
    /// Turns SMT query capture on and, unless a directory was already
    /// chosen, persists the queries under `<project>/vergil-out/smt`.
    pub fn with_smt_capture(self) -> (r: PortfolioConfig)
        ensures
            r.capture_smt_queries,
            r.project == self.project,
            r.property == self.property,
            r.smtchecker_source == self.smtchecker_source,
            r.budget_ms == self.budget_ms,
            self.smt_persist_dir is Some ==> r.smt_persist_dir == self.smt_persist_dir,
            self.smt_persist_dir is None ==> (r.smt_persist_dir matches Some(d) && d@
                == spec_join_path(spec_join_path(self.project@, "vergil-out"@), "smt"@)),
    {
        let mut c = self;
        c.capture_smt_queries = true;
        if c.smt_persist_dir.is_none() {
            let out = join_path(c.project.as_str(), "vergil-out");
            c.smt_persist_dir = Some(join_path(out.as_str(), "smt"));
        }
        c
    }
}

/// The outcomes a finished race reports: Halmos's first, then SMTChecker's,
/// each where the backend reported one.
pub open spec fn collected(
    halmos: Option<BackendOutcome>,
    smtchecker: Option<BackendOutcome>,
) -> Seq<BackendOutcome> {
    let h = match halmos {
        Some(o) => seq![o],
        None => Seq::empty(),
    };
    let s = match smtchecker {
        Some(o) => seq![o],
        None => Seq::empty(),
    };
    h + s
}

/// `v` is the verdict of a race in which no backend was definitive and
/// `all` are the outcomes reported: `Unknown` listing them all, whatever
/// their states (two errors included).
pub open spec fn aggregate_is(all: Seq<BackendOutcome>, v: Verdict) -> bool {
    v matches Verdict::Unknown { backends } && backends@ == all
}

/// Verdict when both backends finished without a definitive outcome.
pub fn aggregate_outcomes(
    halmos: &Option<BackendOutcome>,
    smtchecker: &Option<BackendOutcome>,
) -> (v: Verdict)
    ensures
        aggregate_is(collected(*halmos, *smtchecker), v),
{
    let mut all: Vec<BackendOutcome> = Vec::new();
    if let Some(o) = halmos {
        all.push(o.duplicate());
    }
    if let Some(o) = smtchecker {
        all.push(o.duplicate());
    }
    assert(all@ =~= collected(*halmos, *smtchecker));
    Verdict::Unknown { backends: all }
}

/// An SMTChecker run counts as a proof exactly when it reported the
/// targets proved safe, and as a counterexample exactly when it reported a
/// violation; an unknown answer stays unknown, anything else is an error.
pub proof fn law_smt_state_follows_report(r: SmtCheckerReport)
    ensures
        spec_smt_fields(r).0 == BackendState::Verified <==> r is Verified,
        spec_smt_fields(r).0 == BackendState::Counterexample <==> r is Violation,
        spec_smt_fields(r).0 == BackendState::Unknown <==> r is Unknown,
        spec_smt_fields(r).0 == BackendState::Error <==> (r is Error || r is TaskFailed),
        spec_smt_fields(r).0 != BackendState::Timeout,
{
}

/// Only a solver proves: the portfolio's verdict is Verified only when a
/// backend itself reported Verified, and a race that no backend settled is
/// never Verified nor a counterexample.
pub proof fn law_only_a_backend_verifies(
    o: BackendOutcome,
    property: Seq<char>,
    v: Verdict,
    all: Seq<BackendOutcome>,
    w: Verdict,
)
    ensures
        o.definitive_verdict_is(property, v) && v is Verified ==> o.state == BackendState::Verified,
        o.definitive_verdict_is(property, v) && v is Counterexample ==> o.state
            == BackendState::Counterexample,
        aggregate_is(all, w) ==> !(w is Verified) && !(w is Counterexample),
{
}

/// What the driver of a race does after reporting a finished backend.
pub enum RaceStep {
    /// Keep waiting for the backend still running.
    Continue,
    /// The race is over with `result`; cancel the backends flagged.
    Decided { result: PortfolioResult, abort_halmos: bool, abort_smtchecker: bool },
}

/// State of one portfolio race on one property.
pub struct PortfolioRace {
    pub property: String,
    pub halmos_pending: bool,
    pub smtchecker_pending: bool,
    pub halmos: Option<BackendOutcome>,
    pub smtchecker: Option<BackendOutcome>,
}

impl PortfolioRace {
    /// A race in which both backends are still running.
    pub fn new(property: String) -> (r: PortfolioRace)
        ensures
            r.property == property,
            r.halmos_pending && r.smtchecker_pending,
            r.halmos is None && r.smtchecker is None,
    {
        PortfolioRace {
            property,
            halmos_pending: true,
            smtchecker_pending: true,
            halmos: None,
            smtchecker: None,
        }
    }

    pub open spec fn is_pending(self, b: Backend) -> bool {
        match b {
            Backend::Halmos => self.halmos_pending,
            Backend::SmtChecker => self.smtchecker_pending,
        }
    }

    /// Record that backend `outcome.backend` finished with `outcome`.
    ///
    /// A definitive outcome decides the race at once and cancels the other
    /// backend if it is still running. Otherwise the outcome is kept; once
    /// no backend is running, the race is decided by
    /// [`aggregate_outcomes`].
    pub fn record(&mut self, outcome: BackendOutcome) -> (step: RaceStep)
        requires
            old(self).is_pending(outcome.backend),
        ensures
            final(self).property == old(self).property,
            !final(self).is_pending(outcome.backend),
            final(self).is_pending(other_backend(outcome.backend)) == old(self).is_pending(
                other_backend(outcome.backend),
            ),
            outcome.is_definitive() ==> (step matches RaceStep::Decided {
                result,
                abort_halmos,
                abort_smtchecker,
            } && result.property == old(self).property
                && outcome.definitive_verdict_is(old(self).property@, result.verdict)
                && abort_halmos == (outcome.backend == Backend::SmtChecker
                && old(self).halmos_pending) && abort_smtchecker == (outcome.backend
                == Backend::Halmos && old(self).smtchecker_pending)),
            !outcome.is_definitive() && old(self).is_pending(other_backend(outcome.backend))
                ==> step is Continue,
            !outcome.is_definitive() && !old(self).is_pending(other_backend(outcome.backend))
                ==> (step matches RaceStep::Decided { result, abort_halmos, abort_smtchecker }
                && result.property == old(self).property && !abort_halmos && !abort_smtchecker
                && aggregate_is(collected(final(self).halmos, final(self).smtchecker), result.verdict)),
            !outcome.is_definitive() ==> (outcome.backend == Backend::Halmos ==> final(self).halmos
                == Some(outcome) && final(self).smtchecker == old(self).smtchecker),
            !outcome.is_definitive() ==> (outcome.backend == Backend::SmtChecker
                ==> final(self).smtchecker == Some(outcome) && final(self).halmos == old(
                self).halmos),
    {
        let b = outcome.backend;
        match b {
            Backend::Halmos => {
                self.halmos_pending = false;
            },
            Backend::SmtChecker => {
                self.smtchecker_pending = false;
            },
        }
        if let Some(v) = outcome.try_definitive(self.property.as_str()) {
            let abort_halmos = b == Backend::SmtChecker && self.halmos_pending;
            let abort_smtchecker = b == Backend::Halmos && self.smtchecker_pending;
            match b {
                Backend::Halmos => {
                    self.halmos = Some(outcome);
                },
                Backend::SmtChecker => {
                    self.smtchecker = Some(outcome);
                },
            }
            return RaceStep::Decided {
                result: PortfolioResult { property: self.property.clone(), verdict: v },
                abort_halmos,
                abort_smtchecker,
            };
        }
        match b {
            Backend::Halmos => {
                self.halmos = Some(outcome);
            },
            Backend::SmtChecker => {
                self.smtchecker = Some(outcome);
            },
        }
        if self.halmos_pending || self.smtchecker_pending {
            RaceStep::Continue
        } else {
            let v = aggregate_outcomes(&self.halmos, &self.smtchecker);
            RaceStep::Decided {
                result: PortfolioResult { property: self.property.clone(), verdict: v },
                abort_halmos: false,
                abort_smtchecker: false,
            }
        }
    }
}

/// The backend racing against `b`.
pub open spec fn other_backend(b: Backend) -> Backend {
    match b {
        Backend::Halmos => Backend::SmtChecker,
        Backend::SmtChecker => Backend::Halmos,
    }
}

/// Stable lowercase label of a backend.
pub open spec fn spec_backend_label(b: Backend) -> Seq<char> {
    match b {
        Backend::Halmos => "halmos"@,
        Backend::SmtChecker => "smtchecker"@,
    }
}

/// Stable lowercase label of a backend (`"halmos"` / `"smtchecker"`).
pub fn backend_label(b: Backend) -> (s: String)
    ensures
        s@ == spec_backend_label(b),
{
    match b {
        Backend::Halmos => String::from_str("halmos"),
        Backend::SmtChecker => String::from_str("smtchecker"),
    }
}

/// How a Halmos run ended, as far as the portfolio reads it.
pub enum HalmosReport {
    Verified { wall_clock_ms: u64, smt_query_sha256: Option<String> },
    /// `inputs` counts the concrete inputs of the trace.
    Counterexample { inputs: u64, wall_clock_ms: u64 },
    Unknown { reason: String, wall_clock_ms: u64 },
    Timeout { wall_clock_ms: u64 },
    Error { stage: String, message: String },
    /// The task running Halmos failed; `message` is its error text.
    TaskFailed { message: String },
}

/// How an SMTChecker run ended, as far as the portfolio reads it.
pub enum SmtCheckerReport {
    Verified { proved_safe_count: u64, wall_clock_ms: u64, smt_query_sha256: Option<String> },
    Violation { message: String, wall_clock_ms: u64 },
    Unknown { reason: String, wall_clock_ms: u64 },
    Error { message: String },
    TaskFailed { message: String },
}

/// `detail` of a Halmos outcome.
pub open spec fn spec_halmos_detail(r: HalmosReport) -> Seq<char> {
    match r {
        HalmosReport::Verified { .. } => "verified"@,
        HalmosReport::Counterexample { inputs, .. } => "counterexample with "@ + crate::text::decimal(
            inputs as nat,
        ) + " inputs"@,
        HalmosReport::Unknown { reason, .. } => reason@,
        HalmosReport::Timeout { .. } => "wall-clock timeout"@,
        HalmosReport::Error { stage, message } => stage@ + " error: "@ + message@,
        HalmosReport::TaskFailed { message } => "halmos task panic: "@ + message@,
    }
}

/// `(state, wall_clock_ms, smt_query_sha256)` of a Halmos outcome.
pub open spec fn spec_halmos_fields(r: HalmosReport) -> (BackendState, u64, Option<String>) {
    match r {
        HalmosReport::Verified { wall_clock_ms, smt_query_sha256 } => (
            BackendState::Verified,
            wall_clock_ms,
            smt_query_sha256,
        ),
        HalmosReport::Counterexample { wall_clock_ms, .. } => (
            BackendState::Counterexample,
            wall_clock_ms,
            None,
        ),
        HalmosReport::Unknown { wall_clock_ms, .. } => (BackendState::Unknown, wall_clock_ms, None),
        HalmosReport::Timeout { wall_clock_ms } => (BackendState::Timeout, wall_clock_ms, None),
        HalmosReport::Error { .. } => (BackendState::Error, 0, None),
        HalmosReport::TaskFailed { .. } => (BackendState::Error, 0, None),
    }
}

/// The outcome a Halmos run stands for in the portfolio.
pub fn halmos_to_outcome(r: HalmosReport) -> (o: BackendOutcome)
    ensures
        o.backend == Backend::Halmos,
        o.detail@ == spec_halmos_detail(r),
        (o.state, o.wall_clock_ms, o.smt_query_sha256) == spec_halmos_fields(r),
{
    match r {
        HalmosReport::Verified { wall_clock_ms, smt_query_sha256 } => BackendOutcome {
            backend: Backend::Halmos,
            state: BackendState::Verified,
            detail: String::from_str("verified"),
            wall_clock_ms,
            smt_query_sha256,
        },
        HalmosReport::Counterexample { inputs, wall_clock_ms } => {
            let mut d = String::from_str("counterexample with ");
            crate::text::push_decimal(&mut d, inputs);
            d.append(" inputs");
            BackendOutcome {
                backend: Backend::Halmos,
                state: BackendState::Counterexample,
                detail: d,
                wall_clock_ms,
                smt_query_sha256: None,
            }
        },
        HalmosReport::Unknown { reason, wall_clock_ms } => BackendOutcome {
            backend: Backend::Halmos,
            state: BackendState::Unknown,
            detail: reason,
            wall_clock_ms,
            smt_query_sha256: None,
        },
        HalmosReport::Timeout { wall_clock_ms } => BackendOutcome {
            backend: Backend::Halmos,
            state: BackendState::Timeout,
            detail: String::from_str("wall-clock timeout"),
            wall_clock_ms,
            smt_query_sha256: None,
        },
        HalmosReport::Error { stage, message } => {
            let d = stage.concat(" error: ").concat(message.as_str());
            BackendOutcome {
                backend: Backend::Halmos,
                state: BackendState::Error,
                detail: d,
                wall_clock_ms: 0,
                smt_query_sha256: None,
            }
        },
        HalmosReport::TaskFailed { message } => {
            let d = String::from_str("halmos task panic: ").concat(message.as_str());
            BackendOutcome {
                backend: Backend::Halmos,
                state: BackendState::Error,
                detail: d,
                wall_clock_ms: 0,
                smt_query_sha256: None,
            }
        },
    }
}

/// `detail` of an SMTChecker outcome.
pub open spec fn spec_smt_detail(r: SmtCheckerReport) -> Seq<char> {
    match r {
        SmtCheckerReport::Verified { proved_safe_count, .. } => crate::text::decimal(
            proved_safe_count as nat,
        ) + " target(s) proved safe"@,
        SmtCheckerReport::Violation { message, .. } => message@,
        SmtCheckerReport::Unknown { reason, .. } => reason@,
        SmtCheckerReport::Error { message } => message@,
        SmtCheckerReport::TaskFailed { message } => "smtchecker task panic: "@ + message@,
    }
}

/// `(state, wall_clock_ms, smt_query_sha256)` of an SMTChecker outcome.
pub open spec fn spec_smt_fields(r: SmtCheckerReport) -> (BackendState, u64, Option<String>) {
    match r {
        SmtCheckerReport::Verified { wall_clock_ms, smt_query_sha256, .. } => (
            BackendState::Verified,
            wall_clock_ms,
            smt_query_sha256,
        ),
        SmtCheckerReport::Violation { wall_clock_ms, .. } => (
            BackendState::Counterexample,
            wall_clock_ms,
            None,
        ),
        SmtCheckerReport::Unknown { wall_clock_ms, .. } => (
            BackendState::Unknown,
            wall_clock_ms,
            None,
        ),
        SmtCheckerReport::Error { .. } => (BackendState::Error, 0, None),
        SmtCheckerReport::TaskFailed { .. } => (BackendState::Error, 0, None),
    }
}

/// A Halmos run counts as a proof exactly when Halmos itself reported
/// Verified, and as a counterexample exactly when it reported one; an
/// unknown answer stays unknown (with its reason as the detail), a
/// timeout stays a timeout, and anything else is an error.
pub proof fn law_halmos_state_follows_report(r: HalmosReport)
    ensures
        spec_halmos_fields(r).0 == BackendState::Verified <==> r is Verified,
        spec_halmos_fields(r).0 == BackendState::Counterexample <==> r is Counterexample,
        spec_halmos_fields(r).0 == BackendState::Unknown <==> r is Unknown,
        spec_halmos_fields(r).0 == BackendState::Timeout <==> r is Timeout,
        spec_halmos_fields(r).0 == BackendState::Error <==> (r is Error || r is TaskFailed),
        r matches HalmosReport::Unknown { reason, wall_clock_ms } ==> spec_halmos_detail(r) == reason@
            && spec_halmos_fields(r).1 == wall_clock_ms && spec_halmos_fields(r).2 is None,
{
}

/// The outcome an SMTChecker run stands for in the portfolio.
pub fn smt_to_outcome(r: SmtCheckerReport) -> (o: BackendOutcome)
    ensures
        o.backend == Backend::SmtChecker,
        o.detail@ == spec_smt_detail(r),
        (o.state, o.wall_clock_ms, o.smt_query_sha256) == spec_smt_fields(r),
{
    match r {
        SmtCheckerReport::Verified { proved_safe_count, wall_clock_ms, smt_query_sha256 } => {
            let mut d = String::new();
            crate::text::push_decimal(&mut d, proved_safe_count);
            d.append(" target(s) proved safe");
            assert(Seq::<char>::empty() + crate::text::decimal(proved_safe_count as nat)
                =~= crate::text::decimal(proved_safe_count as nat));
            BackendOutcome {
                backend: Backend::SmtChecker,
                state: BackendState::Verified,
                detail: d,
                wall_clock_ms,
                smt_query_sha256,
            }
        },
        SmtCheckerReport::Violation { message, wall_clock_ms } => BackendOutcome {
            backend: Backend::SmtChecker,
            state: BackendState::Counterexample,
            detail: message,
            wall_clock_ms,
            smt_query_sha256: None,
        },
        SmtCheckerReport::Unknown { reason, wall_clock_ms } => BackendOutcome {
            backend: Backend::SmtChecker,
            state: BackendState::Unknown,
            detail: reason,
            wall_clock_ms,
            smt_query_sha256: None,
        },
        SmtCheckerReport::Error { message } => BackendOutcome {
            backend: Backend::SmtChecker,
            state: BackendState::Error,
            detail: message,
            wall_clock_ms: 0,
            smt_query_sha256: None,
        },
        SmtCheckerReport::TaskFailed { message } => {
            let d = String::from_str("smtchecker task panic: ").concat(message.as_str());
            BackendOutcome {
                backend: Backend::SmtChecker,
                state: BackendState::Error,
                detail: d,
                wall_clock_ms: 0,
                smt_query_sha256: None,
            }
        },
    }
}

} // verus!
