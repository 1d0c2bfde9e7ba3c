//! Telemetry: the stable names of the event kinds the runs emit, and the
//! sink that drops every event. Writing events is I/O.
use vstd::prelude::*;

verus! {

/// One synthesis sample (index, temperature, tokens, latency, count).
pub const SYNTH_SAMPLE: &'static str = "synth_sample";
/// Critique kept/dropped counts of an iteration.
pub const CRITIQUE_SUMMARY: &'static str = "critique_summary";
/// Mutation gate kept/dropped counts of an iteration.
pub const MUTATION_SUMMARY: &'static str = "mutation_summary";
/// Dispatch counts of an iteration.
pub const DISPATCH_SUMMARY: &'static str = "dispatch_summary";
/// Tokens, spend and time of a run.
pub const COST: &'static str = "cost";
pub const WALL_CLOCK: &'static str = "wall_clock";
/// The last event of a run.
pub const RUN_COMPLETE: &'static str = "run_complete";
/// A counterexample file was written.
pub const COUNTEREXAMPLE_FOUND: &'static str = "counterexample_found";
/// Counts of one structural-mining pass.
pub const STRUCTURAL_CANDIDATES_EMITTED: &'static str = "structural_candidates_emitted";

/// The sink used when no telemetry file is requested: it keeps nothing.
#[derive(Debug, Clone, Copy, PartialEq, Eq, Structural)]
pub struct NullSink;

} // verus!
