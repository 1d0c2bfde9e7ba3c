use vergil::cegis::{
    max_iterations_reason, total_tokens, verified_count, CegisAction, CegisEvent, CegisPhase,
    CegisState, IterationStats, VerifierVerdict,
};
use vergil::diagnosis::DiagnosisClass;
use vergil::source::Source;
use vergil::synthesis::SpecCandidate;

fn candidate(name: &str) -> SpecCandidate {
    SpecCandidate {
        name: name.to_string(),
        halmos: format!("function {name}() public {{}}"),
        smtchecker: String::new(),
        template_ref: None,
        intent_satisfied: true,
        source: Source::UserIntent,
        intent_text: None,
    }
}

/// Feeds an event the way the driver does: only when the machine takes it.
fn feed(s: &mut CegisState, e: CegisEvent) -> CegisAction {
    assert!(s.accepts_event(&e), "event refused in phase {:?}", s.phase);
    s.step(e)
}

fn cex(msg: &str) -> VerifierVerdict {
    VerifierVerdict::Counterexample { message: msg.to_string() }
}

#[test]
fn verified_candidate_stops_the_run_on_the_first_iteration() {
    let (mut s, a) = CegisState::start(3);
    assert_eq!(a, CegisAction::Synthesize { iteration: 0 });
    let a = feed(
        &mut s,
        CegisEvent::Synthesized {
            candidates: vec![candidate("check_a"), candidate("check_b")],
            samples: vec![(10, 20), (5, 5)],
        },
    );
    assert_eq!(a, CegisAction::Critique);
    assert_eq!(s.stats.synthesized, 2);
    assert_eq!(s.stats.tokens_in, 15);
    assert_eq!(s.stats.tokens_out, 25);
    let a = feed(&mut s, CegisEvent::Critiqued { accepted: vec![true, false] });
    assert_eq!(a, CegisAction::GateMutation);
    assert_eq!(s.kept, vec![0]);
    assert_eq!(s.stats.dropped_critique, 1);
    let a = feed(&mut s, CegisEvent::Gated { below_min: vec![false] });
    assert_eq!(a, CegisAction::Dispatch);
    assert_eq!(s.survivors, vec![0]);
    let a = feed(
        &mut s,
        CegisEvent::Dispatched { verdicts: vec![VerifierVerdict::verified()], wall_clock_ms: 42 },
    );
    assert_eq!(a, CegisAction::Stop);
    assert_eq!(s.phase, CegisPhase::Stopped);
    assert_eq!(s.final_stop_reason(), "verified");
    assert_eq!(verified_count(&s.outcomes), 1);
    assert_eq!(s.iterations.len(), 1);
    assert_eq!(s.iterations[0].dispatched, 1);
    assert_eq!(s.iterations[0].verified, 1);
    assert_eq!(s.iterations[0].wall_clock_ms, 42);
    assert_eq!(s.outcomes[0].candidate.name, "check_a");
    assert_eq!(s.outcomes[0].candidate_index, 0);
}

#[test]
fn spec_bug_refines_then_hits_the_iteration_cap() {
    let (mut s, _) = CegisState::start(1);
    feed(&mut s, CegisEvent::Synthesized { candidates: vec![candidate("check_a")], samples: vec![] });
    feed(&mut s, CegisEvent::Critiqued { accepted: vec![true] });
    feed(&mut s, CegisEvent::Gated { below_min: vec![false] });
    let a = feed(&mut s, CegisEvent::Dispatched { verdicts: vec![cex("boom")], wall_clock_ms: 1 });
    assert_eq!(a, CegisAction::Diagnose { outcome: 0 });
    let a = feed(&mut s, CegisEvent::Diagnosed { class: DiagnosisClass::SpecBug });
    assert_eq!(a, CegisAction::RefineSpec { outcome: 0 });
    assert_eq!(s.iterations[0].diagnosis, Some(DiagnosisClass::SpecBug));
    let a = feed(&mut s, CegisEvent::Refined { error: None });
    assert_eq!(a, CegisAction::CheckCost);
    let a = feed(&mut s, CegisEvent::CostChecked { over_budget: None });
    assert_eq!(a, CegisAction::Stop);
    assert_eq!(s.final_stop_reason(), "max_iterations (1)");
}

#[test]
fn code_bug_repairs_and_starts_the_next_iteration() {
    let (mut s, _) = CegisState::start(2);
    feed(&mut s, CegisEvent::Synthesized { candidates: vec![candidate("check_a")], samples: vec![] });
    feed(&mut s, CegisEvent::Critiqued { accepted: vec![true] });
    feed(&mut s, CegisEvent::Gated { below_min: vec![false] });
    feed(&mut s, CegisEvent::Dispatched { verdicts: vec![cex("c")], wall_clock_ms: 1 });
    let a = feed(&mut s, CegisEvent::Diagnosed { class: DiagnosisClass::CodeBug });
    assert_eq!(a, CegisAction::RepairCode { outcome: 0 });
    feed(&mut s, CegisEvent::Repaired { error: None });
    let a = feed(&mut s, CegisEvent::CostChecked { over_budget: None });
    assert_eq!(a, CegisAction::Synthesize { iteration: 1 });
    assert_eq!(s.iteration, 1);
    assert!(s.pending.is_empty());
}

#[test]
fn ambiguous_diagnosis_stops_the_run() {
    let (mut s, _) = CegisState::start(5);
    feed(&mut s, CegisEvent::Synthesized { candidates: vec![candidate("check_a")], samples: vec![] });
    feed(&mut s, CegisEvent::Critiqued { accepted: vec![true] });
    feed(&mut s, CegisEvent::Gated { below_min: vec![false] });
    feed(&mut s, CegisEvent::Dispatched { verdicts: vec![cex("c")], wall_clock_ms: 1 });
    let a = feed(&mut s, CegisEvent::Diagnosed { class: DiagnosisClass::Ambiguous });
    assert_eq!(a, CegisAction::Stop);
    assert_eq!(s.final_stop_reason(), "ambiguous_diagnosis");
}

#[test]
fn repair_failure_stops_with_its_message() {
    let (mut s, _) = CegisState::start(5);
    feed(&mut s, CegisEvent::Synthesized { candidates: vec![candidate("check_a")], samples: vec![] });
    feed(&mut s, CegisEvent::Critiqued { accepted: vec![true] });
    feed(&mut s, CegisEvent::Gated { below_min: vec![false] });
    feed(&mut s, CegisEvent::Dispatched { verdicts: vec![cex("c")], wall_clock_ms: 1 });
    feed(&mut s, CegisEvent::Diagnosed { class: DiagnosisClass::CodeBug });
    let a = feed(&mut s, CegisEvent::Repaired { error: Some("llm down".to_string()) });
    assert_eq!(a, CegisAction::Stop);
    assert_eq!(s.final_stop_reason(), "repair_code error: llm down");
}

#[test]
fn cost_budget_stops_the_run() {
    let (mut s, _) = CegisState::start(5);
    feed(&mut s, CegisEvent::Synthesized { candidates: vec![candidate("check_a")], samples: vec![] });
    feed(&mut s, CegisEvent::Critiqued { accepted: vec![true] });
    feed(&mut s, CegisEvent::Gated { below_min: vec![false] });
    feed(&mut s, CegisEvent::Dispatched { verdicts: vec![cex("c")], wall_clock_ms: 1 });
    feed(&mut s, CegisEvent::Diagnosed { class: DiagnosisClass::SpecBug });
    feed(&mut s, CegisEvent::Refined { error: None });
    let a = feed(
        &mut s,
        CegisEvent::CostChecked { over_budget: Some((format!("{:.2}", 1.2f64), format!("{:.2}", 1.0f64))) },
    );
    assert_eq!(a, CegisAction::Stop);
    assert_eq!(s.final_stop_reason(), "cost budget $1.20 reached (limit $1.00)");
    assert_eq!(s.iteration, 0);
}

#[test]
fn mutation_dropped_candidates_are_recorded_and_not_run() {
    let (mut s, _) = CegisState::start(2);
    feed(
        &mut s,
        CegisEvent::Synthesized { candidates: vec![candidate("check_a"), candidate("check_b")], samples: vec![] },
    );
    feed(&mut s, CegisEvent::Critiqued { accepted: vec![true, true] });
    let a = feed(&mut s, CegisEvent::Gated { below_min: vec![true, true] });
    assert_eq!(a, CegisAction::Dispatch);
    assert_eq!(s.outcomes.len(), 2);
    assert!(s.outcomes.iter().all(|o| o.mutation_dropped));
    assert!(matches!(s.outcomes[1].verifier_verdict, VerifierVerdict::NotRun));
    assert_eq!(s.stats.dropped_mutation, 2);
    let a = feed(&mut s, CegisEvent::Dispatched { verdicts: vec![], wall_clock_ms: 0 });
    assert_eq!(a, CegisAction::Stop);
    assert_eq!(s.final_stop_reason(), "no_definitive_verdict");
}

#[test]
fn diagnosis_targets_the_latest_counterexample() {
    let (mut s, _) = CegisState::start(3);
    feed(
        &mut s,
        CegisEvent::Synthesized {
            candidates: vec![candidate("check_a"), candidate("check_b"), candidate("check_c")],
            samples: vec![],
        },
    );
    feed(&mut s, CegisEvent::Critiqued { accepted: vec![true, true, true] });
    feed(&mut s, CegisEvent::Gated { below_min: vec![false, false, false] });
    let a = feed(
        &mut s,
        CegisEvent::Dispatched {
            verdicts: vec![cex("first"), cex("second"), VerifierVerdict::Unknown { detail: "t".to_string() }],
            wall_clock_ms: 3,
        },
    );
    assert_eq!(a, CegisAction::Diagnose { outcome: 1 });
    assert_eq!(s.target, 1);
    assert_eq!(s.iterations[0].counterexamples, 2);
}

#[test]
fn zero_iteration_cap_stops_before_synthesis() {
    let (s, a) = CegisState::start(0);
    assert_eq!(a, CegisAction::Stop);
    assert_eq!(s.final_stop_reason(), "max_iterations (0)");
    assert_eq!(max_iterations_reason(7), "max_iterations (7)");
}

#[test]
fn events_out_of_phase_are_refused() {
    let (s, _) = CegisState::start(2);
    assert!(!s.accepts_event(&CegisEvent::Critiqued { accepted: vec![] }));
    assert!(s.accepts_event(&CegisEvent::Synthesized { candidates: vec![], samples: vec![] }));
}

#[test]
fn token_totals_sum_every_iteration() {
    let mut a = IterationStats::new(0);
    a.tokens_in = 100;
    a.tokens_out = 7;
    let mut b = IterationStats::new(1);
    b.tokens_in = 23;
    b.tokens_out = 3;
    let its = vec![a, b];
    assert_eq!(total_tokens(&its, true), 123);
    assert_eq!(total_tokens(&its, false), 10);
}
