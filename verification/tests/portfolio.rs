use vergil::portfolio::{
    aggregate_outcomes, backend_label, halmos_to_outcome, smt_to_outcome, Backend,
    BackendOutcome, BackendState, HalmosReport, PortfolioConfig, PortfolioRace, RaceStep,
    SmtCheckerReport, Verdict,
};

fn outcome(backend: Backend, state: BackendState, detail: &str, ms: u64) -> BackendOutcome {
    BackendOutcome {
        backend,
        state,
        detail: detail.to_string(),
        wall_clock_ms: ms,
        smt_query_sha256: None,
    }
}

#[test]
fn verified_outcome_is_definitive() {
    let o = BackendOutcome {
        backend: Backend::Halmos,
        state: BackendState::Verified,
        detail: String::new(),
        wall_clock_ms: 100,
        smt_query_sha256: None,
    };
    match o.try_definitive("p") {
        Some(Verdict::Verified { backend, .. }) => assert_eq!(backend, Backend::Halmos),
        other => panic!("expected Verified, got {other:?}"),
    }
}

#[test]
fn verified_threads_smt_query_sha_into_verdict() {
    let h = "a".repeat(64);
    let o = BackendOutcome {
        backend: Backend::Halmos,
        state: BackendState::Verified,
        detail: String::new(),
        wall_clock_ms: 1,
        smt_query_sha256: Some(h.clone()),
    };
    match o.try_definitive("p").unwrap() {
        Verdict::Verified { smt_query_sha256, .. } => assert_eq!(smt_query_sha256, Some(h)),
        other => panic!("expected Verified, got {other:?}"),
    }
}

#[test]
fn counterexample_outcome_is_definitive() {
    let o = BackendOutcome {
        backend: Backend::SmtChecker,
        state: BackendState::Counterexample,
        detail: "boom".into(),
        wall_clock_ms: 50,
        smt_query_sha256: None,
    };
    match o.try_definitive("check_x") {
        Some(Verdict::Counterexample { backend, property, message, .. }) => {
            assert_eq!(backend, Backend::SmtChecker);
            assert_eq!(property, "check_x");
            assert_eq!(message, "boom");
        }
        other => panic!("expected Counterexample, got {other:?}"),
    }
}

#[test]
fn unknown_and_timeout_are_not_definitive() {
    for state in [BackendState::Unknown, BackendState::Timeout, BackendState::Error] {
        let o = BackendOutcome {
            backend: Backend::Halmos,
            state,
            detail: String::new(),
            wall_clock_ms: 0,
            smt_query_sha256: None,
        };
        assert!(o.try_definitive("p").is_none(), "{state:?}");
    }
}

#[test]
fn aggregate_all_errors_is_unknown_in_backend_order() {
    let v = aggregate_outcomes(
        &Some(outcome(Backend::Halmos, BackendState::Error, "h", 1)),
        &Some(outcome(Backend::SmtChecker, BackendState::Error, "s", 2)),
    );
    match v {
        Verdict::Unknown { backends } => {
            assert_eq!(backends.len(), 2);
            assert_eq!(backends[0].backend, Backend::Halmos);
            assert_eq!(backends[0].detail, "h");
            assert_eq!(backends[1].backend, Backend::SmtChecker);
            assert_eq!(backends[1].detail, "s");
        }
        other => panic!("expected Unknown, got {other:?}"),
    }
}

#[test]
fn aggregate_mixed_is_unknown() {
    let v = aggregate_outcomes(
        &Some(outcome(Backend::Halmos, BackendState::Timeout, "t", 1)),
        &Some(outcome(Backend::SmtChecker, BackendState::Error, "e", 2)),
    );
    assert!(matches!(v, Verdict::Unknown { ref backends } if backends.len() == 2));
}

#[test]
fn race_definitive_first_outcome_aborts_the_other_backend() {
    let mut race = PortfolioRace::new("check_x".to_string());
    let step = race.record(outcome(Backend::SmtChecker, BackendState::Counterexample, "cex", 7));
    match step {
        RaceStep::Decided { result, abort_halmos, abort_smtchecker } => {
            assert_eq!(result.property, "check_x");
            assert!(abort_halmos);
            assert!(!abort_smtchecker);
            match result.verdict {
                Verdict::Counterexample { message, wall_clock_ms, .. } => {
                    assert_eq!(message, "cex");
                    assert_eq!(wall_clock_ms, 7);
                }
                other => panic!("expected Counterexample, got {other:?}"),
            }
        }
        RaceStep::Continue => panic!("a counterexample decides the race"),
    }
}

#[test]
fn race_waits_for_both_when_nothing_is_definitive() {
    let mut race = PortfolioRace::new("p".to_string());
    let first = race.record(outcome(Backend::Halmos, BackendState::Timeout, "slow", 5));
    assert!(matches!(first, RaceStep::Continue));
    let second = race.record(outcome(Backend::SmtChecker, BackendState::Unknown, "?", 6));
    match second {
        RaceStep::Decided { result, abort_halmos, abort_smtchecker } => {
            assert!(!abort_halmos && !abort_smtchecker);
            match result.verdict {
                Verdict::Unknown { backends } => {
                    assert_eq!(backends.len(), 2);
                    assert_eq!(backends[0].backend, Backend::Halmos);
                    assert_eq!(backends[0].detail, "slow");
                    assert_eq!(backends[1].detail, "?");
                }
                other => panic!("expected Unknown, got {other:?}"),
            }
        }
        RaceStep::Continue => panic!("both backends finished"),
    }
}

#[test]
fn backend_labels_are_lowercase() {
    assert_eq!(backend_label(Backend::Halmos), "halmos");
    assert_eq!(backend_label(Backend::SmtChecker), "smtchecker");
}

#[test]
fn halmos_reports_map_to_outcomes() {
    let o = halmos_to_outcome(HalmosReport::Counterexample { inputs: 3, wall_clock_ms: 12 });
    assert_eq!(o.state, BackendState::Counterexample);
    assert_eq!(o.detail, "counterexample with 3 inputs");
    assert_eq!(o.wall_clock_ms, 12);
    let o = halmos_to_outcome(HalmosReport::Error {
        stage: "compile".to_string(),
        message: "bad".to_string(),
    });
    assert_eq!(o.state, BackendState::Error);
    assert_eq!(o.detail, "compile error: bad");
    let o = halmos_to_outcome(HalmosReport::Timeout { wall_clock_ms: 9 });
    assert_eq!(o.detail, "wall-clock timeout");
    assert_eq!(o.state, BackendState::Timeout);
    let o = halmos_to_outcome(HalmosReport::TaskFailed { message: "boom".to_string() });
    assert_eq!(o.detail, "halmos task panic: boom");
}

#[test]
fn smtchecker_reports_map_to_outcomes() {
    let o = smt_to_outcome(SmtCheckerReport::Verified {
        proved_safe_count: 4,
        wall_clock_ms: 3,
        smt_query_sha256: Some("ab".to_string()),
    });
    assert_eq!(o.backend, Backend::SmtChecker);
    assert_eq!(o.state, BackendState::Verified);
    assert_eq!(o.smt_query_sha256.as_deref(), Some("ab"));
    let o = smt_to_outcome(SmtCheckerReport::Violation { message: "v".to_string(), wall_clock_ms: 2 });
    assert_eq!(o.state, BackendState::Counterexample);
    assert_eq!(o.detail, "v");
}

#[test]
fn smt_capture_turns_capture_on() {
    let c = PortfolioConfig {
        project: "proj".to_string(),
        property: "check_x".to_string(),
        smtchecker_source: "src/T.sol".to_string(),
        budget_ms: 1000,
        capture_smt_queries: false,
        smt_persist_dir: None,
    };
    let c = c.with_smt_capture();
    assert!(c.capture_smt_queries);
    assert_eq!(c.property, "check_x");
    assert_eq!(c.smt_persist_dir.as_deref(), Some("proj/vergil-out/smt"));
}
