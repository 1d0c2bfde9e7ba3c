use vergil::confirm::{
    check_schema, merge_resumed, parse_prompt_answer, source_wire, PromptAnswer, ConfirmError, ConfirmState, ConfirmStatus,
    Decision, DecisionRecord, ProposedIntent, CONFIRM_STATE_SCHEMA_VERSION,
};
use vergil::source::Source;

const NOW: &str = "2026-06-02T12:00:00Z";

fn now() -> String {
    NOW.to_string()
}

fn sample_intent(id: &str, src: Source) -> ProposedIntent {
    ProposedIntent {
        id: id.to_string(),
        source: src,
        intent_text: format!("English invariant for {id}"),
        rationale: format!("derived from {id} source"),
        confidence: format!("{}", 0.75f32),
        template_ref: match src {
            Source::AttackCatalog => Some("template-abc".to_string()),
            _ => None,
        },
    }
}

/// The `--yes` gate: every undecided intent is confirmed, in order.
fn run_auto_yes(mut state: ConfirmState) -> ConfirmState {
    let pending = state.open_gate(now());
    for intent in pending {
        state.decide(intent.id.clone(), Decision::Confirm, now());
    }
    if !state.proposed_intents.is_empty() {
        state.close_gate(now());
    }
    state
}

#[test]
fn auto_yes_confirms_every_intent_without_prompt() {
    let intents = vec![
        sample_intent("a", Source::AttackCatalog),
        sample_intent("b", Source::Tests),
        sample_intent("c", Source::NatSpec),
    ];
    let state = ConfirmState::new("run-1".into(), intents, now());
    let final_state = run_auto_yes(state);
    assert_eq!(final_state.status, ConfirmStatus::Complete);
    assert_eq!(final_state.decisions.len(), 3);
    for d in &final_state.decisions {
        assert!(matches!(d.decision, Decision::Confirm));
    }
    assert_eq!(final_state.confirmed_intents().len(), 3);
}

#[test]
fn resume_skips_already_decided_intents() {
    let intents = vec![
        sample_intent("a", Source::Tests),
        sample_intent("b", Source::NatSpec),
        sample_intent("c", Source::AttackCatalog),
    ];
    let mut state = ConfirmState::new("run-x".into(), intents.clone(), now());
    state.status = ConfirmStatus::InProgress;
    state.decisions.push(DecisionRecord {
        intent_id: "a".to_string(),
        decision: Decision::Confirm,
        decided_at: now(),
    });
    let resumed = merge_resumed(state, "run-x", intents, now()).unwrap();
    assert_eq!(resumed.decisions.len(), 1);
    assert_eq!(resumed.status, ConfirmStatus::InProgress);
    assert_eq!(resumed.undecided().len(), 2);
    let final_state = run_auto_yes(resumed);
    assert_eq!(final_state.decisions.len(), 3);
    let a = final_state.decisions.iter().find(|d| d.intent_id == "a").unwrap();
    assert!(matches!(a.decision, Decision::Confirm));
}

#[test]
fn resume_rejects_state_file_with_different_run_id() {
    let state = ConfirmState::new("previous-run".into(), vec![sample_intent("a", Source::Tests)], now());
    let err = merge_resumed(state, "different-run", vec![sample_intent("a", Source::Tests)], now()).unwrap_err();
    assert!(matches!(err, ConfirmError::RunIdMismatch { .. }));
    assert_eq!(
        err.message(),
        "run_id mismatch on resume: state file has previous-run, current run is different-run"
    );
}

#[test]
fn resume_without_existing_state_returns_fresh() {
    let intents = vec![sample_intent("a", Source::Tests)];
    let state = ConfirmState::new("fresh".to_string(), intents, now());
    assert_eq!(state.status, ConfirmStatus::Pending);
    assert!(state.decisions.is_empty());
    assert_eq!(state.schema_version, CONFIRM_STATE_SCHEMA_VERSION);
}

#[test]
fn resume_drops_decisions_for_intents_no_longer_proposed() {
    let mut state = ConfirmState::new(
        "r".into(),
        vec![sample_intent("a", Source::Tests), sample_intent("gone", Source::Tests)],
        "2026-01-01T00:00:00Z".to_string(),
    );
    state.decide("gone".to_string(), Decision::Skip, now());
    state.decide("a".to_string(), Decision::Confirm, now());
    let merged = merge_resumed(state, "r", vec![sample_intent("a", Source::Tests)], now()).unwrap();
    assert_eq!(merged.decisions.len(), 1);
    assert_eq!(merged.decisions[0].intent_id, "a");
    assert_eq!(merged.status, ConfirmStatus::Complete);
    assert_eq!(merged.started_at, "2026-01-01T00:00:00Z");
    assert_eq!(merged.updated_at, NOW);
}

#[test]
fn tty_interactive_collects_each_decision_in_order() {
    let intents = vec![
        sample_intent("a", Source::Tests),
        sample_intent("b", Source::NatSpec),
        sample_intent("c", Source::AttackCatalog),
    ];
    let mut state = ConfirmState::new("run-1".into(), intents, now());
    let pending = state.open_gate(now());
    let answers = [
        Decision::Confirm,
        Decision::Skip,
        Decision::Edit { new_text: "edited c".to_string() },
    ];
    for (intent, d) in pending.iter().zip(answers) {
        state.decide(intent.id.clone(), d, now());
    }
    state.close_gate(now());
    assert_eq!(state.status, ConfirmStatus::Complete);
    let ids: Vec<&str> = state.decisions.iter().map(|d| d.intent_id.as_str()).collect();
    assert_eq!(ids, vec!["a", "b", "c"]);
    let confirmed = state.confirmed_intents();
    assert_eq!(confirmed.len(), 2);
    assert_eq!(confirmed[0].0.id, "a");
    assert_eq!(confirmed[1].0.id, "c");
    assert!(matches!(&confirmed[1].1, Decision::Edit { new_text } if new_text == "edited c"));
}

#[test]
fn load_state_rejects_unsupported_schema_version() {
    let mut state = ConfirmState::new("run-1".into(), vec![sample_intent("a", Source::Tests)], now());
    state.schema_version = 99;
    let err = check_schema(state).unwrap_err();
    assert!(matches!(err, ConfirmError::SchemaMismatch { got: 99, expected: 1 }));
    assert_eq!(err.message(), "schema_version 99 unsupported (expected 1)");
}

#[test]
fn supported_schema_version_is_accepted() {
    let state = ConfirmState::new("run-1".into(), Vec::new(), now());
    assert!(check_schema(state).is_ok());
}

#[test]
fn empty_intent_list_completes_immediately() {
    let state = ConfirmState::new("run-1".into(), Vec::new(), now());
    let final_state = run_auto_yes(state);
    assert_eq!(final_state.status, ConfirmStatus::Complete);
    assert!(final_state.decisions.is_empty());
    assert!(final_state.confirmed_intents().is_empty());
}

#[test]
fn decided_ids_and_source_wire_names() {
    let mut state = ConfirmState::new("r".into(), vec![sample_intent("a", Source::Tests)], now());
    assert!(!state.is_decided(&"a".to_string()));
    state.decide("a".to_string(), Decision::Skip, now());
    assert!(state.is_decided(&"a".to_string()));
    assert_eq!(state.decided_ids(), vec!["a".to_string()]);
    assert!(state.undecided().is_empty());
    assert!(state.confirmed_intents().is_empty());
    assert_eq!(source_wire(Source::NatSpec), "nat_spec");
    assert_eq!(source_wire(Source::AttackCatalog), "attack_catalog");
}

/// The interactive gate driven by typed lines: `a` arms all-yes, after
/// which the remaining intents are confirmed without asking.
fn run_typed(mut state: ConfirmState, lines: &[&str]) -> ConfirmState {
    let pending = state.open_gate(now());
    let mut all_yes = false;
    let mut next = lines.iter();
    for intent in pending {
        let decision = if all_yes {
            Decision::Confirm
        } else {
            loop {
                match parse_prompt_answer(next.next().expect("scripted answer")) {
                    PromptAnswer::Confirm => break Decision::Confirm,
                    PromptAnswer::Skip => break Decision::Skip,
                    PromptAnswer::AllYes => {
                        all_yes = true;
                        break Decision::Confirm;
                    }
                    PromptAnswer::Edit => {
                        break Decision::Edit { new_text: next.next().unwrap().trim().to_string() }
                    }
                    PromptAnswer::Unrecognized => continue,
                }
            }
        };
        state.decide(intent.id.clone(), decision, now());
    }
    state.close_gate(now());
    state
}

#[test]
fn tty_all_yes_armed_short_circuits_remaining_intents() {
    let intents = vec![
        sample_intent("a", Source::Tests),
        sample_intent("b", Source::NatSpec),
        sample_intent("c", Source::AttackCatalog),
    ];
    let state = ConfirmState::new("run-1".into(), intents, now());
    let final_state = run_typed(state, &["a"]);
    assert_eq!(final_state.decisions.len(), 3);
    for d in &final_state.decisions {
        assert!(matches!(d.decision, Decision::Confirm));
    }
}

#[test]
fn typed_answers_are_trimmed_and_retried() {
    assert_eq!(parse_prompt_answer(" s \n"), PromptAnswer::Skip);
    assert_eq!(parse_prompt_answer("\n"), PromptAnswer::Confirm);
    assert_eq!(parse_prompt_answer("x"), PromptAnswer::Unrecognized);
    let intents = vec![sample_intent("a", Source::Tests), sample_intent("b", Source::Tests)];
    let state = ConfirmState::new("run-1".into(), intents, now());
    let final_state = run_typed(state, &["?", "e", " better text \n", "s"]);
    assert!(matches!(&final_state.decisions[0].decision, Decision::Edit { new_text } if new_text == "better text"));
    assert!(matches!(final_state.decisions[1].decision, Decision::Skip));
}
