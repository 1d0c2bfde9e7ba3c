use vergil::portfolio::HalmosReport;
use vergil::self_test::{binding_for, format_set, self_test_exit, self_test_label};

fn pairs(b: &vergil::self_test::SelfTestBinding) -> Vec<(&str, &str)> {
    b.pairs.iter().map(|(k, v)| (k.as_str(), v.as_str())).collect()
}

#[test]
fn bindings_follow_the_fixture_table() {
    let b = binding_for("access-missing-modifier-state-change").unwrap();
    assert_eq!(
        pairs(&b),
        vec![
            ("contract_name", "Target"),
            ("contract_path", "src/Target.sol"),
            ("setter", "setProtected"),
            ("getter", "protectedValue"),
            ("attack_id_ident", "access_missing_modifier_state_change"),
        ]
    );
    assert_eq!(b.check_fn, "check_unauthorized_caller_cannot_mutate");
    let b = binding_for("access-public-burn-mint").unwrap();
    assert_eq!(
        pairs(&b),
        vec![
            ("contract_name", "Target"),
            ("contract_path", "src/Target.sol"),
            ("attack_id_ident", "access_public_burn_mint"),
        ]
    );
    assert_eq!(b.check_fn, "check_unauthorized_mint_cannot_inflate_supply");
    assert!(binding_for("unknown-template").is_none());
}

#[test]
fn clean_fixture_answers_are_labelled() {
    assert_eq!(self_test_label(&HalmosReport::Verified { wall_clock_ms: 1, smt_query_sha256: None }), ("✓", false));
    assert_eq!(self_test_label(&HalmosReport::Counterexample { inputs: 2, wall_clock_ms: 1 }), ("✗", true));
    assert_eq!(self_test_label(&HalmosReport::Timeout { wall_clock_ms: 1 }), ("?", false));
}

#[test]
fn any_refuted_fixture_fails_the_self_test() {
    assert_eq!(self_test_exit(&vec![false, true, false]), (2, Err(1)));
    assert_eq!(self_test_exit(&vec![false, false]), (2, Ok(())));
    assert_eq!(self_test_exit(&vec![]), (0, Ok(())));
}

#[test]
fn tag_sets_are_listed_sorted() {
    let tags = vec!["token".to_string(), "any".to_string(), "ERC20".to_string()];
    assert_eq!(format_set(tags), "ERC20, any, token");
    assert_eq!(format_set(vec![]), "(none)");
}

#[test]
fn tag_set_listing_keeps_repeats() {
    let tags = vec!["b".to_string(), "a".to_string(), "b".to_string()];
    assert_eq!(format_set(tags), "a, b, b");
}
