use vergil::catalog_intent::sanitize_name;
use vergil::dispatcher::intent_preview;
use vergil::fingerprint::detect_primitives;
use vergil::oracle_intents::render_list;
use vergil::scaffold::{extract_all_contract_names, extract_contract_name};
use vergil::structural::{LowConfidenceFinding, StructuralMiner};
use vergil::text::{join_strings, replace_all, trim};

#[test]
fn extract_contract_name_handles_plain_declaration() {
    let src = "// SPDX\npragma solidity ^0.8.0;\ncontract Foo {\n}\n";
    assert_eq!(extract_contract_name(src), Some("Foo".to_string()));
}

#[test]
fn extract_contract_name_handles_inheritance() {
    let src = "contract MyToken is ERC20, Ownable {\n}";
    assert_eq!(extract_contract_name(src), Some("MyToken".to_string()));
}

#[test]
fn extract_contract_name_skips_leading_whitespace() {
    let src = "    contract Indented {\n}";
    assert_eq!(extract_contract_name(src), Some("Indented".to_string()));
}

#[test]
fn extract_contract_name_returns_none_when_absent() {
    let src = "// no contract keyword here\nlibrary L {}\n";
    assert_eq!(extract_contract_name(src), None);
}

#[test]
fn extract_all_contract_names_handles_multi_contract_file() {
    let src = "contract A {}\nlibrary L {}\ninterface I {}\nabstract contract Abs {}\ncontract B {}";
    let names = extract_all_contract_names(src);
    assert_eq!(names, vec!["A".to_string(), "B".to_string()]);
}

#[test]
fn intent_preview_truncates_long_intents_with_ellipsis() {
    let long_input: String = "x".repeat(120);
    let preview = intent_preview(&long_input);
    let len = preview.chars().count();
    assert_eq!(len, 81);
    assert!(preview.ends_with('…'));
}

#[test]
fn intent_preview_returns_short_intents_unchanged() {
    let input = "verify totalSupply is preserved";
    assert_eq!(intent_preview(input), input);
    assert!(!intent_preview(input).ends_with('…'));
}

#[test]
fn intent_preview_keeps_exactly_eighty_characters() {
    let input: String = "y".repeat(80);
    assert_eq!(intent_preview(&input), input);
}

#[test]
fn detect_primitives_empty_interfaces_returns_empty() {
    let primitives = detect_primitives(&vec![], "");
    assert!(primitives.is_empty());
}

#[test]
fn detect_primitives_amm_shape() {
    let src = "function swap(uint a, uint b) public {} uint reserves0;";
    let primitives = detect_primitives(&vec![], src);
    assert_eq!(primitives, vec!["amm".to_string()]);
}

#[test]
fn detect_primitives_lending_and_primary_tag() {
    let src = "function borrow() {} function repay() {} function liquidate() {}";
    let primitives = detect_primitives(&vec!["ERC20".to_string(), "ERC4626".to_string()], src);
    assert_eq!(primitives, vec!["lending-market".to_string(), "vault".to_string()]);
}

#[test]
fn miner_ids_are_stable_kebab_case() {
    assert_eq!(StructuralMiner::InvariantConstants.id(), "invariant-constants");
    assert_eq!(StructuralMiner::Monotonicity.id(), "monotonicity");
    assert_eq!(StructuralMiner::AccessPolicy.id(), "access-policy");
    assert_eq!(StructuralMiner::Conservation.id(), "conservation");
    assert_eq!(StructuralMiner::TwoStep.id(), "two-step");
}

#[test]
fn miner_all_returns_five_in_stable_order() {
    let v = StructuralMiner::all();
    assert_eq!(v.len(), 5);
    assert_eq!(v[0], StructuralMiner::InvariantConstants);
    assert_eq!(v[4], StructuralMiner::TwoStep);
}

#[test]
fn low_confidence_finding_format() {
    let f = LowConfidenceFinding::new(
        StructuralMiner::TwoStep,
        "F2 requires F1".to_string(),
        format!("{:.2}", 0.55f32),
    )
    .with_target("commit_reveal".to_string());
    assert_eq!(f.confidence, "0.55");
    assert_eq!(f.fn_or_var.as_deref(), Some("commit_reveal"));
}

#[test]
fn sanitize_name_handles_kebab_case() {
    assert_eq!(sanitize_name("foo-bar-baz"), "foo_bar_baz");
    assert_eq!(sanitize_name("FOO-BAR"), "foo_bar");
    assert_eq!(sanitize_name("---"), "intent");
    assert_eq!(sanitize_name("name123"), "name123");
}

#[test]
fn sanitize_name_lowercases_and_replaces_non_alphanum() {
    assert_eq!(sanitize_name("TransferPreserves Supply"), "transferpreserves_supply");
    assert_eq!(sanitize_name(""), "intent");
    assert_eq!(sanitize_name("___"), "intent");
    assert_eq!(sanitize_name("ok_name_42"), "ok_name_42");
}

#[test]
fn render_list_handles_empty_and_multi() {
    assert!(render_list(&vec![]).contains("none"));
    let multi = vec!["a".to_string(), "b".to_string()];
    let out = render_list(&multi);
    assert!(out.contains("- a"));
    assert!(out.contains("- b"));
    assert_eq!(out, "- a\n- b");
}

#[test]
fn trim_drops_unicode_whitespace_at_both_ends() {
    assert_eq!(trim("\u{2003} a b \t\n"), "a b");
    assert_eq!(trim("   "), "");
}

#[test]
fn join_and_replace_behave_like_std() {
    let v = vec!["x".to_string(), "y".to_string(), "z".to_string()];
    assert_eq!(join_strings(&v, ", "), "x, y, z");
    assert_eq!(replace_all("a{{B}}c{{B}}", "{{B}}", "-"), "a-c-");
    assert_eq!(replace_all("aaa", "aa", "b"), "ba");
}

#[test]
fn sanitize_name_leaves_sanitized_names_alone() {
    for raw in ["FOO-BAR", "  Transfer Preserves Supply! ", "---", "a__b", "check_x1"] {
        let once = sanitize_name(raw);
        assert_eq!(sanitize_name(&once), once);
    }
}
