use vergil::critique::critique_prompt_vars;
use vergil::diagnosis::diagnosis_prompt_vars;
use vergil::oracle_intents::{
    natspec_prompt_vars, render_assertions, target_kind_and_name, tests_prompt_vars, Assertion,
    NatSpecBlock, NatSpecTarget, ParsedTest,
};
use vergil::refinement::{decompose_prompt_vars, repair_prompt_vars};
use vergil::source::Source;
use vergil::synthesis::{synthesis_prompt_vars, RetrievedHint, SpecCandidate, StaticAnalysisSummary};

/// The prompt as the template engine would see it: every named value,
/// one after the other.
fn filled(vars: &[(String, String)]) -> String {
    let mut out = String::new();
    for (k, v) in vars {
        out.push_str(k);
        out.push_str(": ");
        out.push_str(v);
        out.push('\n');
    }
    out
}

fn value<'a>(vars: &'a [(String, String)], key: &str) -> &'a str {
    vars.iter().find(|(k, _)| k == key).map(|(_, v)| v.as_str()).unwrap()
}

fn sample_candidate() -> SpecCandidate {
    SpecCandidate {
        name: "check_transfer_preserves_supply".to_string(),
        halmos: "function check_transfer_preserves_supply(address to, uint256 amount) public { uint256 t0 = token.totalSupply(); try token.transfer(to, amount) {} catch {} assert(token.totalSupply() == t0); }".to_string(),
        smtchecker: String::new(),
        template_ref: None,
        intent_satisfied: true,
        source: Source::UserIntent,
        intent_text: None,
    }
}

fn tests_derived_candidate() -> SpecCandidate {
    SpecCandidate {
        name: "check_transfer_preserves_supply".to_string(),
        halmos: "function check_transfer_preserves_supply(address to, uint256 amount) public { uint256 t0 = token.totalSupply(); try token.transfer(to, amount) {} catch {} assert(token.totalSupply() == t0); }".to_string(),
        smtchecker: String::new(),
        template_ref: None,
        intent_satisfied: true,
        source: Source::Tests,
        intent_text: Some(
            "Transferring any amount between any two addresses preserves totalSupply.".to_string(),
        ),
    }
}

fn natspec_derived_candidate() -> SpecCandidate {
    SpecCandidate {
        name: "check_transfer_state_invariant".to_string(),
        halmos: "function check_transfer_state_invariant(address to, uint256 amount) public { uint256 t0 = token.totalSupply(); try token.transfer(to, amount) {} catch {} assert(token.totalSupply() == t0); }".to_string(),
        smtchecker: String::new(),
        template_ref: None,
        intent_satisfied: true,
        source: Source::NatSpec,
        intent_text: Some("Any successful transfer preserves the contract's totalSupply.".to_string()),
    }
}

fn axis(min: f32) -> String {
    format!("{min:.2}")
}

#[test]
fn render_inlines_all_inputs() {
    let vars = diagnosis_prompt_vars(
        "preserve totalSupply",
        "function check_x() { assert(false); }",
        "from=0xAAA to=0xBBB amount=0",
    );
    let out = filled(&vars);
    assert!(out.contains("preserve totalSupply"));
    assert!(out.contains("check_x"));
    assert!(out.contains("0xAAA"));
    assert!(!out.contains("{{"));
}

#[test]
fn render_inlines_intent_and_spec() {
    let c = sample_candidate();
    let vars = critique_prompt_vars("verify totalSupply preserved", &c, None, &axis(0.4));
    let out = filled(&vars);
    assert!(out.contains("verify totalSupply preserved"));
    assert!(out.contains("check_transfer_preserves_supply"));
    assert!(!out.contains("{{"));
    assert!(out.contains("0.40"));
    assert!(out.contains("(none — score against the broader intent)"));
}

#[test]
fn render_passes_description_through() {
    let c = sample_candidate();
    let vars = critique_prompt_vars(
        "ERC-20 conformance",
        &c,
        Some("totalSupply must not change across any transfer"),
        &axis(0.4),
    );
    let out = filled(&vars);
    assert!(out.contains("totalSupply must not change across any transfer"));
    assert!(!out.contains("(none — score against the broader intent)"));
}

#[test]
fn blank_description_falls_back_to_the_broader_intent() {
    let c = sample_candidate();
    let vars = critique_prompt_vars("i", &c, Some("   "), &axis(0.4));
    assert_eq!(value(&vars, "description"), "(none — score against the broader intent)");
    let vars = critique_prompt_vars("i", &c, Some("  keep supply  "), &axis(0.4));
    assert_eq!(value(&vars, "description"), "keep supply");
}

#[test]
fn render_threads_source_provenance_for_tests() {
    let c = tests_derived_candidate();
    let out = filled(&critique_prompt_vars("ERC-20 conformance", &c, None, &axis(0.5)));
    assert!(out.contains("tests"), "source_kind missing in prompt");
    assert!(out.contains("Phase 4 §3.4a"), "source_guidance missing — got {} chars", out.len());
    assert!(out.contains("Transferring any amount"), "derived_intent missing in prompt");
}

#[test]
fn render_threads_source_provenance_for_natspec() {
    let c = natspec_derived_candidate();
    let out = filled(&critique_prompt_vars("ERC-20", &c, None, &axis(0.5)));
    assert!(out.contains("natspec"));
    assert!(out.contains("Phase 4 §3.4b"));
}

#[test]
fn render_user_intent_source_says_axis_does_not_apply() {
    let c = sample_candidate();
    let out = filled(&critique_prompt_vars("intent", &c, None, &axis(0.5)));
    assert!(out.contains("user_intent"));
    assert!(out.contains("does not apply"));
    assert!(out.contains("1.0"));
}

#[test]
fn critique_spec_source_includes_smtchecker_fragment_when_present() {
    let mut c = sample_candidate();
    c.smtchecker = "assert(x);".to_string();
    let vars = critique_prompt_vars("i", &c, None, "0.50");
    assert_eq!(
        value(&vars, "spec_source"),
        format!("// Halmos check_ function\n{}\n\n// SMTChecker fragment\nassert(x);", c.halmos)
    );
    assert_eq!(value(&vars, "derived_intent"), "(none)");
}

fn sample_spec() -> SpecCandidate {
    SpecCandidate {
        name: "check_x".into(),
        halmos: "function check_x() public {}".into(),
        smtchecker: String::new(),
        template_ref: None,
        intent_satisfied: true,
        source: Source::UserIntent,
        intent_text: None,
    }
}

#[test]
fn renders_repair_inlines_all_inputs() {
    let s = sample_spec();
    let out = filled(&repair_prompt_vars("intent", &s, "contract source", "cex trace"));
    assert!(out.contains("intent"));
    assert!(out.contains("contract source"));
    assert!(out.contains("cex trace"));
    assert!(out.contains("check_x"));
    assert!(!out.contains("{{"));
}

#[test]
fn renders_refine_inlines_all_inputs() {
    let s = sample_spec();
    let out = filled(&repair_prompt_vars("intent", &s, "contract source", "cex trace"));
    assert!(out.contains("intent"));
    assert!(out.contains("cex trace"));
    assert!(!out.contains("{{"));
}

#[test]
fn renders_decompose_inlines_all_inputs() {
    let s = sample_spec();
    let out = filled(&decompose_prompt_vars("intent", &s, "halmos timeout 60s"));
    assert!(out.contains("halmos timeout 60s"));
    assert!(out.contains("check_x"));
    assert!(!out.contains("{{"));
}

#[test]
fn render_prompt_inlines_inputs() {
    let sa = StaticAnalysisSummary { text: "two slots, one modifier".to_string() };
    let retrieved = vec![RetrievedHint {
        template_id: "erc20-x".to_string(),
        description: "balance preservation".to_string(),
        halmos_snippet: "function check_x() public {}".to_string(),
    }];
    let vars = synthesis_prompt_vars(
        "verify ERC20 conformance",
        "- function transfer(address to, uint256 amount) external returns (bool)",
        &sa,
        &retrieved,
        "contract source",
    );
    let out = filled(&vars);
    assert!(out.contains("verify ERC20 conformance"));
    assert!(out.contains("two slots, one modifier"));
    assert!(out.contains("erc20-x"));
    assert!(out.contains("contract source"));
    assert!(out.contains("function transfer"));
    assert!(!out.contains("{{"));
    assert_eq!(
        value(&vars, "retrieved_templates"),
        "---\nid: erc20-x\ndescription: balance preservation\nencoding:\nfunction check_x() public {}"
    );
}

#[test]
fn render_prompt_falls_back_to_placeholder_when_methods_empty() {
    let sa = StaticAnalysisSummary { text: String::new() };
    let out = filled(&synthesis_prompt_vars("i", "", &sa, &vec![], "src"));
    assert!(out.contains("no external functions detected"));
    assert!(!out.contains("{{"));
}

#[test]
fn target_kind_returns_lowercase_label() {
    let (k, n) = target_kind_and_name(&NatSpecTarget::Contract { name: "Vault".into() });
    assert_eq!(k, "contract");
    assert_eq!(n, "Vault");
    let (k, _) = target_kind_and_name(&NatSpecTarget::Function { name: "f".into() });
    assert_eq!(k, "function");
    let (k, _) = target_kind_and_name(&NatSpecTarget::Storage { name: "s".into() });
    assert_eq!(k, "storage");
}

#[test]
fn render_prompt_inlines_all_tag_categories() {
    let block = NatSpecBlock {
        target: NatSpecTarget::Contract { name: "C".into() },
        notice: Some("notice text".into()),
        dev: vec!["dev line one".into()],
        invariant: vec!["invariant one".into()],
        custom_security: vec!["security note".into()],
    };
    let vars = natspec_prompt_vars(&block, 3);
    let out = filled(&vars);
    assert!(out.contains("notice text"));
    assert!(out.contains("dev line one"));
    assert!(out.contains("invariant one"));
    assert!(out.contains("security note"));
    assert_eq!(value(&vars, "max_candidates"), "3");
    assert_eq!(value(&vars, "target_kind"), "contract");
}

#[test]
fn render_assertions_lists_each_variant() {
    let out = render_assertions(&vec![
        Assertion::Eq { lhs: "x".into(), rhs: "y".into() },
        Assertion::True { expr: "a > 0".into() },
        Assertion::ExpectRevert,
        Assertion::HalmosAssert { expr: "a == b".into() },
    ]);
    assert!(out.contains("assertEq(x, y)"));
    assert!(out.contains("assertTrue(a > 0)"));
    assert!(out.contains("vm.expectRevert"));
    assert!(out.contains("assert(a == b)"));
}

#[test]
fn render_assertions_handles_empty_list() {
    let out = render_assertions(&vec![]);
    assert!(out.contains("no assertion sites"));
}

#[test]
fn tests_prompt_vars_fill_doc_placeholder() {
    let t = ParsedTest {
        name: "testTransfer".to_string(),
        doc_comment: None,
        body: "token.transfer(bob, 1);".to_string(),
        assertions: vec![Assertion::False { expr: "paused".into() }],
    };
    let vars = tests_prompt_vars(&t, 12);
    assert_eq!(value(&vars, "test_doc"), "(no doc comment)");
    assert_eq!(value(&vars, "test_assertions"), "- assertFalse(paused)");
    assert_eq!(value(&vars, "max_candidates"), "12");
}
