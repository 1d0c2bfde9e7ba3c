use vergil::dispatcher::{
    default_scaffold_for_erc20, loop_verdict, summarize_backends, HalmosDispatcher,
};
use vergil::fingerprint::{
    facts_from_fingerprint, readme_candidates, self_test_facts, sorted_interfaces, FingerprintError,
};
use vergil::portfolio::{Backend, BackendOutcome, BackendState, Verdict};
use vergil::cegis::VerifierVerdict;
use vergil::scaffold::{check_scaffold_override, render_scaffold, resolve_scaffold, scaffold_imports};
use vergil::source::Source;
use vergil::synthesis::SpecCandidate;

/// The harness derived from `(file name, source)` pairs under `src/`.
fn autodetect(files: &[(&str, &str)]) -> Option<String> {
    let files: Vec<(String, String)> = files.iter().map(|(f, s)| (f.to_string(), s.to_string())).collect();
    render_scaffold(&scaffold_imports(&files), None)
}

#[test]
fn autodetect_scaffold_keeps_single_contract_legacy_shape() {
    let s = autodetect(&[("Solo.sol", "pragma solidity ^0.8.20;\ncontract Solo {}\n")]).expect("Some");
    assert!(s.contains("Solo internal token"));
    assert!(s.contains("token = new Solo()"));
}

#[test]
fn autodetect_scaffold_handles_multi_contract_src() {
    let s = autodetect(&[
        ("Token.sol", "pragma solidity ^0.8.20;\ncontract Token {}\n"),
        ("Vault.sol", "pragma solidity ^0.8.20;\ncontract Vault {}\n"),
    ])
    .expect("Some");
    assert!(s.contains("import {Token}"));
    assert!(s.contains("import {Vault}"));
    assert!(!s.contains("internal token"));
    assert!(s.contains("{{CHECK_FN}}"));
}

#[test]
fn autodetect_scaffold_synthesizes_template_for_known_contract() {
    let s = autodetect(&[("Bar.sol", "pragma solidity ^0.8.20;\ncontract Bar { uint256 public x; }\n")])
        .expect("expected Some");
    assert!(s.contains("import {Bar} from \"../src/Bar.sol\""));
    assert!(s.contains("Bar internal token"));
    assert!(s.contains("token = new Bar()"));
    assert!(s.contains("{{CHECK_FN}}"));
}

#[test]
fn autodetect_scaffold_passes_constructor_arguments() {
    let files = vec![("T.sol".to_string(), "contract T {}".to_string())];
    let s = render_scaffold(&scaffold_imports(&files), Some("1_000_000 ether".to_string())).unwrap();
    assert!(s.contains("token = new T(1_000_000 ether);"));
    assert!(autodetect(&[("L.sol", "library L {}")]).is_none());
}

#[test]
fn resolve_scaffold_respects_explicit_override_file() {
    let body = "pragma solidity ^0.8.20;\ncontract X { {{CHECK_FN}} }\n".to_string();
    let checked = check_scaffold_override("/tmp/custom.sol", Ok(body));
    let s = resolve_scaffold(Some(checked), None).expect("ok");
    assert!(s.contains("contract X"));
    assert!(s.contains("{{CHECK_FN}}"));
}

#[test]
fn resolve_scaffold_rejects_override_missing_check_fn_placeholder() {
    let checked = check_scaffold_override("/tmp/bad.sol", Ok("no placeholder here".to_string()));
    let err = resolve_scaffold(Some(checked), None).unwrap_err();
    assert!(err.contains("{{CHECK_FN}}"));
    assert_eq!(err, "scaffold /tmp/bad.sol must contain `{{CHECK_FN}}` placeholder");
    let err = check_scaffold_override("/tmp/x.sol", Err("no such file".to_string())).unwrap_err();
    assert_eq!(err, "could not read scaffold /tmp/x.sol: no such file");
}

#[test]
fn resolve_scaffold_falls_back_to_erc20_harness() {
    let s = resolve_scaffold(None, None).unwrap();
    assert_eq!(s, default_scaffold_for_erc20());
    assert!(s.contains("token = new Token(1_000_000 ether);"));
    assert_eq!(resolve_scaffold(None, Some("derived".to_string())).unwrap(), "derived");
}

fn spec(name: &str) -> SpecCandidate {
    SpecCandidate {
        name: name.to_string(),
        halmos: "function check_x() public { assert(true); }".to_string(),
        smtchecker: String::new(),
        template_ref: None,
        intent_satisfied: true,
        source: Source::UserIntent,
        intent_text: None,
    }
}

#[test]
fn render_substitutes_check_fn_placeholder() {
    let d = HalmosDispatcher::new("/p".to_string(), "contract H {\n    {{CHECK_FN}}\n}\n".to_string(), 1000);
    let out = d.render(&spec("check_x"));
    assert!(out.contains("function check_x() public { assert(true); }"));
    assert!(!out.contains("{{CHECK_FN}}"));
}

#[test]
fn render_substitutes_name_placeholder() {
    let d = HalmosDispatcher::new("/p".to_string(), "// {{NAME}}\n{{CHECK_FN}}".to_string(), 1000);
    let out = d.render(&spec("check_named"));
    assert!(out.starts_with("// check_named\n"));
    assert!(!out.contains("{{NAME}}"));
}

#[test]
fn dispatcher_paths_and_portfolio_config() {
    let d = HalmosDispatcher::new("/p".to_string(), "{{CHECK_FN}}".to_string(), 60_000);
    assert_eq!(d.harness_path(), "/p/test/CegisProperties.t.sol");
    assert_eq!(d.default_smtchecker_source(Some("src/Token.sol".to_string())), "src/Token.sol");
    let d = d.with_smtchecker_source("src/Vault.sol".to_string());
    let c = d.portfolio_config(&spec("check_x"), "src/Vault.sol".to_string());
    assert_eq!(c.property, "check_x");
    assert_eq!(c.project, "/p");
    assert_eq!(c.budget_ms, 60_000);
    assert_eq!(c.smtchecker_source, "src/Vault.sol");
}

#[test]
fn portfolio_verdicts_map_to_loop_verdicts() {
    let v = loop_verdict(Verdict::Verified { backend: Backend::SmtChecker, wall_clock_ms: 3, smt_query_sha256: None });
    assert!(matches!(v, VerifierVerdict::Verified { ref backend, .. } if backend == "smtchecker"));
    let b = vec![
        BackendOutcome { backend: Backend::Halmos, state: BackendState::Timeout, detail: "t".to_string(), wall_clock_ms: 1, smt_query_sha256: None },
        BackendOutcome { backend: Backend::SmtChecker, state: BackendState::Unknown, detail: "u".to_string(), wall_clock_ms: 1, smt_query_sha256: None },
    ];
    assert_eq!(summarize_backends(&b), "Halmos=t; SmtChecker=u");
    assert!(matches!(loop_verdict(Verdict::Unknown { backends: b }), VerifierVerdict::Unknown { .. }));
}

#[test]
fn fingerprint_erc20_shape_adds_the_interface() {
    let src = "function transfer(address to, uint256 a) public {} function transferFrom(address f, address t, uint256 a) public {} mapping(address => mapping(address => uint256)) public allowance;";
    let tags = sorted_interfaces(vec!["Ownable".to_string()], src);
    assert_eq!(tags, vec!["ERC20".to_string(), "Ownable".to_string()]);
}

#[test]
fn fingerprint_is_deterministic_across_calls() {
    let src = "function ownerOf(uint256) public {} function setApprovalForAll(address, bool) public {}";
    let a = sorted_interfaces(vec!["ERC165".to_string(), "ERC165".to_string()], src);
    let b = sorted_interfaces(vec!["ERC165".to_string()], src);
    assert_eq!(a, b);
    assert_eq!(a, vec!["ERC165".to_string(), "ERC721".to_string()]);
}

#[test]
fn fingerprint_errors_on_dir_without_foundry_toml() {
    let e = FingerprintError::NotAProject("/tmp/empty".to_string());
    assert_eq!(e.message(), "not a Foundry project: /tmp/empty");
    assert_eq!(readme_candidates(), vec!["README.md", "README", "readme.md"]);
}

#[test]
fn fingerprint_to_facts_includes_interfaces_and_primitives() {
    let facts = facts_from_fingerprint(&vec!["ERC20".to_string()], &vec!["token-erc20".to_string()]);
    assert!(facts.interfaces.contains(&"ERC20".to_string()));
    assert!(facts.primitives.contains(&"token-erc20".to_string()));
    assert!(facts.interfaces.contains(&"any".to_string()));
    assert_eq!(facts.patterns.len(), 9);
    assert!(facts.patterns.contains(&"no_auth_check".to_string()));
}

#[test]
fn self_test_facts_map_tags_to_primitives() {
    let tags = vec!["ERC20".to_string(), "ERC4626".to_string(), "Ownable".to_string()];
    let facts = self_test_facts(&tags);
    assert_eq!(facts.interfaces, vec!["any", "ERC20", "ERC4626", "Ownable"]);
    assert_eq!(facts.primitives, vec!["token", "vault", "any"]);
}
