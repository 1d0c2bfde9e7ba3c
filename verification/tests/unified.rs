use vergil::catalog_intent::{DecidabilityKind, TemplateInfo};
use vergil::cegis::VerifierVerdict;
use vergil::confirm::ProposedIntent;
use vergil::fingerprint::AvailableOracles;
use vergil::source::{Source, Tier};
use vergil::synthesis::SpecCandidate;
use vergil::unified::{
    build_outcome, candidate_id, collect_document_only_templates, edited_outcome,
    filter_by_category, find_candidate, fingerprint_summary, needs_llm, render_simple_cex,
    spec_to_proposed, RunReport, UnifiedVerifyArgs, UnifiedVerifyError,
};
use vergil::verdict::{
    AvailableOraclesSummary, FingerprintSummary, Headline, PropertyOutcome, PropertyVerdict,
};

fn cand(name: &str, source: Source) -> SpecCandidate {
    SpecCandidate {
        name: name.to_string(),
        halmos: format!("function {name}() public {{}}"),
        smtchecker: String::new(),
        template_ref: None,
        intent_satisfied: true,
        source,
        intent_text: None,
    }
}

fn template(id: &str, category: &str, d: DecidabilityKind) -> TemplateInfo {
    TemplateInfo {
        id: id.to_string(),
        name: format!("name of {id}"),
        negation_property: "p".to_string(),
        category: category.to_string(),
        severity: "high".to_string(),
        decidability: d,
        over_approximation: None,
    }
}

fn verdict_report(headline: Headline, outcomes: Vec<PropertyOutcome>) -> RunReport {
    RunReport::Verdict {
        project_path: "/p".to_string(),
        headline,
        outcomes,
        report_md_path: "/p/vergil-out/report.md".to_string(),
        proof_json_path: "/p/vergil-out/proof.json".to_string(),
    }
}

fn errored() -> PropertyOutcome {
    PropertyOutcome {
        name: "check_e".to_string(),
        source: Source::Tests,
        tier: Tier::ZeroConfig,
        verdict: PropertyVerdict::Error { detail: "solc".to_string() },
        template_ref: None,
        intent_text: None,
    }
}

#[test]
fn list_applicable_returns_zero_exit_code() {
    let r = RunReport::ListApplicable {
        project_path: "/p".to_string(),
        fingerprint: FingerprintSummary {
            interfaces: vec![],
            primitives: vec![],
            available_oracles: AvailableOraclesSummary { tests: false, natspec: false, readme: false },
        },
        activated: 3,
        skipped: 1,
    };
    assert_eq!(r.exit_code(), 0);
}

#[test]
fn run_exit_codes_follow_the_headline() {
    assert_eq!(verdict_report(Headline::Refuted, vec![]).exit_code(), 1);
    assert_eq!(verdict_report(Headline::VerifiedInScope, vec![]).exit_code(), 0);
    assert_eq!(verdict_report(Headline::Incomplete, vec![]).exit_code(), 2);
    assert_eq!(verdict_report(Headline::Incomplete, vec![errored()]).exit_code(), 3);
}

#[test]
fn pipeline_errors_exit_with_three() {
    let e = UnifiedVerifyError::Confirm("state file corrupt".to_string());
    assert_eq!(e.exit_code(), 3);
    assert_eq!(e.message(), "confirm gate: state file corrupt");
    assert_eq!(UnifiedVerifyError::Catalog("x".to_string()).message(), "catalog load: x");
}

#[test]
fn default_args() {
    let a = UnifiedVerifyArgs::default();
    assert_eq!(a.tenant_id, "internal");
    assert_eq!(a.dispatch_budget_ms, 120_000);
    assert!(!a.auto_confirm && a.catalog_categories.is_empty());
}

#[test]
fn candidates_are_confirmed_under_source_and_name() {
    let c = cand("check_a", Source::NatSpec);
    assert_eq!(candidate_id(&c), "nat_spec:check_a");
    let p = spec_to_proposed(&c, &"why".to_string(), "0.80".to_string());
    assert_eq!(p.id, "nat_spec:check_a");
    assert_eq!(p.intent_text, "check_a");
    assert_eq!(p.confidence, "0.80");
    let kept = vec![cand("check_a", Source::Tests), cand("check_a", Source::NatSpec), cand("check_a", Source::NatSpec)];
    assert_eq!(find_candidate(&kept, &"nat_spec:check_a".to_string()), Some(2));
    assert_eq!(find_candidate(&kept, &"tests:check_b".to_string()), None);
}

fn intent(text: &str) -> ProposedIntent {
    ProposedIntent {
        id: "tests:check_a".to_string(),
        source: Source::Tests,
        intent_text: text.to_string(),
        rationale: String::new(),
        confidence: "1".to_string(),
        template_ref: None,
    }
}

#[test]
fn dispatched_verdicts_become_outcomes() {
    let c = cand("check_a", Source::Tests);
    let o = build_outcome(&c, &intent("proposed"), &VerifierVerdict::Counterexample { message: "m".to_string() });
    assert_eq!(o.tier, Tier::ZeroConfig);
    assert_eq!(o.intent_text.as_deref(), Some("proposed"));
    match o.verdict {
        PropertyVerdict::Refuted { backend, cex_file, trace_summary } => {
            assert_eq!(backend, "halmos");
            assert_eq!(cex_file, "vergil-out/counterexamples/Cex_check_a.t.sol");
            assert_eq!(trace_summary, "m");
        }
        other => panic!("{other:?}"),
    }
    let o = build_outcome(&cand("check_u", Source::UserIntent), &intent("i"), &VerifierVerdict::NotRun);
    assert_eq!(o.tier, Tier::Intent);
    assert!(matches!(o.verdict, PropertyVerdict::Unknown { ref detail, .. } if detail == "verifier did not run"));
}

#[test]
fn edited_intents_are_unknown() {
    let o = edited_outcome(&cand("check_a", Source::Tests), &"new".to_string());
    assert_eq!(o.intent_text.as_deref(), Some("new"));
    assert!(matches!(
        o.verdict,
        PropertyVerdict::Unknown { ref detail, .. }
            if detail == "intent edited at Stage 2 (new text: 'new'); re-synthesis not yet wired"
    ));
}

#[test]
fn catalog_subset_filters_activation_by_category() {
    let ts = vec![
        template("a", "reentrancy", DecidabilityKind::Decidable),
        template("b", "access", DecidabilityKind::Decidable),
        template("c", "reentrancy", DecidabilityKind::DocumentOnly),
    ];
    let (kept, skipped) = filter_by_category(ts, &vec!["reentrancy".to_string()]);
    assert_eq!(kept.iter().map(|t| t.id.as_str()).collect::<Vec<_>>(), vec!["a", "c"]);
    assert_eq!(skipped.len(), 1);
    assert_eq!(skipped[0].id, "b");
    assert_eq!(skipped[0].reason, "category access not in --catalog-subset");
    let docs = collect_document_only_templates(&kept);
    assert_eq!(docs.len(), 1);
    assert_eq!(docs[0].id, "c");
    assert_eq!(docs[0].name, "name of c");
}

#[test]
fn list_applicable_short_circuits_without_llm_calls() {
    assert!(!needs_llm(0, false, false, false, false));
    assert!(!needs_llm(0, true, true, true, true));
    assert!(needs_llm(1, true, false, true, false));
    assert!(needs_llm(0, false, true, true, true));
}

#[test]
fn fingerprint_summary_reports_readme_presence() {
    let o = AvailableOracles { tests: true, natspec: false, readme: Some("README.md".to_string()), recognized_fork: None };
    let f = fingerprint_summary(&vec!["ERC20".to_string()], &vec![], &o);
    assert!(f.available_oracles.tests && f.available_oracles.readme && !f.available_oracles.natspec);
    assert_eq!(f.interfaces, vec!["ERC20".to_string()]);
}

#[test]
fn simple_cex_names_the_property() {
    let s = render_simple_cex("check_x", "boom");
    assert!(s.starts_with("// SPDX-License-Identifier: UNLICENSED\npragma solidity ^0.8.20;\n"));
    assert!(s.contains("// Counterexample for check_x.\n// Trace: boom\n"));
    assert!(s.ends_with("contract Cex_check_x {}\n"));
}
