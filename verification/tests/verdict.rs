use vergil::source::{Source, Tier};
use vergil::verdict::{
    format_verdict, join_or_none, render_not_checked, reproduce_command, source_label, tier_label,
    AvailableOraclesSummary, FingerprintSummary, Headline, LowConfidenceStructuralSummary,
    PerTemplateFailureSummary, PropertyOutcome, PropertyVerdict, SkippedTemplateSummary,
    StratifiedInputs,
};

fn empty_inputs(project: &str) -> StratifiedInputs {
    StratifiedInputs {
        project_path: project.to_string(),
        fingerprint: FingerprintSummary {
            interfaces: Vec::new(),
            primitives: Vec::new(),
            available_oracles: AvailableOraclesSummary { tests: false, natspec: false, readme: false },
        },
        properties: Vec::new(),
        skipped_templates: Vec::new(),
        per_template_failures: Vec::new(),
        document_only_templates: Vec::new(),
        phase5_structural_pending: true,
        low_confidence_structural: Vec::new(),
    }
}

fn verified(name: &str, src: Source, tier: Tier) -> PropertyOutcome {
    PropertyOutcome {
        name: name.to_string(),
        source: src,
        tier,
        verdict: PropertyVerdict::Verified {
            backend: "halmos".to_string(),
            smt_query_sha256: Some("a".repeat(64)),
        },
        template_ref: None,
        intent_text: Some(format!("English intent for {name}")),
    }
}

fn refuted_catalog(name: &str, attack_id: &str) -> PropertyOutcome {
    PropertyOutcome {
        name: name.to_string(),
        source: Source::AttackCatalog,
        tier: Tier::ZeroConfig,
        verdict: PropertyVerdict::Refuted {
            backend: "halmos".to_string(),
            cex_file: format!("vergil-out/counterexamples/Cex_{name}.t.sol"),
            trace_summary: "attacker mints supply without authorization".to_string(),
        },
        template_ref: Some(attack_id.to_string()),
        intent_text: Some(
            "Only the owner can mint; unauthorized callers cannot inflate supply.".to_string(),
        ),
    }
}

fn frontier_unknown(name: &str, attack_id: &str, approx: &str) -> PropertyOutcome {
    PropertyOutcome {
        name: name.to_string(),
        source: Source::AttackCatalog,
        tier: Tier::ZeroConfig,
        verdict: PropertyVerdict::Unknown {
            detail: "frontier template; over-approximation verified only".to_string(),
            frontier_over_approximation: Some(approx.to_string()),
        },
        template_ref: Some(attack_id.to_string()),
        intent_text: None,
    }
}

#[test]
fn headline_refuted_when_any_property_is_refuted() {
    let mut inputs = empty_inputs("/p");
    inputs.properties = vec![
        verified("check_a", Source::Tests, Tier::ZeroConfig),
        refuted_catalog("check_b", "access-public-burn-mint"),
    ];
    let out = format_verdict(inputs);
    assert_eq!(out.headline, Headline::Refuted);
}

#[test]
fn headline_verified_in_scope_when_all_properties_verified_and_none_unknown() {
    let mut inputs = empty_inputs("/p");
    inputs.properties = vec![
        verified("check_a", Source::AttackCatalog, Tier::ZeroConfig),
        verified("check_b", Source::Tests, Tier::ZeroConfig),
        verified("check_c", Source::NatSpec, Tier::ZeroConfig),
    ];
    let out = format_verdict(inputs);
    assert_eq!(out.headline, Headline::VerifiedInScope);
}

#[test]
fn headline_incomplete_when_any_property_unknown_or_error() {
    let mut inputs = empty_inputs("/p");
    inputs.properties = vec![
        verified("check_a", Source::Tests, Tier::ZeroConfig),
        frontier_unknown("check_b", "lending-solvency-frontier", "treat oracle as opaque"),
    ];
    let out = format_verdict(inputs);
    assert_eq!(out.headline, Headline::Incomplete);
}

#[test]
fn headline_incomplete_when_no_properties_ran() {
    let out = format_verdict(empty_inputs("/p"));
    assert_eq!(out.headline, Headline::Incomplete);
}

#[test]
fn headline_refuted_beats_errors() {
    let mut inputs = empty_inputs("/p");
    inputs.properties = vec![
        PropertyOutcome {
            name: "check_e".to_string(),
            source: Source::Tests,
            tier: Tier::ZeroConfig,
            verdict: PropertyVerdict::Error { detail: "solc failed".to_string() },
            template_ref: None,
            intent_text: None,
        },
        refuted_catalog("check_b", "x"),
    ];
    assert_eq!(format_verdict(inputs).headline, Headline::Refuted);
}

#[test]
fn not_checked_section_always_appears_even_when_oracles_complete() {
    let mut inputs = empty_inputs("/p");
    inputs.phase5_structural_pending = false;
    inputs.properties = vec![verified("check_a", Source::Tests, Tier::ZeroConfig)];
    let report = format_verdict(inputs).report_md();
    assert!(report.contains("## Not checked"), "Not checked section must always be present");
    assert!(
        report.contains("All selected oracles produced verdicts"),
        "empty Not-checked section must include the explicit note: {report}"
    );
}

#[test]
fn not_checked_section_lists_phase5_when_pending() {
    let inputs = empty_inputs("/p");
    let report = format_verdict(inputs).report_md();
    assert!(report.contains("Structural mining (Phase 5)"), "Phase 5 pending marker missing: {report}");
}

#[test]
fn low_confidence_structural_section_renders_when_present() {
    let mut inputs = empty_inputs("/p");
    inputs.phase5_structural_pending = false;
    inputs.low_confidence_structural = vec![LowConfidenceStructuralSummary {
        miner: "invariant-constants".into(),
        description: "totalSupply written only in constructor; value depends on constructor arg — verify invariance manually".into(),
        confidence: "0.55".into(),
        fn_or_var: Some("totalSupply".into()),
    }];
    let report = format_verdict(inputs).report_md();
    assert!(report.contains("## Suggested additional invariants (1)"), "missing low-confidence header: {report}");
    assert!(report.contains("NOT auto-verified"));
    assert!(report.contains("invariant-constants"));
    assert!(report.contains("confidence 0.55"));
    assert!(report.contains("`totalSupply`"));
    assert!(report.contains("verify invariance manually"));
}

#[test]
fn low_confidence_structural_section_absent_when_empty() {
    let inputs = empty_inputs("/p");
    let report = format_verdict(inputs).report_md();
    assert!(!report.contains("Suggested additional invariants"), "section should not appear when empty: {report}");
}

#[test]
fn phase5_placeholder_suppressed_when_oracle_emitted_candidates() {
    let mut inputs = empty_inputs("/p");
    inputs.phase5_structural_pending = false;
    inputs.properties =
        vec![verified("check_invariant_DECIMALS", Source::StructuralAnalysis, Tier::ZeroConfig)];
    let report = format_verdict(inputs).report_md();
    assert!(!report.contains("Structural mining (Phase 5)"), "placeholder must disappear once oracle emits: {report}");
    assert!(report.contains("source: structural"), "missing structural property: {report}");
}

#[test]
fn not_checked_section_lists_skipped_templates_with_reasons() {
    let mut inputs = empty_inputs("/p");
    inputs.skipped_templates = vec![SkippedTemplateSummary {
        id: "vault-inflation-first-depositor-donation".to_string(),
        reason: "no overlap with required interfaces [ERC4626]".to_string(),
    }];
    let report = format_verdict(inputs).report_md();
    assert!(report.contains("vault-inflation-first-depositor-donation"));
    assert!(report.contains("no overlap with required interfaces"));
}

#[test]
fn not_checked_section_lists_per_template_failures() {
    let mut inputs = empty_inputs("/p");
    inputs.phase5_structural_pending = false;
    inputs.per_template_failures = vec![PerTemplateFailureSummary {
        template_id: "access-x".to_string(),
        reason: "llm timeout".to_string(),
    }];
    let report = format_verdict(inputs).report_md();
    assert!(report.contains("1 attack-catalog templates failed synthesis"));
    assert!(report.contains("`access-x` — llm timeout"));
    assert!(!report.contains("All selected oracles produced verdicts"));
}

#[test]
fn not_checked_section_distinguishes_frontier_unknowns_from_runtime_unknowns() {
    let mut inputs = empty_inputs("/p");
    inputs.properties = vec![
        frontier_unknown("check_a", "lending-solvency", "treat oracle as opaque"),
        PropertyOutcome {
            name: "check_b".to_string(),
            source: Source::AttackCatalog,
            tier: Tier::ZeroConfig,
            verdict: PropertyVerdict::Unknown {
                detail: "Halmos timed out at 60s".to_string(),
                frontier_over_approximation: None,
            },
            template_ref: None,
            intent_text: None,
        },
    ];
    let report = format_verdict(inputs).report_md();
    assert!(report.contains("frontier-template Unknowns"));
    assert!(report.contains("treat oracle as opaque"));
    assert!(report.contains("per-run Unknowns or errors"));
    assert!(report.contains("Halmos timed out"));
}

#[test]
fn verified_in_scope_includes_safe_is_not_safe_disclaimer() {
    let mut inputs = empty_inputs("/p");
    inputs.properties = vec![verified("check_a", Source::AttackCatalog, Tier::ZeroConfig)];
    let report = format_verdict(inputs).report_md();
    assert!(report.contains("does NOT mean the contract is safe"));
}

#[test]
fn reproduce_section_emits_runnable_vergil_prove_command() {
    let inputs = empty_inputs("/path/to/project");
    let report = format_verdict(inputs).report_md();
    assert!(
        report.contains("vergil prove /path/to/project/vergil-out/proof.json"),
        "Reproduce command missing or wrong: {report}"
    );
}

#[test]
fn proof_json_carries_same_headline_as_report_md() {
    let mut inputs = empty_inputs("/p");
    inputs.properties = vec![refuted_catalog("check_a", "access-public-burn-mint")];
    let out = format_verdict(inputs);
    assert_eq!(out.headline.as_str(), "Refuted");
    assert_eq!(out.headline.machine_label(), "refuted");
    assert!(out.report_md().contains("**Headline:** Refuted"));
}

#[test]
fn proof_json_includes_all_inputs() {
    let mut inputs = empty_inputs("/p");
    inputs.properties = vec![verified("check_a", Source::Tests, Tier::ZeroConfig)];
    inputs.skipped_templates = vec![SkippedTemplateSummary { id: "foo".to_string(), reason: "no match".to_string() }];
    let out = format_verdict(inputs.clone());
    assert_eq!(out.inputs.properties.len(), 1);
    assert_eq!(out.inputs.skipped_templates.len(), 1);
    assert!(reproduce_command(&out.inputs.project_path).contains("vergil prove /p/vergil-out/proof.json"));
}

#[test]
fn proven_section_lists_each_verified_property_with_provenance() {
    let mut inputs = empty_inputs("/p");
    inputs.properties = vec![
        verified("check_a", Source::AttackCatalog, Tier::ZeroConfig),
        verified("check_b", Source::Tests, Tier::ZeroConfig),
    ];
    let report = format_verdict(inputs).report_md();
    assert!(report.contains("## Proven (2)"));
    assert!(report.contains("source: attack-catalog"));
    assert!(report.contains("source: tests"));
    assert!(report.contains("English intent for check_a"));
}

#[test]
fn refuted_section_lists_cex_file_path() {
    let mut inputs = empty_inputs("/p");
    inputs.properties = vec![refuted_catalog("check_a", "access-public-burn-mint")];
    let report = format_verdict(inputs).report_md();
    assert!(report.contains("## Refuted (1)"));
    assert!(report.contains("vergil-out/counterexamples/Cex_check_a.t.sol"));
    assert!(report.contains("attacker mints supply"));
}

#[test]
fn proven_section_announces_empty_when_no_verified() {
    let mut inputs = empty_inputs("/p");
    inputs.properties = vec![refuted_catalog("check_a", "x")];
    let report = format_verdict(inputs).report_md();
    assert!(report.contains("## Proven (0)"));
    assert!(report.contains("No properties verified in this run"));
}

#[test]
fn report_header_echoes_fingerprint() {
    let mut inputs = empty_inputs("/p");
    inputs.fingerprint.interfaces = vec!["ERC20".to_string(), "Ownable".to_string()];
    inputs.fingerprint.available_oracles.tests = true;
    let report = format_verdict(inputs).report_md();
    assert!(report.starts_with("# Vergil verdict\n\n**Headline:** Incomplete\n\nProject: `/p`\n"));
    assert!(report.contains("Interfaces: ERC20, Ownable\n"));
    assert!(report.contains("Primitives: (none)\n"));
    assert!(report.contains("Oracles available: tests=true natspec=false readme=false"));
}

#[test]
fn verified_entry_prints_a_short_digest() {
    let mut inputs = empty_inputs("/p");
    inputs.properties = vec![verified("check_a", Source::Tests, Tier::ZeroConfig)];
    let report = format_verdict(inputs).report_md();
    assert!(report.contains(", smt: `aaaaaaaaaaaa…`"), "{report}");
}

#[test]
fn labels_are_stable() {
    assert_eq!(source_label(Source::AttackCatalog), "attack-catalog");
    assert_eq!(source_label(Source::StructuralAnalysis), "structural");
    assert_eq!(source_label(Source::UserIntent), "user-intent");
    assert_eq!(tier_label(Tier::ZeroConfig), "zero-config");
    assert_eq!(tier_label(Tier::Intent), "intent");
    assert_eq!(join_or_none(&vec![]), "(none)");
    assert_eq!(Headline::VerifiedInScope.as_str(), "Verified-in-scope");
    assert_eq!(Headline::Incomplete.machine_label(), "incomplete");
}

#[test]
fn not_checked_body_renders_whatever_the_digests() {
    let mut inputs = empty_inputs("/p");
    inputs.phase5_structural_pending = false;
    let mut p = verified("check_v", Source::Tests, Tier::ZeroConfig);
    p.verdict = PropertyVerdict::Verified {
        backend: "halmos".to_string(),
        smt_query_sha256: Some("é".repeat(10)),
    };
    inputs.properties = vec![
        p,
        frontier_unknown("check_f", "lending-solvency", "opaque oracle"),
        PropertyOutcome {
            name: "check_e".to_string(),
            source: Source::Tests,
            tier: Tier::ZeroConfig,
            verdict: PropertyVerdict::Error { detail: "forge build failed".to_string() },
            template_ref: None,
            intent_text: None,
        },
    ];
    let mut out = String::from("prefix\n");
    render_not_checked(&mut out, &inputs, Headline::Incomplete);
    assert!(out.starts_with("prefix\n"));
    assert!(out.contains("- **1 frontier-template Unknowns**"));
    assert!(out.contains("- **1 per-run Unknowns or errors**"));
    assert_eq!(out.matches("`check_f`").count(), 1);
    assert_eq!(out.matches("`check_e`").count(), 1);
    assert!(!out.contains("check_v"));
    assert!(out.ends_with('\n'));

    let mut clean = empty_inputs("/p");
    clean.phase5_structural_pending = false;
    let mut out = String::new();
    render_not_checked(&mut out, &clean, Headline::Incomplete);
    assert_eq!(
        out,
        "_All selected oracles produced verdicts; no skipped templates, frontier Unknowns, or deferred sources to report._\n\n"
    );
}
