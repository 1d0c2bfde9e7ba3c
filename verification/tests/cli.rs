use vergil::cli::{
    cex_file_name, cex_notice, cex_paths, check_properties_version, decidability_label,
    find_property, is_stale_cex_file, names_match, outcome_of_answer, property_contract_or_default,
    prove_exit, redispatch_step, resolve_solver_choice, tally, CounterexampleRecord,
    PropertiesFile, PropertyEntry, RedispatchOutcome, RedispatchStep, Solver, SolverAnswer,
};
use vergil::catalog_intent::DecidabilityKind;
use vergil::source::Source;

/// Solver names are matched case-insensitively.
fn parse_solver(name: &str) -> Option<Solver> {
    match name.to_ascii_lowercase().as_str() {
        "z3" => Some(Solver::Z3),
        "cvc5" => Some(Solver::Cvc5),
        "bitwuzla" => Some(Solver::Bitwuzla),
        _ => None,
    }
}

fn resolve(name: Option<&str>) -> Result<Solver, String> {
    resolve_solver_choice(name, name.and_then(parse_solver))
}

#[test]
fn resolve_solver_default_is_cvc5() {
    let s = resolve(None).unwrap();
    assert_eq!(s, Solver::Cvc5);
}

#[test]
fn resolve_solver_accepts_override() {
    assert_eq!(resolve(Some("z3")).unwrap(), Solver::Z3);
    assert_eq!(resolve(Some("Z3")).unwrap(), Solver::Z3);
    assert_eq!(resolve(Some("bitwuzla")).unwrap(), Solver::Bitwuzla);
}

#[test]
fn resolve_solver_rejects_unknown_name() {
    let err = resolve(Some("foo")).unwrap_err();
    assert!(err.contains("unknown solver"));
    assert_eq!(err, "unknown solver `foo` (expected: z3, cvc5, bitwuzla)");
}

fn sample_record(name: &str) -> CounterexampleRecord {
    CounterexampleRecord {
        property: name.to_string(),
        source: Source::AttackCatalog,
        template_ref: Some("access-public-burn-mint".to_string()),
        source_sol: format!(
            "// SPDX-License-Identifier: UNLICENSED\npragma solidity 0.8.20;\ncontract {name}_Cex {{}}\n"
        ),
        trace_summary: "attacker mints supply".to_string(),
    }
}

#[test]
fn emit_writes_cex_file_at_layout_spec_path() {
    let (abs, rel) = cex_paths("/tmp/proj", "check_unauthorized_mint");
    assert_eq!(abs, "/tmp/proj/vergil-out/counterexamples/Cex_check_unauthorized_mint.t.sol");
    assert_eq!(rel, "vergil-out/counterexamples/Cex_check_unauthorized_mint.t.sol");
    assert!(sample_record("check_unauthorized_mint").source_sol.contains("check_unauthorized_mint_Cex"));
}

#[test]
fn cex_notice_names_source_and_template() {
    let rec = sample_record("check_x");
    let (_, rel) = cex_paths("/p", &rec.property);
    assert_eq!(
        cex_notice(&rec, &rel),
        "[CEX] check_x (source: attack_catalog, template: access-public-burn-mint) → vergil-out/counterexamples/Cex_check_x.t.sol"
    );
}

#[test]
fn emit_handles_non_catalog_sources_with_no_template_ref() {
    let mut rec = sample_record("check_test_derived");
    rec.source = Source::Tests;
    rec.template_ref = None;
    assert_eq!(cex_notice(&rec, "x.t.sol"), "[CEX] check_test_derived (source: tests) → x.t.sol");
}

#[test]
fn stale_cex_files_are_recognized() {
    assert_eq!(cex_file_name("check_a"), "Cex_check_a.t.sol");
    assert!(is_stale_cex_file("Cex_check_a.t.sol"));
    assert!(!is_stale_cex_file("Properties.t.sol"));
    assert!(!is_stale_cex_file("Cex_notes.md"));
}

fn props(version: u32) -> PropertiesFile {
    PropertiesFile {
        version,
        property_contract: None,
        properties: vec![
            PropertyEntry { name: "check_a".to_string(), params: vec![], smtchecker_source: None },
            PropertyEntry { name: "check_b".to_string(), params: vec![], smtchecker_source: None },
        ],
    }
}

#[test]
fn properties_file_must_be_version_one() {
    assert!(check_properties_version(props(1)).is_ok());
    let err = check_properties_version(props(2)).unwrap_err();
    assert_eq!(err, "unsupported properties.yaml version 2: Phase 1 expects version 1");
}

#[test]
fn properties_lookup_and_default_contract() {
    let f = props(1);
    assert_eq!(find_property(&f, &"check_b".to_string()), Some(1));
    assert_eq!(find_property(&f, &"check_z".to_string()), None);
    let (name, path, args) = property_contract_or_default(&f);
    assert_eq!(name, "Properties");
    assert_eq!(path, "./Properties.t.sol");
    assert!(args.is_empty());
}

#[test]
fn redispatch_settles_without_a_solver_when_it_can() {
    let sha = Some("abc".to_string());
    assert!(matches!(
        redispatch_step(&None, true, Ok("abc".to_string()), "q.smt2"),
        RedispatchStep::Settled(RedispatchOutcome::NoHashRecorded)
    ));
    assert!(matches!(
        redispatch_step(&sha, false, Ok("abc".to_string()), "q.smt2"),
        RedispatchStep::Settled(RedispatchOutcome::Missing)
    ));
    assert!(matches!(redispatch_step(&sha, true, Ok("abc".to_string()), "q.smt2"), RedispatchStep::Dispatch));
    match redispatch_step(&sha, true, Ok("def".to_string()), "q.smt2") {
        RedispatchStep::Settled(RedispatchOutcome::HashMismatch { recorded, actual }) => {
            assert_eq!(recorded, "abc");
            assert_eq!(actual, "def");
        }
        other => panic!("expected a hash mismatch, got {other:?}"),
    }
    match redispatch_step(&sha, true, Err("denied".to_string()), "q.smt2") {
        RedispatchStep::Settled(RedispatchOutcome::SolverError { detail }) => {
            assert_eq!(detail, "hash q.smt2: denied")
        }
        other => panic!("expected a solver error, got {other:?}"),
    }
}

#[test]
fn solver_answers_map_to_outcomes_and_exit_codes() {
    let outcomes = vec![
        outcome_of_answer(SolverAnswer::Unsat),
        outcome_of_answer(SolverAnswer::Unknown { reason: "timeout".to_string() }),
        outcome_of_answer(SolverAnswer::NotInstalled { name: "cvc5".to_string() }),
        RedispatchOutcome::Missing,
    ];
    match &outcomes[1] {
        RedispatchOutcome::Mismatch { detail } => assert_eq!(detail, "alternate solver returned `unknown`: timeout"),
        other => panic!("{other:?}"),
    }
    match &outcomes[2] {
        RedispatchOutcome::SolverError { detail } => {
            assert_eq!(detail, "cvc5 not on PATH — install or pass --solver <name>")
        }
        other => panic!("{other:?}"),
    }
    let c = tally(&outcomes);
    assert_eq!((c.reverified, c.mismatched, c.errored, c.missing), (1, 1, 1, 1));
    assert_eq!(prove_exit(c), Err(1));
    let ok = tally(&vec![RedispatchOutcome::Reverified, RedispatchOutcome::NoHashRecorded]);
    assert_eq!(prove_exit(ok), Ok(()));
}

#[test]
fn ground_truth_names_match_loosely() {
    assert!(names_match("check_Transfer_Preserves_Supply", "transfer_preserves_supply"));
    assert!(names_match("check_Supply", "supply_conserved"));
    assert!(!names_match("check_mint", "burn"));
}

#[test]
fn decidability_labels() {
    assert_eq!(decidability_label(DecidabilityKind::Decidable), "decidable");
    assert_eq!(decidability_label(DecidabilityKind::Frontier), "frontier");
    assert_eq!(decidability_label(DecidabilityKind::DocumentOnly), "document-only");
}
