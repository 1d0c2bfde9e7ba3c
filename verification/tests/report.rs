use vergil::cegis::{CandidateOutcome, IterationStats, VerifierVerdict};
use vergil::clock::{artifact_run_id, now_rfc3339, resolve_run_id, unified_run_id};
use vergil::critique::{classify_critique_outcomes, critique_keeps, reject_rationale, restate_axis_zeroed, CritiqueOutcome, Verdict as CritiqueVerdict};
use vergil::diagnosis::{ambiguous_with, settle_diagnosis, Diagnosis, DiagnosisClass, DiagnosisReply};
use vergil::portfolio::{Backend, BackendOutcome, BackendState, PortfolioResult, Verdict};
use vergil::proof_summary::{cegis_entries, cex_file, phase1_entries, total_wall_clock, unified_entries};
use vergil::refinement::RefineError;
use vergil::report::{state_name, truncate, PropertyOutcome, VerifyReport};
use vergil::source::{Source, Tier};
use vergil::synthesis::SpecCandidate;
use vergil::telemetry::{NullSink, COUNTEREXAMPLE_FOUND, RUN_COMPLETE};
use vergil::verdict::{PropertyOutcome as VerdictProperty, PropertyVerdict};

fn prop(name: &str, verdict: Verdict) -> PropertyOutcome {
    PropertyOutcome { name: name.to_string(), result: PortfolioResult { property: name.to_string(), verdict } }
}

fn verified(ms: u64) -> Verdict {
    Verdict::Verified { backend: Backend::Halmos, wall_clock_ms: ms, smt_query_sha256: Some("ab".to_string()) }
}

fn cex(prop_name: &str, ms: u64) -> Verdict {
    Verdict::Counterexample {
        backend: Backend::SmtChecker,
        property: prop_name.to_string(),
        message: "x = 0".to_string(),
        wall_clock_ms: ms,
    }
}

#[test]
fn verify_exit_code_ranks_counterexample_then_error_then_unknown() {
    let r = |ps: Vec<PropertyOutcome>| VerifyReport { project: "/p".to_string(), properties: ps };
    assert_eq!(r(vec![prop("a", verified(1))]).exit_code(), 0);
    assert_eq!(r(vec![prop("a", Verdict::Unknown { backends: vec![] })]).exit_code(), 2);
    assert_eq!(
        r(vec![prop("a", Verdict::Unknown { backends: vec![] }), prop("b", Verdict::Error { backends: vec![] })]).exit_code(),
        3
    );
    assert_eq!(r(vec![prop("a", Verdict::Error { backends: vec![] }), prop("b", cex("b", 2))]).exit_code(), 1);
    assert_eq!(r(vec![]).exit_code(), 0);
}

#[test]
fn text_report_lists_each_property_and_a_summary() {
    let report = VerifyReport {
        project: "/p".to_string(),
        properties: vec![prop("check_a", verified(12)), prop("check_b", cex("check_b", 3))],
    };
    let out = report.render_text();
    assert!(out.starts_with("Vergil verify — project: /p\n2 properties\n\n"));
    assert!(out.contains("check_a — verified by halmos in 12ms\n"));
    assert!(out.contains("check_b — counterexample from smtchecker (3ms): x = 0\n"));
    assert!(out.contains("1 verified"));
    assert!(out.contains("1 counterexample"));
    assert!(out.ends_with(" error\n"));
}

#[test]
fn markdown_report_has_table_and_details() {
    let report = VerifyReport {
        project: "/p".to_string(),
        properties: vec![prop("check_a", verified(12)), prop("check_b", cex("check_b", 3))],
    };
    let out = report.render_markdown();
    assert!(out.starts_with("# Vergil verification report\n\n**Project:** `/p`\n\n**Properties checked:** 2\n\n"));
    assert!(out.contains("| `check_a` | ✓ verified | halmos | 12 ms |\n"));
    assert!(out.contains("| `check_b` | ✗ counterexample | smtchecker | 3 ms |\n"));
    assert!(out.contains("### `check_a`\n\nVerified by halmos in 12 ms.\n\nSMT query SHA-256: `ab`\n"));
    assert!(out.contains("Counterexample from smtchecker (3 ms) for `check_b`:\n\n```\nx = 0\n```\n"));
}

#[test]
fn truncate_flattens_short_details_and_cuts_long_ones() {
    assert_eq!(truncate("a\nb", 10), "a b");
    assert_eq!(truncate("abcdef", 3), "abc…");
    assert_eq!(state_name(BackendState::Timeout), "timeout");
}

#[test]
fn phase1_entries_split_verified_and_refuted() {
    let report = VerifyReport {
        project: "/p".to_string(),
        properties: vec![
            prop("check_a", verified(12)),
            prop("check_b", cex("check_b", 3)),
            prop("check_c", Verdict::Unknown { backends: vec![] }),
        ],
    };
    let (v, c, total) = phase1_entries(&report);
    assert_eq!(v.len(), 1);
    assert_eq!(v[0].name, "check_a");
    assert_eq!(v[0].backend, "halmos");
    assert_eq!(v[0].smt_query_sha256.as_deref(), Some("ab"));
    assert_eq!(c.len(), 1);
    assert_eq!(c[0].cex_file, "counterexamples/Cex_check_b.t.sol");
    assert_eq!(c[0].backend, "smtchecker");
    assert_eq!(total, 15);
    assert_eq!(cex_file("p"), "counterexamples/Cex_p.t.sol");
}

fn spec(name: &str, source: Source) -> SpecCandidate {
    SpecCandidate {
        name: name.to_string(),
        halmos: format!("function {name}() public {{}}"),
        smtchecker: String::new(),
        template_ref: None,
        intent_satisfied: true,
        source,
        intent_text: None,
    }
}

#[test]
fn cegis_entries_take_verified_and_refuted_outcomes() {
    let o = |name: &str, v: VerifierVerdict| CandidateOutcome {
        candidate: spec(name, Source::UserIntent),
        iteration: 0,
        candidate_index: 0,
        mutation_dropped: false,
        verifier_verdict: v,
    };
    let outcomes = vec![
        o("check_a", VerifierVerdict::verified()),
        o("check_b", VerifierVerdict::Counterexample { message: "m".to_string() }),
        o("check_c", VerifierVerdict::NotRun),
    ];
    let (v, c) = cegis_entries(&outcomes, 99);
    assert_eq!(v.len(), 1);
    assert_eq!(v[0].name, "check_a");
    assert_eq!(v[0].wall_clock_ms, 99);
    assert_eq!(c.len(), 1);
    assert_eq!(c[0].property, "check_b");
    let mut a = IterationStats::new(0);
    a.wall_clock_ms = 40;
    let mut b = IterationStats::new(1);
    b.wall_clock_ms = 2;
    assert_eq!(total_wall_clock(&vec![a, b]), 42);
}

#[test]
fn unified_entries_keep_provenance() {
    let outs = vec![
        VerdictProperty {
            name: "check_a".to_string(),
            source: Source::Tests,
            tier: Tier::ZeroConfig,
            verdict: PropertyVerdict::Verified { backend: "halmos".to_string(), smt_query_sha256: None },
            template_ref: None,
            intent_text: Some("i".to_string()),
        },
        VerdictProperty {
            name: "check_b".to_string(),
            source: Source::Tests,
            tier: Tier::ZeroConfig,
            verdict: PropertyVerdict::Error { detail: "e".to_string() },
            template_ref: None,
            intent_text: None,
        },
    ];
    let v = unified_entries(&outs);
    assert_eq!(v.len(), 1);
    assert_eq!(v[0].provenance, Some((Source::Tests, Tier::ZeroConfig)));
}

#[test]
fn classify_counts_accept_reject_error() {
    let r = vec![
        CritiqueOutcome { verdict: CritiqueVerdict::Accept, rationale: "ok".into() },
        CritiqueOutcome { verdict: CritiqueVerdict::Reject, rationale: "vacuous spec".into() },
        CritiqueOutcome { verdict: CritiqueVerdict::Reject, rationale: "critique-pass error: rate limit".into() },
    ];
    let counts = classify_critique_outcomes(&r);
    assert_eq!(counts.accepted, 1);
    assert_eq!(counts.rejected, 1);
    assert_eq!(counts.error, 1);
}

#[test]
fn critique_failure_and_keep_rules() {
    assert_eq!(reject_rationale("rate limit"), "critique-pass error: rate limit");
    assert!(critique_keeps(CritiqueVerdict::Accept, true));
    assert!(!critique_keeps(CritiqueVerdict::Accept, false));
    assert!(!critique_keeps(CritiqueVerdict::Reject, true));
    assert!(restate_axis_zeroed(Source::Tests));
    assert!(!restate_axis_zeroed(Source::UserIntent));
}

#[test]
fn missing_fixture_defaults_to_ambiguous_with_clear_reason() {
    let diag = settle_diagnosis(DiagnosisReply::LlmFailed("no fixture".to_string()));
    assert_eq!(diag.class, DiagnosisClass::Ambiguous);
    assert!(diag.rationale.contains("diagnose failed"));
    assert_eq!(diag.rationale, "diagnose failed, defaulting Ambiguous: llm: no fixture");
    let parsed = Diagnosis { class: DiagnosisClass::CodeBug, rationale: "r".to_string(), fix_hint: Some("h".to_string()) };
    let d = settle_diagnosis(DiagnosisReply::Parsed(parsed));
    assert_eq!(d.class, DiagnosisClass::CodeBug);
    assert_eq!(d.fix_hint.as_deref(), Some("h"));
    assert!(ambiguous_with("x").fix_hint.is_none());
}

#[test]
fn refine_errors_name_the_failed_step() {
    assert_eq!(RefineError::Schema("bad".to_string()).message(), "schema: bad");
    assert_eq!(RefineError::Llm("down".to_string()).message(), "llm: down");
}

#[test]
fn run_ids_carry_their_prefix() {
    assert_eq!(resolve_run_id(&Some("mine".to_string())), Some("mine".to_string()));
    let id = resolve_run_id(&None).expect("clock after 1970");
    assert!(id.starts_with("run-"));
    assert_eq!(id.len(), "run-".len() + 16);
    assert_eq!(&id[12..13], "T");
    assert!(id.ends_with('Z'));
    let u = unified_run_id().expect("clock after 1970");
    assert!(u.starts_with("unified-"));
    assert_eq!(u.len(), "unified-".len() + 16);
}

#[test]
fn clock_texts_have_their_formats() {
    let stamp = artifact_run_id().expect("clock after 1970");
    assert_eq!(stamp.len(), 16);
    assert!(stamp[..8].chars().all(|c| c.is_ascii_digit()));
    assert_eq!(&stamp[8..9], "T");
    let now = now_rfc3339().expect("clock after 1970");
    assert!(now.ends_with("+00:00"));
    assert_eq!(&now[4..5], "-");
    assert_eq!(&now[10..11], "T");
}

#[test]
fn null_sink_is_a_no_op() {
    assert_eq!(NullSink, NullSink);
    assert_eq!(COUNTEREXAMPLE_FOUND, "counterexample_found");
    assert_eq!(RUN_COMPLETE, "run_complete");
}
