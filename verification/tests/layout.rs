use vergil::layout::{
    attack_catalog_per_template_proof, confirm_state, counterexamples_dir, join_path, report_md,
    smt_dir, source_dir, tier_dir, top_level_proof_json, trace_jsonl, tree_dirs, vergil_out,
};
use vergil::source::{Source, Tier};

fn project() -> String {
    "/tmp/test-project".to_string()
}

/// Whether creating the directories `tree_dirs` lists would leave `p`
/// as a directory: it is one of them, or a parent of one.
fn is_dir(project: &str, p: &str) -> bool {
    tree_dirs(project).iter().any(|d| d == p || d.starts_with(&format!("{p}/")))
}

#[test]
fn top_level_proof_json_path_is_stable() {
    assert_eq!(top_level_proof_json(&project()), "/tmp/test-project/vergil-out/proof.json");
}

#[test]
fn counterexamples_dir_stays_at_top_level() {
    assert_eq!(counterexamples_dir(&project()), "/tmp/test-project/vergil-out/counterexamples");
}

#[test]
fn source_dir_routes_each_zero_config_source_to_its_subdir() {
    let p = project();
    assert_eq!(
        source_dir(&p, Tier::ZeroConfig, Source::AttackCatalog),
        "/tmp/test-project/vergil-out/zero-config/attack-catalog"
    );
    assert_eq!(source_dir(&p, Tier::ZeroConfig, Source::Tests), "/tmp/test-project/vergil-out/zero-config/tests");
    assert_eq!(source_dir(&p, Tier::ZeroConfig, Source::NatSpec), "/tmp/test-project/vergil-out/zero-config/natspec");
    assert_eq!(
        source_dir(&p, Tier::ZeroConfig, Source::Conformance),
        "/tmp/test-project/vergil-out/zero-config/conformance"
    );
    assert_eq!(
        source_dir(&p, Tier::ZeroConfig, Source::StructuralAnalysis),
        "/tmp/test-project/vergil-out/zero-config/structural"
    );
}

#[test]
fn intent_tier_uses_intent_dir() {
    assert_eq!(tier_dir(&project(), Tier::Intent), "/tmp/test-project/vergil-out/intent");
    assert_eq!(source_dir(&project(), Tier::Intent, Source::UserIntent), "/tmp/test-project/vergil-out/intent");
}

#[test]
fn attack_catalog_per_template_path_is_predictable() {
    assert_eq!(
        attack_catalog_per_template_proof(&project(), "reentrancy-cei"),
        "/tmp/test-project/vergil-out/zero-config/attack-catalog/reentrancy-cei.proof.json"
    );
}

#[test]
fn ensure_tree_creates_full_layout_idempotently() {
    let project = "/tmp/vergil-layout".to_string();
    let first = tree_dirs(&project);
    let second = tree_dirs(&project);
    assert_eq!(first, second);
    assert!(is_dir(&project, &vergil_out(&project)));
    assert!(is_dir(&project, &counterexamples_dir(&project)));
    assert!(is_dir(&project, &smt_dir(&project)));
    for s in [Source::AttackCatalog, Source::Conformance, Source::Tests, Source::NatSpec, Source::StructuralAnalysis] {
        assert!(is_dir(&project, &source_dir(&project, Tier::ZeroConfig, s)), "missing zero-config source dir: {s:?}");
    }
    assert!(is_dir(&project, &tier_dir(&project, Tier::Intent)));
}

#[test]
fn ensure_tree_lays_out_spec_3_8_directories() {
    let project = "/srv/p".to_string();
    assert!(is_dir(&project, &vergil_out(&project)), "vergil-out/ root must exist");
    assert!(is_dir(&project, &counterexamples_dir(&project)), "vergil-out/counterexamples/ must exist");
    assert!(is_dir(&project, &smt_dir(&project)), "vergil-out/smt/ must exist");
    for s in [Source::AttackCatalog, Source::Conformance, Source::Tests, Source::NatSpec, Source::StructuralAnalysis] {
        let dir = source_dir(&project, Tier::ZeroConfig, s);
        assert!(is_dir(&project, &dir), "zero-config source dir missing: {} (for {:?})", dir, s);
    }
    assert!(is_dir(&project, &tier_dir(&project, Tier::Intent)));
}

#[test]
fn layout_helper_paths_match_spec_3_8_exactly() {
    let project = "/p".to_string();
    assert_eq!(top_level_proof_json(&project), "/p/vergil-out/proof.json");
    assert_eq!(report_md(&project), "/p/vergil-out/report.md");
    assert_eq!(counterexamples_dir(&project), "/p/vergil-out/counterexamples");
    assert_eq!(smt_dir(&project), "/p/vergil-out/smt");
    assert_eq!(trace_jsonl(&project), "/p/vergil-out/trace/run.jsonl");
    assert_eq!(confirm_state(&project), "/p/vergil-out/confirm/state.json");
    assert_eq!(
        attack_catalog_per_template_proof(&project, "reentrancy-cei"),
        "/p/vergil-out/zero-config/attack-catalog/reentrancy-cei.proof.json"
    );
}

#[test]
fn join_path_follows_path_push() {
    assert_eq!(join_path("/a/", "b"), "/a/b");
    assert_eq!(join_path("/a", "/abs"), "/abs");
    assert_eq!(join_path("", "b"), "b");
    assert_eq!(join_path("rel", "b"), "rel/b");
}

#[test]
fn tree_dirs_lists_ten_directories_in_creation_order() {
    let d = tree_dirs("/p");
    assert_eq!(d.len(), 10);
    assert_eq!(d[0], "/p/vergil-out");
    assert_eq!(d[3], "/p/vergil-out/trace");
    assert_eq!(d[9], "/p/vergil-out/intent");
}
