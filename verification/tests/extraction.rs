use serde_json::Value;
use vergil::catalog_intent::{
    candidate_from_template, extract_intent_candidates_from_catalog, tag_catalog_candidate,
    CatalogIntentConfig, DecidabilityKind, TemplateInfo,
};
use vergil::oracle_intents::{
    is_actionable, natspec_candidates_from, tag_oracle_candidate, test_candidates_from,
    NatSpecBlock, NatSpecTarget, RawCandidate,
};
use vergil::source::Source;
use vergil::structural::{extract_from_structural, StructuralCandidate, StructuralMiner};
use vergil::synthesis::{
    analysis_summary, analysis_unavailable, combine_sources, extract_first_json_array, reply_payload,
    strip_code_fence, DetectorFinding, SpecCandidate, StorageLayoutSummary, StorageSlot,
};

fn template_for_test(id: &str, d: DecidabilityKind, over_approx: Option<&str>) -> TemplateInfo {
    TemplateInfo {
        id: id.to_string(),
        name: format!("Test attack: {id}"),
        negation_property: format!("Negation property text for {id}."),
        category: "reentrancy".to_string(),
        severity: "critical".to_string(),
        decidability: d,
        over_approximation: over_approx.map(str::to_string),
    }
}

#[test]
fn extract_intents_returns_one_candidate_per_decidable_template() {
    let t1 = template_for_test("foo-bar", DecidabilityKind::Decidable, None);
    let t2 = template_for_test("baz-qux", DecidabilityKind::Decidable, None);
    let intents = extract_intent_candidates_from_catalog(&vec![t1, t2]);
    assert_eq!(intents.len(), 2);
    assert_eq!(intents[0].template_id, "foo-bar");
    assert_eq!(intents[0].name, "foo_bar");
    assert_eq!(intents[0].intent_text, "Negation property text for foo-bar.");
    assert_eq!(intents[0].decidability, DecidabilityKind::Decidable);
    assert!(intents[0].over_approximation.is_none());
}

#[test]
fn extract_intents_skips_document_only_templates() {
    let decidable = template_for_test("alpha", DecidabilityKind::Decidable, None);
    let doc_only = template_for_test("beta-doc", DecidabilityKind::DocumentOnly, None);
    let intents = extract_intent_candidates_from_catalog(&vec![decidable, doc_only]);
    assert_eq!(intents.len(), 1, "document-only template must be filtered out");
    assert_eq!(intents[0].template_id, "alpha");
}

#[test]
fn extract_intents_carries_over_approximation_for_frontier_templates() {
    let approx = "Treat external calls as opaque returning arbitrary uint256.";
    let frontier = template_for_test("frontier-foo", DecidabilityKind::Frontier, Some(approx));
    let intents = extract_intent_candidates_from_catalog(&vec![frontier]);
    assert_eq!(intents.len(), 1);
    assert_eq!(intents[0].decidability, DecidabilityKind::Frontier);
    assert_eq!(intents[0].over_approximation.as_deref(), Some(approx));
}

#[test]
fn extract_intents_empty_activation_returns_empty() {
    let intents = extract_intent_candidates_from_catalog(&vec![]);
    assert!(intents.is_empty());
}

#[test]
fn document_only_template_yields_no_candidate() {
    let t = template_for_test("doc", DecidabilityKind::DocumentOnly, None);
    assert!(candidate_from_template(&t).is_none());
    let c = candidate_from_template(&template_for_test("X-Y", DecidabilityKind::Decidable, None)).unwrap();
    assert_eq!(c.name, "x_y");
    assert_eq!(c.display_name, "Test attack: X-Y");
}

fn spec(name: &str) -> SpecCandidate {
    SpecCandidate {
        name: name.to_string(),
        halmos: format!("function {name}() public {{}}"),
        smtchecker: String::new(),
        template_ref: None,
        intent_satisfied: true,
        source: Source::UserIntent,
        intent_text: None,
    }
}

#[test]
fn extract_from_catalog_tags_candidates_with_attack_catalog_source() {
    let c = tag_catalog_candidate(spec("check_a"), &"reentrancy-cei".to_string(), &"no reentry".to_string());
    assert_eq!(c.source, Source::AttackCatalog);
    assert_eq!(c.template_ref.as_deref(), Some("reentrancy-cei"));
    assert_eq!(c.intent_text.as_deref(), Some("no reentry"));
    let mut pre = spec("check_b");
    pre.template_ref = Some("custom".to_string());
    pre.intent_text = Some("kept".to_string());
    let c = tag_catalog_candidate(pre, &"t".to_string(), &"i".to_string());
    assert_eq!(c.template_ref.as_deref(), Some("custom"));
    assert_eq!(c.intent_text.as_deref(), Some("kept"));
}

#[test]
fn catalog_config_samples() {
    assert_eq!(CatalogIntentConfig::for_tests().samples_per_intent, 1);
    assert_eq!(CatalogIntentConfig::default().effective_samples(5), 1);
    assert_eq!(CatalogIntentConfig { samples_per_intent: 0 }.effective_samples(5), 5);
}

#[test]
fn into_spec_candidate_tags_source_and_encodes_confidence() {
    let sc = StructuralCandidate {
        spec: spec("check_owner_const"),
        confidence: format!("{:.2}", 0.95f32),
        miner: StructuralMiner::InvariantConstants,
    };
    let out = sc.into_spec_candidate();
    assert_eq!(out.source, Source::StructuralAnalysis);
    assert_eq!(out.template_ref.as_deref(), Some("structural:invariant-constants:0.95"));
}

#[test]
fn into_spec_candidate_preserves_explicit_template_ref() {
    let mut s = spec("check_x");
    s.template_ref = Some("structural:custom".into());
    let sc = StructuralCandidate {
        spec: s,
        confidence: format!("{:.2}", 0.7f32),
        miner: StructuralMiner::Conservation,
    };
    let out = sc.into_spec_candidate();
    assert_eq!(out.template_ref.as_deref(), Some("structural:custom"));
}

#[test]
fn empty_extract_returns_default_report() {
    let r = extract_from_structural(&vec![]);
    assert!(r.candidates.is_empty());
    assert!(r.low_confidence_findings.is_empty());
    assert!(r.miner_counts.is_empty());
}

fn raw(name: &str) -> RawCandidate {
    RawCandidate { name: name.to_string(), intent_text: format!("intent {name}"), rationale: String::new() }
}

fn four_raws(suffix: &str) -> Vec<RawCandidate> {
    ["a", "b", "c", "d"]
        .iter()
        .zip(["first", "second", "third", "fourth"])
        .map(|(n, t)| RawCandidate {
            name: n.to_string(),
            intent_text: format!("{t}{suffix}"),
            rationale: "r".to_string(),
        })
        .collect()
}

#[test]
fn tests_intent_multi_candidate_response_caps_at_max() {
    let out = test_candidates_from(four_raws(" invariant"), 3, &"testMulti".to_string());
    assert_eq!(out.len(), 3);
    assert_eq!(out[0].name, "a");
    assert_eq!(out[1].name, "b");
    assert_eq!(out[2].name, "c");
    assert_eq!(out[2].source_test_name, "testMulti");
}

#[test]
fn natspec_intent_multi_candidate_response_caps_at_max() {
    let target = NatSpecTarget::Contract { name: "C".to_string() };
    let out = natspec_candidates_from(four_raws(""), 3, &target);
    assert_eq!(out.len(), 3);
    assert_eq!(out[0].source_target_kind, "contract");
    assert_eq!(out[0].source_target_name, "C");
}

#[test]
fn candidate_names_are_sanitized() {
    let out = test_candidates_from(vec![raw("A one")], 3, &"t".to_string());
    assert_eq!(out[0].name, "a_one");
}

#[test]
fn empty_block_is_filtered_out_pre_llm() {
    let empty = NatSpecBlock {
        target: NatSpecTarget::Contract { name: "C".into() },
        notice: None,
        dev: vec![],
        invariant: vec![],
        custom_security: vec![],
    };
    assert!(!is_actionable(&empty));
    let with_invariant = NatSpecBlock { invariant: vec!["supply fixed".into()], ..empty.clone() };
    assert!(is_actionable(&with_invariant));
}

#[test]
fn tests_and_natspec_extractions_carry_distinct_source_labels() {
    let t = tag_oracle_candidate(spec("check_a"), Source::Tests, &"from test".to_string());
    let n = tag_oracle_candidate(spec("check_b"), Source::NatSpec, &"from doc".to_string());
    assert_eq!(t.source, Source::Tests);
    assert_eq!(n.source, Source::NatSpec);
    assert_eq!(t.intent_text.as_deref(), Some("from test"));
    assert_ne!(t.source, n.source);
}

/// Reads a model reply the way the JSON layer does: the payload as an
/// array, else as one object, else the first bracketed array in it.
fn parse_candidates(raw: &str) -> Vec<Value> {
    let body = reply_payload(raw);
    if let Ok(Value::Array(v)) = serde_json::from_str::<Value>(&body) {
        return v;
    }
    if let Ok(one @ Value::Object(_)) = serde_json::from_str::<Value>(&body) {
        return vec![one];
    }
    if let Some(arr) = extract_first_json_array(&body) {
        if let Ok(Value::Array(v)) = serde_json::from_str::<Value>(&arr) {
            return v;
        }
    }
    Vec::new()
}

#[test]
fn parses_clean_json_array() {
    let body = r#"[{"name":"check_x","halmos":"fn body","smtchecker":"","intent_satisfied":true}]"#;
    let v = parse_candidates(body);
    assert_eq!(v.len(), 1);
    assert_eq!(v[0]["name"], "check_x");
}

#[test]
fn tolerates_code_fence_with_json_tag() {
    let body = "```json\n[{\"name\":\"check_x\",\"halmos\":\"fn body\"}]\n```";
    assert_eq!(strip_code_fence(body), "[{\"name\":\"check_x\",\"halmos\":\"fn body\"}]\n");
    let v = parse_candidates(body);
    assert_eq!(v.len(), 1);
}

#[test]
fn tolerates_plain_code_fence() {
    let body = "```\n[{\"name\":\"check_x\",\"halmos\":\"fn body\"}]\n```";
    let v = parse_candidates(body);
    assert_eq!(v.len(), 1);
}

#[test]
fn extracts_array_buried_in_prose() {
    let body = "Here you go:\n[{\"name\":\"check_x\",\"halmos\":\"fn body\"}]\nLet me know.";
    let v = parse_candidates(body);
    assert_eq!(v.len(), 1);
    assert_eq!(
        extract_first_json_array(body).as_deref(),
        Some("[{\"name\":\"check_x\",\"halmos\":\"fn body\"}]")
    );
}

#[test]
fn parses_single_object_as_one_element_vec() {
    let body = r#"{"name":"check_x","halmos":"fn body"}"#;
    let v = parse_candidates(body);
    assert_eq!(v.len(), 1);
}

#[test]
fn empty_on_unparseable() {
    let v = parse_candidates("absolutely not json");
    assert!(v.is_empty());
    assert_eq!(extract_first_json_array("[ [ ]"), None);
    assert_eq!(extract_first_json_array("a [b [c] d] e").as_deref(), Some("[b [c] d]"));
}

#[test]
fn parse_response_extracts_array_from_prose() {
    let body = r#"Here you go:
            [{"name":"x","intent_text":"y","rationale":"z"}]
            That's it."#;
    let v = parse_candidates(body);
    assert_eq!(v.len(), 1);
}

#[test]
fn parse_response_tolerates_single_object() {
    let body = r#"{"name":"x","intent_text":"y","rationale":"z"}"#;
    let v = parse_candidates(body);
    assert_eq!(v.len(), 1);
}

#[test]
fn combined_sources_mark_each_file() {
    let files = vec![
        ("A.sol".to_string(), "contract A {}".to_string()),
        ("B.sol".to_string(), "contract B {}\n".to_string()),
    ];
    assert_eq!(
        combine_sources(&files),
        "// ── src/A.sol ──\ncontract A {}\n// ── src/B.sol ──\ncontract B {}\n"
    );
}

#[test]
fn static_analysis_summary_lists_slots_and_findings() {
    let layouts = vec![StorageLayoutSummary {
        qualified_name: "src/T.sol:T".to_string(),
        entries: vec![StorageSlot { slot: "0".to_string(), label: "owner".to_string(), type_id: "t_address".to_string() }],
    }];
    let s = analysis_summary(&layouts, &vec![]);
    assert_eq!(s.text, "contract src/T.sol:T:\n  slot 0 = owner : t_address\n");
    let d = vec![DetectorFinding { impact: "High".to_string(), check: "reentrancy-eth".to_string(), description: "r".to_string() }];
    let s = analysis_summary(&vec![], &d);
    assert_eq!(s.text, "\nslither detectors:\n  [High] reentrancy-eth: r\n");
    assert_eq!(analysis_unavailable("no slither").text, "(static analysis unavailable: no slither)");
}
