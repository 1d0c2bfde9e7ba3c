//! Paths of the `vergil-out/` artifact tree.
//!
//! ```text
//! vergil-out/
//! ├── report.md
//! ├── proof.json
//! ├── zero-config/{attack-catalog,conformance,tests,natspec,structural}/
//! ├── intent/
//! ├── counterexamples/
//! ├── smt/
//! ├── confirm/state.json
//! └── trace/run.jsonl
//! ```
//!
//! Paths are text with `/` separators.
use vstd::prelude::*;

use crate::source::{Source, Tier};

verus! {

/// Joining `seg` onto `base` as a Unix `PathBuf::push` does: an absolute
/// `seg` replaces `base`; otherwise a separator is put between them unless
/// `base` is empty or already ends with one.
pub open spec fn spec_join_path(base: Seq<char>, seg: Seq<char>) -> Seq<char> {
    if seg.len() > 0 && seg[0] == '/' {
        seg
    } else if base.len() == 0 {
        seg
    } else if base.last() == '/' {
        base + seg
    } else {
        base + seq!['/'] + seg
    }
}

/// `base` joined with `seg`.
pub fn join_path(base: &str, seg: &str) -> (r: String)
    ensures
        r@ == spec_join_path(base@, seg@),
{
    let b = crate::text::to_chars(base);
    let s = crate::text::to_chars(seg);
    if s.len() > 0 && s[0] == '/' {
        return crate::text::from_chars(s.as_slice());
    }
    if b.len() == 0 {
        return crate::text::from_chars(s.as_slice());
    }
    let mut out = String::from_str(base);
    if b[b.len() - 1] != '/' {
        crate::text::push_char(&mut out, '/');
    }
    out.append(seg);
    out
}

pub open spec fn spec_vergil_out(project: Seq<char>) -> Seq<char> {
    spec_join_path(project, "vergil-out"@)
}

/// `<project>/vergil-out`.
pub fn vergil_out(project: &str) -> (r: String)
    ensures
        r@ == spec_vergil_out(project@),
{
    join_path(project, "vergil-out")
}

/// `<project>/vergil-out/proof.json`, the canonical proof artifact.
pub fn top_level_proof_json(project: &str) -> (r: String)
    ensures
        r@ == spec_join_path(spec_vergil_out(project@), "proof.json"@),
{
    join_path(vergil_out(project).as_str(), "proof.json")
}

/// `<project>/vergil-out/report.md`, the stratified verdict.
pub fn report_md(project: &str) -> (r: String)
    ensures
        r@ == spec_join_path(spec_vergil_out(project@), "report.md"@),
{
    join_path(vergil_out(project).as_str(), "report.md")
}

/// `<project>/vergil-out/counterexamples`, kept at the top level.
pub fn counterexamples_dir(project: &str) -> (r: String)
    ensures
        r@ == spec_join_path(spec_vergil_out(project@), "counterexamples"@),
{
    join_path(vergil_out(project).as_str(), "counterexamples")
}

/// `<project>/vergil-out/smt`, where SMT-LIB queries are persisted.
pub fn smt_dir(project: &str) -> (r: String)
    ensures
        r@ == spec_join_path(spec_vergil_out(project@), "smt"@),
{
    join_path(vergil_out(project).as_str(), "smt")
}

/// `<project>/vergil-out/trace/run.jsonl`.
pub fn trace_jsonl(project: &str) -> (r: String)
    ensures
        r@ == spec_join_path(spec_join_path(spec_vergil_out(project@), "trace"@), "run.jsonl"@),
{
    let t = join_path(vergil_out(project).as_str(), "trace");
    join_path(t.as_str(), "run.jsonl")
}

/// `<project>/vergil-out/confirm/state.json`, the confirmation gate's state.
pub fn confirm_state(project: &str) -> (r: String)
    ensures
        r@ == spec_join_path(spec_join_path(spec_vergil_out(project@), "confirm"@), "state.json"@),
{
    let c = join_path(vergil_out(project).as_str(), "confirm");
    join_path(c.as_str(), "state.json")
}

pub open spec fn spec_tier_dir_name(tier: Tier) -> Seq<char> {
    match tier {
        Tier::ZeroConfig => "zero-config"@,
        Tier::Intent => "intent"@,
    }
}

pub open spec fn spec_tier_dir(project: Seq<char>, tier: Tier) -> Seq<char> {
    spec_join_path(spec_vergil_out(project), spec_tier_dir_name(tier))
}

/// `<project>/vergil-out/zero-config` or `<project>/vergil-out/intent`.
pub fn tier_dir(project: &str, tier: Tier) -> (r: String)
    ensures
        r@ == spec_tier_dir(project@, tier),
{
    let vo = vergil_out(project);
    match tier {
        Tier::ZeroConfig => join_path(vo.as_str(), "zero-config"),
        Tier::Intent => join_path(vo.as_str(), "intent"),
    }
}

/// Subdirectory of a zero-config source, if it has one.
pub open spec fn spec_source_subdir(source: Source) -> Option<Seq<char>> {
    match source {
        Source::AttackCatalog => Some("attack-catalog"@),
        Source::Conformance => Some("conformance"@),
        Source::Tests => Some("tests"@),
        Source::NatSpec => Some("natspec"@),
        Source::StructuralAnalysis => Some("structural"@),
        Source::UserIntent => None,
    }
}

pub open spec fn spec_source_dir(project: Seq<char>, tier: Tier, source: Source) -> Seq<char> {
    match (tier, spec_source_subdir(source)) {
        (Tier::ZeroConfig, Some(sub)) => spec_join_path(spec_tier_dir(project, tier), sub),
        _ => spec_tier_dir(project, tier),
    }
}

/// Per-source directory inside a tier: zero-config sources get their own
/// subdirectory; user intents under zero-config, and everything under the
/// intent tier, stay in the tier directory.
pub fn source_dir(project: &str, tier: Tier, source: Source) -> (r: String)
    ensures
        r@ == spec_source_dir(project@, tier, source),
{
    let base = tier_dir(project, tier);
    match tier {
        Tier::Intent => base,
        Tier::ZeroConfig => match source {
            Source::AttackCatalog => join_path(base.as_str(), "attack-catalog"),
            Source::Conformance => join_path(base.as_str(), "conformance"),
            Source::Tests => join_path(base.as_str(), "tests"),
            Source::NatSpec => join_path(base.as_str(), "natspec"),
            Source::StructuralAnalysis => join_path(base.as_str(), "structural"),
            Source::UserIntent => base,
        },
    }
}

/// `.../zero-config/attack-catalog/<attack_id>.proof.json`.
pub fn attack_catalog_per_template_proof(project: &str, attack_id: &str) -> (r: String)
    ensures
        r@ == spec_join_path(
            spec_source_dir(project@, Tier::ZeroConfig, Source::AttackCatalog),
            attack_id@ + ".proof.json"@,
        ),
{
    let d = source_dir(project, Tier::ZeroConfig, Source::AttackCatalog);
    let f = String::from_str(attack_id).concat(".proof.json");
    join_path(d.as_str(), f.as_str())
}

/// Every directory of the tree, in the order they are created: the root,
/// counterexamples, smt, trace, the five zero-config source directories,
/// and the intent tier.
pub fn tree_dirs(project: &str) -> (r: Vec<String>)
    ensures
        r.len() == 10,
        r@[0]@ == spec_vergil_out(project@),
        r@[1]@ == spec_join_path(spec_vergil_out(project@), "counterexamples"@),
        r@[2]@ == spec_join_path(spec_vergil_out(project@), "smt"@),
        r@[3]@ == spec_join_path(spec_vergil_out(project@), "trace"@),
        r@[4]@ == spec_source_dir(project@, Tier::ZeroConfig, Source::AttackCatalog),
        r@[5]@ == spec_source_dir(project@, Tier::ZeroConfig, Source::Conformance),
        r@[6]@ == spec_source_dir(project@, Tier::ZeroConfig, Source::Tests),
        r@[7]@ == spec_source_dir(project@, Tier::ZeroConfig, Source::NatSpec),
        r@[8]@ == spec_source_dir(project@, Tier::ZeroConfig, Source::StructuralAnalysis),
        r@[9]@ == spec_tier_dir(project@, Tier::Intent),
{
    let mut v: Vec<String> = Vec::new();
    v.push(vergil_out(project));
    v.push(counterexamples_dir(project));
    v.push(smt_dir(project));
    v.push(join_path(vergil_out(project).as_str(), "trace"));
    v.push(source_dir(project, Tier::ZeroConfig, Source::AttackCatalog));
    v.push(source_dir(project, Tier::ZeroConfig, Source::Conformance));
    v.push(source_dir(project, Tier::ZeroConfig, Source::Tests));
    v.push(source_dir(project, Tier::ZeroConfig, Source::NatSpec));
    v.push(source_dir(project, Tier::ZeroConfig, Source::StructuralAnalysis));
    v.push(tier_dir(project, Tier::Intent));
    v
}

} // verus!
