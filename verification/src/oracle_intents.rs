//! The test and NatSpec oracles: what of a parsed test or doc block the
//! extraction prompt is shown, and how the model's proposals become intent
//! candidates. Asking the model and parsing its JSON are outside work.
use vstd::prelude::*;

use crate::catalog_intent::{sanitize_name, spec_sanitize_name};
use crate::source::Source;
use crate::synthesis::SpecCandidate;
use crate::text::{decimal, push_decimal, spec_join};

verus! {

/// One intent the model proposed, as parsed from its reply.
#[derive(Debug, Clone)]
pub struct RawCandidate {
    pub name: String,
    pub intent_text: String,
    /// Empty when the reply gave none.
    pub rationale: String,
}

/// What a NatSpec block documents.
#[derive(Debug, Clone)]
pub enum NatSpecTarget {
    Contract { name: String },
    Function { name: String },
    Storage { name: String },
}

/// The tags of one NatSpec block that the oracle reads.
#[derive(Debug, Clone)]
pub struct NatSpecBlock {
    pub target: NatSpecTarget,
    pub notice: Option<String>,
    pub dev: Vec<String>,
    pub invariant: Vec<String>,
    pub custom_security: Vec<String>,
}

/// An intent drawn from a NatSpec block.
#[derive(Debug, Clone)]
pub struct NatSpecIntentCandidate {
    pub name: String,
    pub intent_text: String,
    pub rationale: String,
    pub source_target_kind: String,
    pub source_target_name: String,
}

/// A block is worth asking about when it has a notice, or any dev,
/// invariant or security line.
pub fn is_actionable(b: &NatSpecBlock) -> (r: bool)
    ensures
        r == (b.notice is Some || b.dev.len() > 0 || b.invariant.len() > 0 || b.custom_security.len()
            > 0),
{
    b.notice.is_some() || b.dev.len() > 0 || b.invariant.len() > 0 || b.custom_security.len() > 0
}

pub open spec fn spec_target_kind(t: NatSpecTarget) -> Seq<char> {
    match t {
        NatSpecTarget::Contract { .. } => "contract"@,
        NatSpecTarget::Function { .. } => "function"@,
        NatSpecTarget::Storage { .. } => "storage"@,
    }
}

pub open spec fn spec_target_name(t: NatSpecTarget) -> String {
    match t {
        NatSpecTarget::Contract { name } => name,
        NatSpecTarget::Function { name } => name,
        NatSpecTarget::Storage { name } => name,
    }
}

/// The kind of thing a block documents, and its name.
pub fn target_kind_and_name(target: &NatSpecTarget) -> (r: (&'static str, String))
    ensures
        r.0@ == spec_target_kind(*target),
        r.1 == spec_target_name(*target),
{
    match target {
        NatSpecTarget::Contract { name } => ("contract", name.clone()),
        NatSpecTarget::Function { name } => ("function", name.clone()),
        NatSpecTarget::Storage { name } => ("storage", name.clone()),
    }
}

/// Each item as a `- item` line, joined by newlines; `(none)` when empty.
pub open spec fn spec_render_list(items: Seq<String>) -> Seq<char> {
    if items.len() == 0 {
        "(none)"@
    } else {
        spec_join(items.map_values(|s: String| "- "@ + s@), "\n"@)
    }
}

/// The items of a tag as a bulleted list for the prompt.
pub fn render_list(items: &Vec<String>) -> (r: String)
    ensures
        r@ == spec_render_list(items@),
{
    if items.len() == 0 {
        return String::from_str("(none)");
    }
    let ghost lines = items@.map_values(|s: String| "- "@ + s@);
    let mut out = String::new();
    let mut i: usize = 0;
    while i < items.len()
        invariant
            i <= items.len(),
            lines == items@.map_values(|s: String| "- "@ + s@),
            out@ == spec_join(lines.take(i as int), "\n"@),
        decreases items.len() - i,
    {
        proof {
            let t = lines.take(i + 1);
            assert(t.drop_last() =~= lines.take(i as int));
            assert(t.last() == "- "@ + items@[i as int]@);
        }
        let ghost before = out@;
        if i > 0 {
            out.append("\n");
        }
        out.append("- ");
        out.append(items[i].as_str());
        proof {
            if i == 0 {
                assert(out@ =~= spec_join(lines.take(1), "\n"@));
            } else {
                assert(out@ =~= before + "\n"@ + ("- "@ + items@[i as int]@));
            }
        }
        i += 1;
    }
    assert(lines.take(items.len() as int) =~= lines);
    out
}

/// Named values the NatSpec extraction prompt is filled with.
pub fn natspec_prompt_vars(block: &NatSpecBlock, max_candidates: usize) -> (vars: Vec<
    (String, String),
>)
    ensures
        vars.len() == 7,
        vars@[0].0@ == "target_kind"@ && vars@[0].1@ == spec_target_kind(block.target),
        vars@[1].0@ == "target_name"@ && vars@[1].1 == spec_target_name(block.target),
        vars@[2].0@ == "notice"@ && vars@[2].1@ == match block.notice {
            Some(n) => n@,
            None => "(none)"@,
        },
        vars@[3].0@ == "dev"@ && vars@[3].1@ == spec_render_list(block.dev@),
        vars@[4].0@ == "invariant"@ && vars@[4].1@ == spec_render_list(block.invariant@),
        vars@[5].0@ == "custom_security"@ && vars@[5].1@ == spec_render_list(
            block.custom_security@,
        ),
        vars@[6].0@ == "max_candidates"@ && vars@[6].1@ == decimal(max_candidates as nat),
{
    let (kind, name) = target_kind_and_name(&block.target);
    let notice = match &block.notice {
        Some(n) => n.clone(),
        None => String::from_str("(none)"),
    };
    let mut max = String::new();
    push_decimal(&mut max, max_candidates as u64);
    assert(Seq::<char>::empty() + decimal(max_candidates as nat) =~= decimal(max_candidates as nat));
    let mut v: Vec<(String, String)> = Vec::new();
    v.push((String::from_str("target_kind"), String::from_str(kind)));
    v.push((String::from_str("target_name"), name));
    v.push((String::from_str("notice"), notice));
    v.push((String::from_str("dev"), render_list(&block.dev)));
    v.push((String::from_str("invariant"), render_list(&block.invariant)));
    v.push((String::from_str("custom_security"), render_list(&block.custom_security)));
    v.push((String::from_str("max_candidates"), max));
    v
}

/// The first `max` proposals, each with a sanitized name and the block's
/// target.
pub fn natspec_candidates_from(
    raws: Vec<RawCandidate>,
    max: usize,
    target: &NatSpecTarget,
) -> (r: Vec<NatSpecIntentCandidate>)
    ensures
        r.len() == if raws.len() < max { raws.len() } else { max },
        forall|i: int|
            0 <= i < r.len() ==> {
                &&& (#[trigger] r@[i]).name@ == spec_sanitize_name(raws@[i].name@)
                &&& r@[i].intent_text == raws@[i].intent_text
                &&& r@[i].rationale == raws@[i].rationale
                &&& r@[i].source_target_kind@ == spec_target_kind(*target)
                &&& r@[i].source_target_name == spec_target_name(*target)
            },
{
    let (kind, name) = target_kind_and_name(target);
    let n = if raws.len() < max {
        raws.len()
    } else {
        max
    };
    let mut out: Vec<NatSpecIntentCandidate> = Vec::new();
    let mut i: usize = 0;
    while i < n
        invariant
            i <= n,
            n <= raws.len(),
            out.len() == i,
            kind@ == spec_target_kind(*target),
            name == spec_target_name(*target),
            forall|k: int|
                0 <= k < i ==> {
                    &&& (#[trigger] out@[k]).name@ == spec_sanitize_name(raws@[k].name@)
                    &&& out@[k].intent_text == raws@[k].intent_text
                    &&& out@[k].rationale == raws@[k].rationale
                    &&& out@[k].source_target_kind@ == spec_target_kind(*target)
                    &&& out@[k].source_target_name == spec_target_name(*target)
                },
        decreases n - i,
    {
        let raw = &raws[i];
        out.push(
            NatSpecIntentCandidate {
                name: sanitize_name(raw.name.as_str()),
                intent_text: raw.intent_text.clone(),
                rationale: raw.rationale.clone(),
                source_target_kind: String::from_str(kind),
                source_target_name: name.clone(),
            },
        );
        i += 1;
    }
    out
}

/// An assertion site found in a test.
#[derive(Debug, Clone)]
pub enum Assertion {
    Eq { lhs: String, rhs: String },
    True { expr: String },
    False { expr: String },
    ExpectRevert,
    HalmosAssert { expr: String },
}

/// What the test oracle reads of a parsed test.
#[derive(Debug, Clone)]
pub struct ParsedTest {
    pub name: String,
    pub doc_comment: Option<String>,
    pub body: String,
    pub assertions: Vec<Assertion>,
}

/// An intent drawn from a test.
#[derive(Debug, Clone)]
pub struct TestIntentCandidate {
    pub name: String,
    pub intent_text: String,
    pub rationale: String,
    pub source_test_name: String,
}

/// One assertion as the prompt lists it.
pub open spec fn spec_assertion_line(a: Assertion) -> Seq<char> {
    match a {
        Assertion::Eq { lhs, rhs } => "- assertEq("@ + lhs@ + ", "@ + rhs@ + ")"@,
        Assertion::True { expr } => "- assertTrue("@ + expr@ + ")"@,
        Assertion::False { expr } => "- assertFalse("@ + expr@ + ")"@,
        Assertion::ExpectRevert => "- vm.expectRevert(...)"@,
        Assertion::HalmosAssert { expr } => "- assert("@ + expr@ + ")"@,
    }
}

/// The assertion sites, one line each, or a note that there are none.
pub open spec fn spec_render_assertions(a: Seq<Assertion>) -> Seq<char> {
    if a.len() == 0 {
        "(no assertion sites detected)"@
    } else {
        spec_join(a.map_values(|x: Assertion| spec_assertion_line(x)), "\n"@)
    }
}

fn push_assertion_line(out: &mut String, a: &Assertion)
    ensures
        final(out)@ == old(out)@ + spec_assertion_line(*a),
{
    let ghost o0 = out@;
    match a {
        Assertion::Eq { lhs, rhs } => {
            out.append("- assertEq(");
            out.append(lhs.as_str());
            out.append(", ");
            out.append(rhs.as_str());
            out.append(")");
        },
        Assertion::True { expr } => {
            out.append("- assertTrue(");
            out.append(expr.as_str());
            out.append(")");
        },
        Assertion::False { expr } => {
            out.append("- assertFalse(");
            out.append(expr.as_str());
            out.append(")");
        },
        Assertion::ExpectRevert => {
            out.append("- vm.expectRevert(...)");
        },
        Assertion::HalmosAssert { expr } => {
            out.append("- assert(");
            out.append(expr.as_str());
            out.append(")");
        },
    }
    assert(out@ =~= o0 + spec_assertion_line(*a));
}

/// The assertion sites of a test for the prompt.
pub fn render_assertions(assertions: &Vec<Assertion>) -> (r: String)
    ensures
        r@ == spec_render_assertions(assertions@),
{
    if assertions.len() == 0 {
        return String::from_str("(no assertion sites detected)");
    }
    let ghost lines = assertions@.map_values(|x: Assertion| spec_assertion_line(x));
    let mut out = String::new();
    let mut i: usize = 0;
    while i < assertions.len()
        invariant
            i <= assertions.len(),
            lines == assertions@.map_values(|x: Assertion| spec_assertion_line(x)),
            out@ == spec_join(lines.take(i as int), "\n"@),
        decreases assertions.len() - i,
    {
        proof {
            let t = lines.take(i + 1);
            assert(t.drop_last() =~= lines.take(i as int));
            assert(t.last() == spec_assertion_line(assertions@[i as int]));
        }
        let ghost before = out@;
        if i > 0 {
            out.append("\n");
        }
        let ghost mid = out@;
        push_assertion_line(&mut out, &assertions[i]);
        proof {
            if i == 0 {
                assert(out@ =~= spec_join(lines.take(1), "\n"@));
            } else {
                assert(out@ =~= before + "\n"@ + spec_assertion_line(assertions@[i as int]));
            }
        }
        i += 1;
    }
    assert(lines.take(assertions.len() as int) =~= lines);
    out
}

/// Named values the test extraction prompt is filled with.
pub fn tests_prompt_vars(test: &ParsedTest, max_candidates: usize) -> (vars: Vec<(String, String)>)
    ensures
        vars.len() == 5,
        vars@[0].0@ == "test_name"@ && vars@[0].1 == test.name,
        vars@[1].0@ == "test_doc"@ && vars@[1].1@ == match test.doc_comment {
            Some(d) => d@,
            None => "(no doc comment)"@,
        },
        vars@[2].0@ == "test_body"@ && vars@[2].1 == test.body,
        vars@[3].0@ == "test_assertions"@ && vars@[3].1@ == spec_render_assertions(
            test.assertions@,
        ),
        vars@[4].0@ == "max_candidates"@ && vars@[4].1@ == decimal(max_candidates as nat),
{
    let doc = match &test.doc_comment {
        Some(d) => d.clone(),
        None => String::from_str("(no doc comment)"),
    };
    let mut max = String::new();
    push_decimal(&mut max, max_candidates as u64);
    assert(Seq::<char>::empty() + decimal(max_candidates as nat) =~= decimal(max_candidates as nat));
    let mut v: Vec<(String, String)> = Vec::new();
    v.push((String::from_str("test_name"), test.name.clone()));
    v.push((String::from_str("test_doc"), doc));
    v.push((String::from_str("test_body"), test.body.clone()));
    v.push((String::from_str("test_assertions"), render_assertions(&test.assertions)));
    v.push((String::from_str("max_candidates"), max));
    v
}

/// The first `max` proposals, each with a sanitized name and the test's
/// name.
pub fn test_candidates_from(raws: Vec<RawCandidate>, max: usize, test_name: &String) -> (r: Vec<
    TestIntentCandidate,
>)
    ensures
        r.len() == if raws.len() < max { raws.len() } else { max },
        forall|i: int|
            0 <= i < r.len() ==> {
                &&& (#[trigger] r@[i]).name@ == spec_sanitize_name(raws@[i].name@)
                &&& r@[i].intent_text == raws@[i].intent_text
                &&& r@[i].rationale == raws@[i].rationale
                &&& r@[i].source_test_name == *test_name
            },
{
    let n = if raws.len() < max {
        raws.len()
    } else {
        max
    };
    let mut out: Vec<TestIntentCandidate> = Vec::new();
    let mut i: usize = 0;
    while i < n
        invariant
            i <= n,
            n <= raws.len(),
            out.len() == i,
            forall|k: int|
                0 <= k < i ==> {
                    &&& (#[trigger] out@[k]).name@ == spec_sanitize_name(raws@[k].name@)
                    &&& out@[k].intent_text == raws@[k].intent_text
                    &&& out@[k].rationale == raws@[k].rationale
                    &&& out@[k].source_test_name == *test_name
                },
        decreases n - i,
    {
        let raw = &raws[i];
        out.push(
            TestIntentCandidate {
                name: sanitize_name(raw.name.as_str()),
                intent_text: raw.intent_text.clone(),
                rationale: raw.rationale.clone(),
                source_test_name: test_name.clone(),
            },
        );
        i += 1;
    }
    out
}

/// A candidate synthesized for an oracle intent: marked with the oracle's
/// source, and given the intent text when the model left it out.
pub fn tag_oracle_candidate(c: SpecCandidate, source: Source, intent_text: &String) -> (r:
    SpecCandidate)
    ensures
        r.source == source,
        r.name == c.name,
        r.halmos == c.halmos,
        r.smtchecker == c.smtchecker,
        r.template_ref == c.template_ref,
        r.intent_satisfied == c.intent_satisfied,
        r.intent_text == if c.intent_text is Some {
            c.intent_text
        } else {
            Some(*intent_text)
        },
{
    let mut c = c;
    c.source = source;
    if c.intent_text.is_none() {
        c.intent_text = Some(intent_text.clone());
    }
    c
}

} // verus!
