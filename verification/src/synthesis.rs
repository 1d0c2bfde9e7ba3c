//! Spec candidates and the text handling around their synthesis: the
//! prompt inputs, the source blob shown to later stages, and the tolerant
//! extraction of a JSON array from an LLM reply.
use vstd::prelude::*;

use crate::source::Source;
use crate::text::{occurs_at, spec_starts_with, spec_trim};

verus! {

/// A candidate property: a Halmos `check_` function plus an optional
/// SMTChecker fragment, with its provenance.
#[derive(Debug, Clone)]
pub struct SpecCandidate {
    pub name: String,
    pub halmos: String,
    pub smtchecker: String,
    pub template_ref: Option<String>,
    pub intent_satisfied: bool,
    pub source: Source,
    /// The English intent the candidate was synthesized from, when known.
    pub intent_text: Option<String>,
}

impl SpecCandidate {
    /// A copy equal to `self`.
    pub fn duplicate(&self) -> (r: SpecCandidate)
        ensures
            r == *self,
    {
        SpecCandidate {
            name: self.name.clone(),
            halmos: self.halmos.clone(),
            smtchecker: self.smtchecker.clone(),
            template_ref: crate::portfolio::copy_opt_string(&self.template_ref),
            intent_satisfied: self.intent_satisfied,
            source: self.source,
            intent_text: crate::portfolio::copy_opt_string(&self.intent_text),
        }
    }
}

#[derive(Debug, Clone)]
pub struct StaticAnalysisSummary {
    /// Free-form text the synthesis prompt embeds verbatim.
    pub text: String,
}

#[derive(Debug, Clone)]
pub struct RetrievedHint {
    pub template_id: String,
    pub description: String,
    pub halmos_snippet: String,
}

/// The source of a candidate as later stages see it: the Halmos function,
/// then the SMTChecker fragment when there is one.
pub open spec fn spec_source_blob(halmos: Seq<char>, smtchecker: Seq<char>) -> Seq<char> {
    let head = "// Halmos check_ function\n"@ + halmos;
    if smtchecker.len() == 0 {
        head
    } else {
        head + "\n\n// SMTChecker fragment\n"@ + smtchecker
    }
}

/// Source blob of a candidate.
pub fn spec_source_blob_of(spec: &SpecCandidate) -> (r: String)
    ensures
        r@ == spec_source_blob(spec.halmos@, spec.smtchecker@),
{
    let mut out = String::from_str("// Halmos check_ function\n");
    out.append(spec.halmos.as_str());
    if !spec.smtchecker.as_str().is_empty() {
        out.append("\n\n// SMTChecker fragment\n");
        out.append(spec.smtchecker.as_str());
    }
    out
}

/// Placeholder shown when the contract's external methods are unknown.
pub open spec fn spec_methods_or_placeholder(available_methods: Seq<char>) -> Seq<char> {
    if available_methods.len() == 0 {
        "(no external functions detected — read the contract source above)"@
    } else {
        available_methods
    }
}

/// One retrieved template as the synthesis prompt lists it.
pub open spec fn spec_hint_block(h: RetrievedHint) -> Seq<char> {
    "---\nid: "@ + h.template_id@ + "\ndescription: "@ + h.description@ + "\nencoding:\n"@
        + h.halmos_snippet@
}

/// The retrieved templates, one block each, separated by newlines.
pub open spec fn spec_hints_text(hints: Seq<RetrievedHint>) -> Seq<char>
    decreases hints.len(),
{
    if hints.len() == 0 {
        Seq::empty()
    } else if hints.len() == 1 {
        spec_hint_block(hints[0])
    } else {
        spec_hints_text(hints.drop_last()) + "\n"@ + spec_hint_block(hints.last())
    }
}

/// Text of the retrieved templates for the synthesis prompt.
pub fn hints_text(hints: &Vec<RetrievedHint>) -> (r: String)
    ensures
        r@ == spec_hints_text(hints@),
{
    let mut out = String::new();
    let mut i: usize = 0;
    while i < hints.len()
        invariant
            i <= hints.len(),
            out@ == spec_hints_text(hints@.take(i as int)),
        decreases hints.len() - i,
    {
        let h = &hints[i];
        if i > 0 {
            out.append("\n");
        }
        out.append("---\nid: ");
        out.append(h.template_id.as_str());
        out.append("\ndescription: ");
        out.append(h.description.as_str());
        out.append("\nencoding:\n");
        out.append(h.halmos_snippet.as_str());
        proof {
            let t = hints@.take(i + 1);
            assert(t.drop_last() =~= hints@.take(i as int));
            assert(t.last() == hints@[i as int]);
            if i == 0 {
                assert(Seq::<char>::empty() + spec_hint_block(hints@[0]) =~= spec_hint_block(
                    hints@[0],
                ));
            }
        }
        i += 1;
    }
    assert(hints@.take(hints.len() as int) =~= hints@);
    out
}

/// Named values the synthesis prompt template is filled with: `intent`,
/// `available_methods` (or its placeholder), `static_analysis_summary`,
/// `retrieved_templates`, `contract_source`.
pub fn synthesis_prompt_vars(
    intent: &str,
    available_methods: &str,
    sa: &StaticAnalysisSummary,
    retrieved: &Vec<RetrievedHint>,
    contract_source: &str,
) -> (vars: Vec<(String, String)>)
    ensures
        vars.len() == 5,
        vars@[0].0@ == "intent"@ && vars@[0].1@ == intent@,
        vars@[1].0@ == "available_methods"@ && vars@[1].1@ == spec_methods_or_placeholder(
            available_methods@,
        ),
        vars@[2].0@ == "static_analysis_summary"@ && vars@[2].1@ == sa.text@,
        vars@[3].0@ == "retrieved_templates"@ && vars@[3].1@ == spec_hints_text(retrieved@),
        vars@[4].0@ == "contract_source"@ && vars@[4].1@ == contract_source@,
{
    let methods = if available_methods.is_empty() {
        String::from_str("(no external functions detected — read the contract source above)")
    } else {
        String::from_str(available_methods)
    };
    let mut v: Vec<(String, String)> = Vec::new();
    v.push((String::from_str("intent"), String::from_str(intent)));
    v.push((String::from_str("available_methods"), methods));
    v.push((String::from_str("static_analysis_summary"), sa.text.clone()));
    v.push((String::from_str("retrieved_templates"), hints_text(retrieved)));
    v.push((String::from_str("contract_source"), String::from_str(contract_source)));
    v
}

/// `s` with its leading newline characters removed.
pub open spec fn spec_trim_leading_newlines(s: Seq<char>) -> Seq<char>
    decreases s.len(),
{
    if s.len() > 0 && s[0] == '\n' {
        spec_trim_leading_newlines(s.drop_first())
    } else {
        s
    }
}

/// Last index at or below `i` where `t` occurs in `s`.
pub open spec fn spec_last_occurrence_from(s: Seq<char>, t: Seq<char>, i: int) -> Option<int>
    decreases i + 1,
{
    if i < 0 {
        None
    } else if occurs_at(s, t, i) {
        Some(i)
    } else {
        spec_last_occurrence_from(s, t, i - 1)
    }
}

/// Last index where `t` occurs in `s` (`str::rfind`).
pub open spec fn spec_rfind(s: Seq<char>, t: Seq<char>) -> Option<int> {
    spec_last_occurrence_from(s, t, s.len() - t.len())
}

/// What follows an opening fence: leading newlines dropped, cut at the
/// last closing fence if there is one.
pub open spec fn spec_fence_body(rest: Seq<char>) -> Seq<char> {
    let r = spec_trim_leading_newlines(rest);
    match spec_rfind(r, "```"@) {
        Some(end) => r.take(end),
        None => r,
    }
}

/// A reply with a Markdown code fence around it reduced to what the fence
/// holds; a reply without one, trimmed.
pub open spec fn spec_strip_code_fence(raw: Seq<char>) -> Seq<char> {
    let s = spec_trim(raw);
    if spec_starts_with(s, "```json"@) {
        spec_fence_body(s.skip(7))
    } else if spec_starts_with(s, "```"@) {
        spec_fence_body(s.skip(3))
    } else {
        s
    }
}

/// The payload of an LLM reply: trimmed, fence removed, trimmed again.
pub open spec fn spec_reply_payload(raw: Seq<char>) -> Seq<char> {
    spec_trim(spec_strip_code_fence(spec_trim(raw)))
}

fn rfind_chars(s: &Vec<char>, t: &Vec<char>) -> (r: Option<usize>)
    ensures
        match r {
            Some(i) => spec_rfind(s@, t@) == Some(i as int) && i + t.len() <= s.len(),
            None => spec_rfind(s@, t@) is None,
        },
{
    if t.len() > s.len() {
        proof {
            let n = s@.len() - t@.len();
            assert(n < 0);
        }
        return None;
    }
    let mut i: usize = s.len() - t.len();
    loop
        invariant
            i + t.len() <= s.len(),
            spec_rfind(s@, t@) == spec_last_occurrence_from(s@, t@, i as int),
        decreases i,
    {
        let mut j: usize = 0;
        let mut ok = true;
        while j < t.len()
            invariant
                j <= t.len(),
                i + t.len() <= s.len(),
                ok == forall|k: int| 0 <= k < j ==> s@[i + k] == t@[k],
            decreases t.len() - j,
        {
            if s[i + j] != t[j] {
                ok = false;
            }
            j += 1;
        }
        proof {
            if ok {
                assert(s@.subrange(i as int, i + t.len()) =~= t@);
            } else {
                if s@.subrange(i as int, i + t.len()) == t@ {
                    assert forall|k: int| 0 <= k < t.len() implies s@[i + k] == t@[k] by {
                        assert(s@.subrange(i as int, i + t.len())[k] == s@[i + k]);
                    }
                }
            }
        }
        if ok {
            return Some(i);
        }
        if i == 0 {
            assert(spec_last_occurrence_from(s@, t@, -1) is None);
            return None;
        }
        i -= 1;
    }
}

fn skip_leading_newlines(v: &Vec<char>, i: usize) -> (r: usize)
    requires
        i <= v.len(),
    ensures
        i <= r <= v.len(),
        spec_trim_leading_newlines(v@.subrange(i as int, v.len() as int)) == v@.subrange(
            r as int,
            v.len() as int,
        ),
    decreases v.len() - i,
{
    if i < v.len() && v[i] == '\n' {
        assert(v@.subrange(i as int, v.len() as int).drop_first() =~= v@.subrange(
            i + 1,
            v.len() as int,
        ));
        skip_leading_newlines(v, i + 1)
    } else {
        proof {
            let t = v@.subrange(i as int, v.len() as int);
            if t.len() > 0 {
                assert(t[0] == v@[i as int]);
            }
        }
        i
    }
}

fn fence_body(rest: Vec<char>) -> (r: Vec<char>)
    ensures
        r@ == spec_fence_body(rest@),
{
    let a = skip_leading_newlines(&rest, 0);
    assert(rest@.subrange(0, rest.len() as int) =~= rest@);
    let mut r: Vec<char> = Vec::new();
    let mut k = a;
    while k < rest.len()
        invariant
            a <= k <= rest.len(),
            r@ == rest@.subrange(a as int, k as int),
        decreases rest.len() - k,
    {
        r.push(rest[k]);
        assert(rest@.subrange(a as int, k as int).push(rest@[k as int]) =~= rest@.subrange(
            a as int,
            k + 1,
        ));
        k += 1;
    }
    let fence = crate::text::to_chars("```");
    match rfind_chars(&r, &fence) {
        Some(end) => {
            let mut out: Vec<char> = Vec::new();
            let mut j: usize = 0;
            while j < end
                invariant
                    j <= end,
                    end <= r.len(),
                    out@ == r@.take(j as int),
                decreases end - j,
            {
                out.push(r[j]);
                assert(r@.take(j as int).push(r@[j as int]) =~= r@.take(j + 1));
                j += 1;
            }
            out
        },
        None => r,
    }
}

fn skip_n(v: &Vec<char>, n: usize) -> (r: Vec<char>)
    requires
        n <= v.len(),
    ensures
        r@ == v@.skip(n as int),
{
    let mut r: Vec<char> = Vec::new();
    let mut k = n;
    while k < v.len()
        invariant
            n <= k <= v.len(),
            r@ == v@.subrange(n as int, k as int),
        decreases v.len() - k,
    {
        r.push(v[k]);
        assert(v@.subrange(n as int, k as int).push(v@[k as int]) =~= v@.subrange(
            n as int,
            k + 1,
        ));
        k += 1;
    }
    r
}

fn starts_with_chars(s: &Vec<char>, p: &str) -> (b: bool)
    ensures
        b == spec_starts_with(s@, p@),
{
    let pv = crate::text::to_chars(p);
    if pv.len() > s.len() {
        return false;
    }
    let mut j: usize = 0;
    while j < pv.len()
        invariant
            j <= pv.len(),
            pv.len() <= s.len(),
            pv@ == p@,
            forall|k: int| 0 <= k < j ==> s@[k] == pv@[k],
        decreases pv.len() - j,
    {
        if s[j] != pv[j] {
            assert(s@.subrange(0, pv.len() as int)[j as int] != pv@[j as int]);
            return false;
        }
        j += 1;
    }
    assert(s@.subrange(0, pv.len() as int) =~= pv@);
    true
}

/// Reduces a reply wrapped in a Markdown code fence (with or without a
/// `json` tag) to what the fence holds.
pub fn strip_code_fence(raw: &str) -> (r: String)
    ensures
        r@ == spec_strip_code_fence(raw@),
{
    let v = crate::text::to_chars(raw);
    let s = crate::text::trim_chars(&v);
    if starts_with_chars(&s, "```json") {
        proof {
            reveal_strlit("```json");
        }
        let rest = skip_n(&s, 7);
        let b = fence_body(rest);
        crate::text::from_chars(b.as_slice())
    } else if starts_with_chars(&s, "```") {
        proof {
            reveal_strlit("```");
        }
        let rest = skip_n(&s, 3);
        let b = fence_body(rest);
        crate::text::from_chars(b.as_slice())
    } else {
        crate::text::from_chars(s.as_slice())
    }
}

/// The payload of an LLM reply that the JSON parser is given.
pub fn reply_payload(raw: &str) -> (r: String)
    ensures
        r@ == spec_reply_payload(raw@),
{
    let t = crate::text::trim(raw);
    let f = strip_code_fence(t.as_str());
    crate::text::trim(f.as_str())
}

/// Net nesting of square brackets in `s`: one up for each `[`, one down
/// for each `]`.
pub open spec fn bracket_depth(s: Seq<char>) -> int
    decreases s.len(),
{
    if s.len() == 0 {
        0
    } else {
        bracket_depth(s.drop_last()) + (if s.last() == '[' {
            1int
        } else if s.last() == ']' {
            -1int
        } else {
            0int
        })
    }
}

/// `st` is the index of the first `[` in `s`.
pub open spec fn first_open_bracket(s: Seq<char>, st: int) -> bool {
    0 <= st < s.len() && s[st] == '[' && forall|k: int| 0 <= k < st ==> s[k] != '['
}

/// Bracket depth of `s[st..=k]`.
pub open spec fn depth_through(s: Seq<char>, st: int, k: int) -> int {
    bracket_depth(s.subrange(st, k + 1))
}

/// `e` is where the bracket opened at `st` is first balanced.
pub open spec fn first_balance(s: Seq<char>, st: int, e: int) -> bool {
    st <= e < s.len() && depth_through(s, st, e) == 0 && forall|k: int|
        st <= k < e ==> #[trigger] depth_through(s, st, k) != 0
}

/// The first balanced `[...]` in a reply: from the first `[` to the
/// bracket that closes it. `None` when there is no `[` or it is never
/// closed.
pub fn extract_first_json_array(s: &str) -> (r: Option<String>)
    ensures
        match r {
            Some(a) => exists|st: int, e: int|
                first_open_bracket(s@, st) && first_balance(s@, st, e) && a@ == s@.subrange(
                    st,
                    e + 1,
                ),
            None => forall|st: int, e: int|
                !(first_open_bracket(s@, st) && first_balance(s@, st, e)),
        },
{
    let v = crate::text::to_chars(s);
    let mut st: usize = 0;
    while st < v.len() && v[st] != '['
        invariant
            st <= v.len(),
            forall|k: int| 0 <= k < st ==> v@[k] != '[',
        decreases v.len() - st,
    {
        st += 1;
    }
    if st == v.len() {
        assert forall|a: int, e: int| !(first_open_bracket(s@, a) && first_balance(s@, a, e)) by {
            if first_open_bracket(s@, a) {
                assert(v@[a] != '[');
            }
        }
        return None;
    }
    assert(first_open_bracket(s@, st as int));
    let mut depth: usize = 0;
    let mut i: usize = st;
    while i < v.len()
        invariant
            st <= i <= v.len(),
            v@ == s@,
            first_open_bracket(s@, st as int),
            depth as int == bracket_depth(s@.subrange(st as int, i as int)),
            i > st ==> depth > 0,
            depth <= i - st,
            forall|k: int| st <= k < i ==> #[trigger] depth_through(s@, st as int, k) != 0,
        decreases v.len() - i,
    {
        assert(s@.subrange(st as int, i + 1).drop_last() =~= s@.subrange(st as int, i as int));
        let c = v[i];
        if c == '[' {
            depth += 1;
        } else if c == ']' {
            depth -= 1;
            if depth == 0 {
                let mut out: Vec<char> = Vec::new();
                let mut k = st;
                while k <= i
                    invariant
                        st <= k <= i + 1,
                        i < v.len(),
                        out@ == v@.subrange(st as int, k as int),
                    decreases i + 1 - k,
                {
                    out.push(v[k]);
                    assert(v@.subrange(st as int, k as int).push(v@[k as int]) =~= v@.subrange(
                        st as int,
                        k + 1,
                    ));
                    k += 1;
                }
                assert(first_balance(s@, st as int, i as int));
                return Some(crate::text::from_chars(out.as_slice()));
            }
        }
        i += 1;
    }
    assert forall|a: int, e: int| !(first_open_bracket(s@, a) && first_balance(s@, a, e)) by {
        if first_open_bracket(s@, a) && first_balance(s@, a, e) {
            assert(a == st) by {
                if a < st {
                    assert(s@[a] != '[');
                } else if a > st {
                    assert(s@[st as int] != '[');
                }
            }
        }
    }
    None
}

/// One source file as the prompt shows it: a header naming it, its
/// body, and a newline unless the body already ends with one.
pub open spec fn spec_source_section(name: Seq<char>, body: Seq<char>) -> Seq<char> {
    "// ── src/"@ + name + " ──\n"@ + body + if body.len() > 0 && body.last() == '\n' {
        Seq::empty()
    } else {
        "\n"@
    }
}

pub open spec fn spec_combined_sources(files: Seq<(String, String)>) -> Seq<char>
    decreases files.len(),
{
    if files.len() == 0 {
        Seq::empty()
    } else {
        spec_combined_sources(files.drop_last()) + spec_source_section(
            files.last().0@,
            files.last().1@,
        )
    }
}

/// Every source file under `src/`, in the order given, as one text the
/// synthesis prompt sees: each file under a header with its name.
pub fn combine_sources(files: &Vec<(String, String)>) -> (r: String)
    ensures
        r@ == spec_combined_sources(files@),
{
    let mut out = String::new();
    let mut i: usize = 0;
    while i < files.len()
        invariant
            i <= files.len(),
            out@ == spec_combined_sources(files@.take(i as int)),
        decreases files.len() - i,
    {
        proof {
            let t = files@.take(i + 1);
            assert(t.drop_last() =~= files@.take(i as int));
            assert(t.last() == files@[i as int]);
        }
        let ghost before = out@;
        let (name, body) = (&files[i].0, &files[i].1);
        out.append("// ── src/");
        out.append(name.as_str());
        out.append(" ──\n");
        out.append(body.as_str());
        let ends_nl = crate::text::ends_with(body.as_str(), "\n");
        proof {
            reveal_strlit("\n");
            if body@.len() > 0 {
                let tail = body@.subrange(body@.len() - 1, body@.len() as int);
                assert(tail[0] == body@.last());
                if body@.last() == '\n' {
                    assert(tail =~= "\n"@);
                } else {
                    assert(tail != "\n"@) by {
                        assert("\n"@[0] == '\n');
                    }
                }
            }
            assert(ends_nl == (body@.len() > 0 && body@.last() == '\n'));
        }
        if !ends_nl {
            out.append("\n");
        }
        assert(out@ =~= before + spec_source_section(name@, body@));
        i += 1;
    }
    assert(files@.take(files.len() as int) =~= files@);
    out
}

/// One storage slot of a contract's layout, as the summary lists it.
#[derive(Debug, Clone)]
pub struct StorageSlot {
    pub slot: String,
    pub label: String,
    pub type_id: String,
}

/// The storage layout of one contract.
#[derive(Debug, Clone)]
pub struct StorageLayoutSummary {
    pub qualified_name: String,
    pub entries: Vec<StorageSlot>,
}

/// One Slither finding.
#[derive(Debug, Clone)]
pub struct DetectorFinding {
    pub impact: String,
    pub check: String,
    pub description: String,
}

pub open spec fn spec_slot_lines(es: Seq<StorageSlot>) -> Seq<char>
    decreases es.len(),
{
    if es.len() == 0 {
        Seq::empty()
    } else {
        spec_slot_lines(es.drop_last()) + "  slot "@ + es.last().slot@ + " = "@ + es.last().label@
            + " : "@ + es.last().type_id@ + "\n"@
    }
}

pub open spec fn spec_layout_lines(ls: Seq<StorageLayoutSummary>) -> Seq<char>
    decreases ls.len(),
{
    if ls.len() == 0 {
        Seq::empty()
    } else {
        spec_layout_lines(ls.drop_last()) + "contract "@ + ls.last().qualified_name@ + ":\n"@
            + spec_slot_lines(ls.last().entries@)
    }
}

pub open spec fn spec_detector_lines(ds: Seq<DetectorFinding>) -> Seq<char>
    decreases ds.len(),
{
    if ds.len() == 0 {
        Seq::empty()
    } else {
        spec_detector_lines(ds.drop_last()) + "  ["@ + ds.last().impact@ + "] "@ + ds.last().check@
            + ": "@ + ds.last().description@ + "\n"@
    }
}

/// The static-analysis summary: each contract's storage slots, then the
/// Slither findings when there are any.
pub open spec fn spec_analysis_text(
    layouts: Seq<StorageLayoutSummary>,
    detectors: Seq<DetectorFinding>,
) -> Seq<char> {
    spec_layout_lines(layouts) + if detectors.len() == 0 {
        Seq::empty()
    } else {
        "\nslither detectors:\n"@ + spec_detector_lines(detectors)
    }
}

fn push_slots(out: &mut String, es: &Vec<StorageSlot>)
    ensures
        final(out)@ == old(out)@ + spec_slot_lines(es@),
{
    let ghost o0 = out@;
    let mut i: usize = 0;
    while i < es.len()
        invariant
            i <= es.len(),
            out@ == o0 + spec_slot_lines(es@.take(i as int)),
        decreases es.len() - i,
    {
        proof {
            let t = es@.take(i + 1);
            assert(t.drop_last() =~= es@.take(i as int));
            assert(t.last() == es@[i as int]);
        }
        let e = &es[i];
        out.append("  slot ");
        out.append(e.slot.as_str());
        out.append(" = ");
        out.append(e.label.as_str());
        out.append(" : ");
        out.append(e.type_id.as_str());
        out.append("\n");
        assert(out@ =~= o0 + spec_slot_lines(es@.take(i + 1)));
        i += 1;
    }
    assert(es@.take(es.len() as int) =~= es@);
}

/// The summary the synthesis prompt embeds, from a finished analysis.
pub fn analysis_summary(
    layouts: &Vec<StorageLayoutSummary>,
    detectors: &Vec<DetectorFinding>,
) -> (r: StaticAnalysisSummary)
    ensures
        r.text@ == spec_analysis_text(layouts@, detectors@),
{
    let mut text = String::new();
    let mut i: usize = 0;
    while i < layouts.len()
        invariant
            i <= layouts.len(),
            text@ == spec_layout_lines(layouts@.take(i as int)),
        decreases layouts.len() - i,
    {
        proof {
            let t = layouts@.take(i + 1);
            assert(t.drop_last() =~= layouts@.take(i as int));
            assert(t.last() == layouts@[i as int]);
        }
        let ghost before = text@;
        text.append("contract ");
        text.append(layouts[i].qualified_name.as_str());
        text.append(":\n");
        push_slots(&mut text, &layouts[i].entries);
        assert(text@ =~= before + "contract "@ + layouts@[i as int].qualified_name@ + ":\n"@
            + spec_slot_lines(layouts@[i as int].entries@));
        i += 1;
    }
    assert(layouts@.take(layouts.len() as int) =~= layouts@);
    if detectors.len() > 0 {
        let ghost o1 = text@;
        text.append("\nslither detectors:\n");
        let ghost o2 = text@;
        let mut j: usize = 0;
        while j < detectors.len()
            invariant
                j <= detectors.len(),
                text@ == o2 + spec_detector_lines(detectors@.take(j as int)),
            decreases detectors.len() - j,
        {
            proof {
                let t = detectors@.take(j + 1);
                assert(t.drop_last() =~= detectors@.take(j as int));
                assert(t.last() == detectors@[j as int]);
            }
            let d = &detectors[j];
            text.append("  [");
            text.append(d.impact.as_str());
            text.append("] ");
            text.append(d.check.as_str());
            text.append(": ");
            text.append(d.description.as_str());
            text.append("\n");
            assert(text@ =~= o2 + spec_detector_lines(detectors@.take(j + 1)));
            j += 1;
        }
        assert(detectors@.take(detectors.len() as int) =~= detectors@);
    } else {
        assert(text@ =~= text@ + Seq::<char>::empty());
    }
    StaticAnalysisSummary { text }
}

/// The summary used when the analysis could not run.
pub fn analysis_unavailable(reason: &str) -> (r: StaticAnalysisSummary)
    ensures
        r.text@ == "(static analysis unavailable: "@ + reason@ + ")"@,
{
    let mut text = String::from_str("(static analysis unavailable: ");
    text.append(reason);
    text.append(")");
    StaticAnalysisSummary { text }
}

} // verus!
