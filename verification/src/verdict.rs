//! Formatting a run's outcome: one of three headlines, and a Markdown
//! report whose "Not checked" part is never left out.
use vstd::prelude::*;

use crate::source::{Source, Tier};
use crate::text::{decimal, push_bool, push_decimal, spec_bool_text, spec_join, views};

verus! {

/// The project fingerprint the report header echoes.
#[derive(Debug, Clone)]
pub struct FingerprintSummary {
    pub interfaces: Vec<String>,
    pub primitives: Vec<String>,
    pub available_oracles: AvailableOraclesSummary,
}

#[derive(Debug, Clone, Copy)]
pub struct AvailableOraclesSummary {
    pub tests: bool,
    pub natspec: bool,
    pub readme: bool,
}

/// One property with its verdict and provenance.
#[derive(Debug, Clone)]
pub struct PropertyOutcome {
    pub name: String,
    pub source: Source,
    pub tier: Tier,
    pub verdict: PropertyVerdict,
    pub template_ref: Option<String>,
    pub intent_text: Option<String>,
}

/// Verdict on one property.
#[derive(Debug, Clone)]
pub enum PropertyVerdict {
    Verified { backend: String, smt_query_sha256: Option<String> },
    Refuted { backend: String, cex_file: String, trace_summary: String },
    /// `frontier_over_approximation` is set when the template is
    /// frontier-decidable: the Unknown is structural, not a timeout.
    Unknown { detail: String, frontier_over_approximation: Option<String> },
    Error { detail: String },
}

#[derive(Debug, Clone)]
pub struct SkippedTemplateSummary {
    pub id: String,
    pub reason: String,
}

#[derive(Debug, Clone)]
pub struct PerTemplateFailureSummary {
    pub template_id: String,
    pub reason: String,
}

#[derive(Debug, Clone)]
pub struct DocumentOnlyTemplate {
    pub id: String,
    pub name: String,
}

/// A structural finding below the confidence threshold: reported, not
/// verified.
#[derive(Debug, Clone)]
pub struct LowConfidenceStructuralSummary {
    pub miner: String,
    pub description: String,
    /// The confidence as it is printed, e.g. `"0.55"`.
    pub confidence: String,
    pub fn_or_var: Option<String>,
}

/// Everything the verdict is formatted from.
#[derive(Debug, Clone)]
pub struct StratifiedInputs {
    pub project_path: String,
    pub fingerprint: FingerprintSummary,
    pub properties: Vec<PropertyOutcome>,
    pub skipped_templates: Vec<SkippedTemplateSummary>,
    pub per_template_failures: Vec<PerTemplateFailureSummary>,
    pub document_only_templates: Vec<DocumentOnlyTemplate>,
    /// The structural oracle did not run or produced nothing.
    pub phase5_structural_pending: bool,
    pub low_confidence_structural: Vec<LowConfidenceStructuralSummary>,
}

/// The three-state headline.
#[derive(Debug, Clone, Copy, PartialEq, Eq, Structural)]
pub enum Headline {
    Refuted,
    VerifiedInScope,
    Incomplete,
}

pub open spec fn spec_headline_text(h: Headline) -> Seq<char> {
    match h {
        Headline::Refuted => "Refuted"@,
        Headline::VerifiedInScope => "Verified-in-scope"@,
        Headline::Incomplete => "Incomplete"@,
    }
}

pub open spec fn spec_headline_machine(h: Headline) -> Seq<char> {
    match h {
        Headline::Refuted => "refuted"@,
        Headline::VerifiedInScope => "verified-in-scope"@,
        Headline::Incomplete => "incomplete"@,
    }
}

impl Headline {
    /// The headline as the report prints it.
    pub fn as_str(&self) -> (r: &'static str)
        ensures
            r@ == spec_headline_text(*self),
    {
        match self {
            Headline::Refuted => "Refuted",
            Headline::VerifiedInScope => "Verified-in-scope",
            Headline::Incomplete => "Incomplete",
        }
    }

    /// The headline as `proof.json` names it for machines.
    pub fn machine_label(&self) -> (r: &'static str)
        ensures
            r@ == spec_headline_machine(*self),
    {
        match self {
            Headline::Refuted => "refuted",
            Headline::VerifiedInScope => "verified-in-scope",
            Headline::Incomplete => "incomplete",
        }
    }
}

/// The formatted verdict.
#[derive(Debug, Clone)]
pub struct VerdictOutput {
    pub headline: Headline,
    pub inputs: StratifiedInputs,
}

pub open spec fn is_refuted(p: PropertyOutcome) -> bool {
    p.verdict is Refuted
}

pub open spec fn is_verified(p: PropertyOutcome) -> bool {
    p.verdict is Verified
}

pub open spec fn is_unknown_or_error(p: PropertyOutcome) -> bool {
    p.verdict is Unknown || p.verdict is Error
}

pub open spec fn any_of(ps: Seq<PropertyOutcome>, f: spec_fn(PropertyOutcome) -> bool) -> bool {
    exists|i: int| 0 <= i < ps.len() && f(#[trigger] ps[i])
}

/// Refuted when any property is refuted; otherwise Incomplete when any is
/// unknown or errored; otherwise Verified-in-scope when any verified;
/// Incomplete when nothing ran.
pub open spec fn spec_headline(ps: Seq<PropertyOutcome>) -> Headline {
    if any_of(ps, |p: PropertyOutcome| is_refuted(p)) {
        Headline::Refuted
    } else if any_of(ps, |p: PropertyOutcome| is_unknown_or_error(p)) {
        Headline::Incomplete
    } else if any_of(ps, |p: PropertyOutcome| is_verified(p)) {
        Headline::VerifiedInScope
    } else {
        Headline::Incomplete
    }
}

/// Computes the headline and keeps the inputs.
pub fn format_verdict(inputs: StratifiedInputs) -> (r: VerdictOutput)
    ensures
        r.headline == spec_headline(inputs.properties@),
        r.inputs == inputs,
{
    let mut refuted = false;
    let mut unknown = false;
    let mut verified = false;
    let mut i: usize = 0;
    while i < inputs.properties.len()
        invariant
            i <= inputs.properties.len(),
            refuted == any_of(inputs.properties@.take(i as int), |p: PropertyOutcome| is_refuted(p)),
            unknown == any_of(
                inputs.properties@.take(i as int),
                |p: PropertyOutcome| is_unknown_or_error(p),
            ),
            verified == any_of(inputs.properties@.take(i as int), |p: PropertyOutcome| is_verified(p)),
        decreases inputs.properties.len() - i,
    {
        let ghost t0 = inputs.properties@.take(i as int);
        let ghost t1 = inputs.properties@.take(i + 1);
        match &inputs.properties[i].verdict {
            PropertyVerdict::Refuted { .. } => {
                refuted = true;
            },
            PropertyVerdict::Verified { .. } => {
                verified = true;
            },
            _ => {
                unknown = true;
            },
        }
        proof {
            assert(t1[i as int] == inputs.properties@[i as int]);
            assert forall|f: spec_fn(PropertyOutcome) -> bool| #[trigger] any_of(t1, f) == (any_of(
                t0,
                f,
            ) || f(t1[i as int])) by {
                if any_of(t1, f) {
                    let j = choose|j: int| 0 <= j < t1.len() && f(#[trigger] t1[j]);
                    if j < i {
                        assert(t0[j] == t1[j]);
                    }
                }
                if any_of(t0, f) {
                    let j = choose|j: int| 0 <= j < t0.len() && f(#[trigger] t0[j]);
                    assert(t1[j] == t0[j]);
                }
            }
        }
        i += 1;
    }
    assert(inputs.properties@.take(inputs.properties.len() as int) =~= inputs.properties@);
    let headline = if refuted {
        Headline::Refuted
    } else if unknown {
        Headline::Incomplete
    } else if verified {
        Headline::VerifiedInScope
    } else {
        Headline::Incomplete
    };
    VerdictOutput { headline, inputs }
}

/// The headline is Refuted exactly when some property was refuted; with
/// none refuted, a property left unknown or in error makes it Incomplete.
pub proof fn law_headline_refuted_only_on_refutation(ps: Seq<PropertyOutcome>)
    ensures
        spec_headline(ps) == Headline::Refuted <==> exists|i: int|
            0 <= i < ps.len() && (#[trigger] ps[i]).verdict is Refuted,
        (forall|i: int| 0 <= i < ps.len() ==> !((#[trigger] ps[i]).verdict is Refuted)) && (exists|
            i: int,
        | 0 <= i < ps.len() && ((#[trigger] ps[i]).verdict is Unknown || ps[i].verdict is Error))
            ==> spec_headline(ps) == Headline::Incomplete,
{
    let f = |p: PropertyOutcome| is_refuted(p);
    let g = |p: PropertyOutcome| is_unknown_or_error(p);
    if exists|i: int| 0 <= i < ps.len() && (#[trigger] ps[i]).verdict is Refuted {
        let i = choose|i: int| 0 <= i < ps.len() && (#[trigger] ps[i]).verdict is Refuted;
        assert(f(ps[i]));
    }
    if any_of(ps, f) {
        let i = choose|i: int| 0 <= i < ps.len() && f(#[trigger] ps[i]);
        assert(ps[i].verdict is Refuted);
    }
    if exists|i: int| 0 <= i < ps.len() && ((#[trigger] ps[i]).verdict is Unknown || ps[i].verdict is Error) {
        let i = choose|i: int| 0 <= i < ps.len() && ((#[trigger] ps[i]).verdict is Unknown || ps[i].verdict is Error);
        assert(g(ps[i]));
    }
}

/// A refutation always wins the headline, and Verified-in-scope is only
/// given when something verified and nothing was refuted, unknown or in
/// error.
pub proof fn law_headline(ps: Seq<PropertyOutcome>)
    ensures
        any_of(ps, |p: PropertyOutcome| is_refuted(p)) ==> spec_headline(ps) == Headline::Refuted,
        spec_headline(ps) == Headline::VerifiedInScope <==> {
            &&& any_of(ps, |p: PropertyOutcome| is_verified(p))
            &&& forall|i: int| 0 <= i < ps.len() ==> #[trigger] is_verified(ps[i])
        },
        ps.len() == 0 ==> spec_headline(ps) == Headline::Incomplete,
{
    if spec_headline(ps) == Headline::VerifiedInScope {
        assert forall|i: int| 0 <= i < ps.len() implies #[trigger] is_verified(ps[i]) by {
            let f = |p: PropertyOutcome| is_refuted(p);
            let g = |p: PropertyOutcome| is_unknown_or_error(p);
            if !is_verified(ps[i]) {
                if is_refuted(ps[i]) {
                    assert(f(ps[i]));
                } else {
                    assert(g(ps[i]));
                }
            }
        }
    }
    if any_of(ps, |p: PropertyOutcome| is_verified(p)) && forall|i: int|
        0 <= i < ps.len() ==> #[trigger] is_verified(ps[i]) {
        let f = |p: PropertyOutcome| is_refuted(p);
        let g = |p: PropertyOutcome| is_unknown_or_error(p);
        if any_of(ps, f) {
            let j = choose|j: int| 0 <= j < ps.len() && f(#[trigger] ps[j]);
            assert(is_verified(ps[j]));
        }
        if any_of(ps, g) {
            let j = choose|j: int| 0 <= j < ps.len() && g(#[trigger] ps[j]);
            assert(is_verified(ps[j]));
        }
    }
}

// ---- labels and small pieces ----

pub open spec fn spec_source_label(s: Source) -> Seq<char> {
    match s {
        Source::UserIntent => "user-intent"@,
        Source::AttackCatalog => "attack-catalog"@,
        Source::Conformance => "conformance"@,
        Source::Tests => "tests"@,
        Source::NatSpec => "natspec"@,
        Source::StructuralAnalysis => "structural"@,
    }
}

/// Label of a source in the report.
pub fn source_label(s: Source) -> (r: &'static str)
    ensures
        r@ == spec_source_label(s),
{
    match s {
        Source::UserIntent => "user-intent",
        Source::AttackCatalog => "attack-catalog",
        Source::Conformance => "conformance",
        Source::Tests => "tests",
        Source::NatSpec => "natspec",
        Source::StructuralAnalysis => "structural",
    }
}

pub open spec fn spec_tier_label(t: Tier) -> Seq<char> {
    match t {
        Tier::ZeroConfig => "zero-config"@,
        Tier::Intent => "intent"@,
    }
}

/// Label of a tier in the report.
pub fn tier_label(t: Tier) -> (r: &'static str)
    ensures
        r@ == spec_tier_label(t),
{
    match t {
        Tier::ZeroConfig => "zero-config",
        Tier::Intent => "intent",
    }
}

/// The items joined with `", "`, or `"(none)"` when there are none.
pub open spec fn spec_join_or_none(items: Seq<String>) -> Seq<char> {
    if items.len() == 0 {
        "(none)"@
    } else {
        spec_join(views(items), ", "@)
    }
}

pub fn join_or_none(items: &Vec<String>) -> (r: String)
    ensures
        r@ == spec_join_or_none(items@),
{
    if items.len() == 0 {
        String::from_str("(none)")
    } else {
        crate::text::join_strings(items, ", ")
    }
}

/// Bytes `c` takes in UTF-8.
pub open spec fn utf8_width(c: char) -> nat {
    if (c as u32) < 0x80 {
        1
    } else if (c as u32) < 0x800 {
        2
    } else if (c as u32) < 0x10000 {
        3
    } else {
        4
    }
}

/// The longest prefix of `s` that fits in `n` bytes of UTF-8.
pub open spec fn spec_byte_prefix(s: Seq<char>, n: nat) -> Seq<char>
    decreases s.len(),
{
    if s.len() == 0 || utf8_width(s[0]) > n {
        Seq::empty()
    } else {
        seq![s[0]] + spec_byte_prefix(s.drop_first(), (n - utf8_width(s[0])) as nat)
    }
}

/// Cutting `s` at byte `n` (or at its end, if shorter) falls on a
/// character boundary.
pub open spec fn cut_on_boundary(s: Seq<char>, n: nat) -> bool
    decreases s.len(),
{
    if s.len() == 0 {
        true
    } else if utf8_width(s[0]) > n {
        n == 0
    } else {
        cut_on_boundary(s.drop_first(), (n - utf8_width(s[0])) as nat)
    }
}

fn width(c: char) -> (w: usize)
    ensures
        w == utf8_width(c),
{
    let u = c as u32;
    if u < 0x80 {
        1
    } else if u < 0x800 {
        2
    } else if u < 0x10000 {
        3
    } else {
        4
    }
}

/// Appends the first 12 bytes of `sha` (all of it when shorter).
fn push_sha_prefix(out: &mut String, sha: &str)
    requires
        cut_on_boundary(sha@, 12),
    ensures
        final(out)@ == old(out)@ + spec_byte_prefix(sha@, 12),
{
    let v = crate::text::to_chars(sha);
    let mut rem: usize = 12;
    let mut i: usize = 0;
    assert(v@.skip(0) =~= v@);
    assert(v@.take(0) + spec_byte_prefix(v@, 12) =~= spec_byte_prefix(v@, 12));
    while i < v.len() && width(v[i]) <= rem
        invariant
            i <= v.len(),
            rem <= 12,
            v@ == sha@,
            out@ == old(out)@ + v@.take(i as int),
            spec_byte_prefix(v@, 12) == v@.take(i as int) + spec_byte_prefix(v@.skip(i as int), rem as nat),
        decreases v.len() - i,
    {
        proof {
            let t = v@.skip(i as int);
            assert(t.drop_first() =~= v@.skip(i + 1));
            assert(t[0] == v@[i as int]);
            assert(v@.take(i as int) + (seq![v@[i as int]] + spec_byte_prefix(v@.skip(i + 1), (rem - utf8_width(v@[i as int])) as nat))
                =~= v@.take(i + 1) + spec_byte_prefix(v@.skip(i + 1), (rem - utf8_width(v@[i as int])) as nat));
        }
        crate::text::push_char(out, v[i]);
        assert(old(out)@ + v@.take(i as int) + seq![v@[i as int]] =~= old(out)@ + v@.take(i + 1));
        rem = rem - width(v[i]);
        i += 1;
    }
    proof {
        let t = v@.skip(i as int);
        assert(spec_byte_prefix(t, rem as nat) =~= Seq::<char>::empty());
        assert(old(out)@ + v@.take(i as int) + Seq::<char>::empty() =~= old(out)@ + v@.take(i as int));
    }
}

/// `- `name` — tier: T, source: S, backend: B[, template: `t`]`
pub open spec fn spec_property_head(p: PropertyOutcome, backend: Seq<char>) -> Seq<char> {
    "- `"@ + p.name@ + "` — tier: "@ + spec_tier_label(p.tier) + ", source: "@ + spec_source_label(
        p.source,
    ) + ", backend: "@ + backend + match p.template_ref {
        Some(t) => ", template: `"@ + t@ + "`"@,
        None => Seq::empty(),
    }
}

/// The quoted intent line, when the property has an intent.
pub open spec fn spec_intent_line(p: PropertyOutcome) -> Seq<char> {
    match p.intent_text {
        Some(i) => "    > "@ + i@ + "\n"@,
        None => Seq::empty(),
    }
}

/// A digest is printed as its first 12 bytes.
pub open spec fn sha_printable(p: PropertyOutcome) -> bool {
    p.verdict matches PropertyVerdict::Verified { smt_query_sha256: Some(sha), .. } ==> cut_on_boundary(sha@, 12)
}

/// The Proven entry of a verified property.
pub open spec fn spec_proven_entry(p: PropertyOutcome) -> Seq<char> {
    match p.verdict {
        PropertyVerdict::Verified { backend, smt_query_sha256 } => spec_property_head(p, backend@)
            + match smt_query_sha256 {
            Some(sha) => ", smt: `"@ + spec_byte_prefix(sha@, 12) + "…`"@,
            None => Seq::empty(),
        } + "\n"@ + spec_intent_line(p),
        _ => Seq::empty(),
    }
}

/// The Refuted entry of a refuted property.
pub open spec fn spec_refuted_entry(p: PropertyOutcome) -> Seq<char> {
    match p.verdict {
        PropertyVerdict::Refuted { backend, cex_file, trace_summary } => spec_property_head(
            p,
            backend@,
        ) + "\n"@ + spec_intent_line(p) + "    - Counterexample: `"@ + cex_file@
            + "` (runnable `forge test --match-path` target)\n"@ + if trace_summary@.len() == 0 {
            Seq::empty()
        } else {
            "    - Trace: "@ + trace_summary@ + "\n"@
        },
        _ => Seq::empty(),
    }
}

fn push_property_head(out: &mut String, p: &PropertyOutcome, backend: &String)
    ensures
        final(out)@ == old(out)@ + spec_property_head(*p, backend@),
{
    out.append("- `");
    out.append(p.name.as_str());
    out.append("` — tier: ");
    out.append(tier_label(p.tier));
    out.append(", source: ");
    out.append(source_label(p.source));
    out.append(", backend: ");
    out.append(backend.as_str());
    match &p.template_ref {
        Some(t) => {
            out.append(", template: `");
            out.append(t.as_str());
            out.append("`");
        },
        None => {},
    }
    proof {
        let h = spec_property_head(*p, backend@);
        assert(final(out)@ =~= old(out)@ + h);
    }
}

fn push_intent_line(out: &mut String, p: &PropertyOutcome)
    ensures
        final(out)@ == old(out)@ + spec_intent_line(*p),
{
    match &p.intent_text {
        Some(i) => {
            out.append("    > ");
            out.append(i.as_str());
            out.append("\n");
            assert(final(out)@ =~= old(out)@ + spec_intent_line(*p));
        },
        None => {
            assert(old(out)@ + Seq::<char>::empty() =~= old(out)@);
        },
    }
}

fn push_proven_entry(out: &mut String, p: &PropertyOutcome)
    requires
        sha_printable(*p),
    ensures
        final(out)@ == old(out)@ + spec_proven_entry(*p),
{
    match &p.verdict {
        PropertyVerdict::Verified { backend, smt_query_sha256 } => {
            let ghost o0 = out@;
            push_property_head(out, p, backend);
            let ghost o1 = out@;
            match smt_query_sha256 {
                Some(sha) => {
                    out.append(", smt: `");
                    push_sha_prefix(out, sha.as_str());
                    out.append("…`");
                },
                None => {},
            }
            out.append("\n");
            let ghost o2 = out@;
            push_intent_line(out, p);
            proof {
                assert(out@ =~= o0 + spec_proven_entry(*p));
            }
        },
        _ => {
            assert(old(out)@ + Seq::<char>::empty() =~= old(out)@);
        },
    }
}

fn push_refuted_entry(out: &mut String, p: &PropertyOutcome)
    ensures
        final(out)@ == old(out)@ + spec_refuted_entry(*p),
{
    match &p.verdict {
        PropertyVerdict::Refuted { backend, cex_file, trace_summary } => {
            let ghost o0 = out@;
            push_property_head(out, p, backend);
            out.append("\n");
            push_intent_line(out, p);
            out.append("    - Counterexample: `");
            out.append(cex_file.as_str());
            out.append("` (runnable `forge test --match-path` target)\n");
            if !trace_summary.as_str().is_empty() {
                out.append("    - Trace: ");
                out.append(trace_summary.as_str());
                out.append("\n");
            }
            proof {
                assert(out@ =~= o0 + spec_refuted_entry(*p));
            }
        },
        _ => {
            assert(old(out)@ + Seq::<char>::empty() =~= old(out)@);
        },
    }
}

/// The report lists that are drawn from the properties.
#[derive(Debug, Clone, Copy, PartialEq, Eq, Structural)]
pub enum PropertyList {
    Proven,
    Refuted,
    /// Unknowns of frontier templates, with their over-approximation.
    Frontier,
    /// Unknowns without one, and errors.
    PerRun,
}

pub open spec fn in_list(l: PropertyList, p: PropertyOutcome) -> bool {
    match l {
        PropertyList::Proven => p.verdict is Verified,
        PropertyList::Refuted => p.verdict is Refuted,
        PropertyList::Frontier => p.verdict matches PropertyVerdict::Unknown {
            frontier_over_approximation: Some(_),
            ..
        },
        PropertyList::PerRun => (p.verdict matches PropertyVerdict::Unknown {
            frontier_over_approximation: None,
            ..
        }) || p.verdict is Error,
    }
}

/// The entry of `p` in list `l` (empty when `p` is not in it).
pub open spec fn spec_entry(l: PropertyList, p: PropertyOutcome) -> Seq<char> {
    match l {
        PropertyList::Proven => spec_proven_entry(p),
        PropertyList::Refuted => spec_refuted_entry(p),
        PropertyList::Frontier => match p.verdict {
            PropertyVerdict::Unknown { frontier_over_approximation: Some(approx), .. } => "    - `"@
                + p.name@ + "` (template: `"@ + match p.template_ref {
                Some(t) => t@,
                None => "(none)"@,
            } + "`)\n      Over-approximation: "@ + approx@ + "\n"@,
            _ => Seq::empty(),
        },
        PropertyList::PerRun => match p.verdict {
            PropertyVerdict::Unknown { detail, frontier_over_approximation: None } => "    - `"@
                + p.name@ + "` — "@ + detail@ + "\n"@,
            PropertyVerdict::Error { detail } => "    - `"@ + p.name@ + "` — "@ + detail@ + "\n"@,
            _ => Seq::empty(),
        },
    }
}

/// The entries of list `l`, in property order.
pub open spec fn spec_entries(l: PropertyList, ps: Seq<PropertyOutcome>) -> Seq<char>
    decreases ps.len(),
{
    if ps.len() == 0 {
        Seq::empty()
    } else {
        spec_entries(l, ps.drop_last()) + spec_entry(l, ps.last())
    }
}

/// How many properties are in list `l`.
pub open spec fn spec_count(l: PropertyList, ps: Seq<PropertyOutcome>) -> nat
    decreases ps.len(),
{
    if ps.len() == 0 {
        0
    } else {
        spec_count(l, ps.drop_last()) + if in_list(l, ps.last()) {
            1nat
        } else {
            0nat
        }
    }
}

fn push_entry(out: &mut String, l: PropertyList, p: &PropertyOutcome)
    requires
        l == PropertyList::Proven ==> sha_printable(*p),
    ensures
        final(out)@ == old(out)@ + spec_entry(l, *p),
{
    match l {
        PropertyList::Proven => push_proven_entry(out, p),
        PropertyList::Refuted => push_refuted_entry(out, p),
        PropertyList::Frontier => match &p.verdict {
            PropertyVerdict::Unknown { frontier_over_approximation: Some(approx), .. } => {
                let ghost o0 = out@;
                out.append("    - `");
                out.append(p.name.as_str());
                out.append("` (template: `");
                match &p.template_ref {
                    Some(t) => out.append(t.as_str()),
                    None => out.append("(none)"),
                }
                out.append("`)\n      Over-approximation: ");
                out.append(approx.as_str());
                out.append("\n");
                assert(out@ =~= o0 + spec_entry(l, *p));
            },
            _ => {
                assert(old(out)@ + Seq::<char>::empty() =~= old(out)@);
            },
        },
        PropertyList::PerRun => {
            let d = match &p.verdict {
                PropertyVerdict::Unknown { detail, frontier_over_approximation: None } => Some(
                    detail,
                ),
                PropertyVerdict::Error { detail } => Some(detail),
                _ => None,
            };
            match d {
                Some(detail) => {
                    let ghost o0 = out@;
                    out.append("    - `");
                    out.append(p.name.as_str());
                    out.append("` — ");
                    out.append(detail.as_str());
                    out.append("\n");
                    assert(out@ =~= o0 + spec_entry(l, *p));
                },
                None => {
                    assert(old(out)@ + Seq::<char>::empty() =~= old(out)@);
                },
            }
        },
    }
}

/// Whether `p` belongs in list `l`.
fn in_list_exec(l: PropertyList, p: &PropertyOutcome) -> (b: bool)
    ensures
        b == in_list(l, *p),
{
    match l {
        PropertyList::Proven => match &p.verdict {
            PropertyVerdict::Verified { .. } => true,
            _ => false,
        },
        PropertyList::Refuted => match &p.verdict {
            PropertyVerdict::Refuted { .. } => true,
            _ => false,
        },
        PropertyList::Frontier => match &p.verdict {
            PropertyVerdict::Unknown { frontier_over_approximation: Some(_), .. } => true,
            _ => false,
        },
        PropertyList::PerRun => match &p.verdict {
            PropertyVerdict::Unknown { frontier_over_approximation: None, .. } => true,
            PropertyVerdict::Error { .. } => true,
            _ => false,
        },
    }
}

/// Appends the entries of list `l` and returns how many there are.
fn push_entries(out: &mut String, l: PropertyList, ps: &Vec<PropertyOutcome>) -> (n: usize)
    requires
        l == PropertyList::Proven ==> forall|i: int| 0 <= i < ps.len() ==> sha_printable(#[trigger] ps@[i]),
    ensures
        final(out)@ == old(out)@ + spec_entries(l, ps@),
        n == spec_count(l, ps@),
{
    let mut n: usize = 0;
    let mut i: usize = 0;
    while i < ps.len()
        invariant
            i <= ps.len(),
            n <= i,
            l == PropertyList::Proven ==> forall|k: int| 0 <= k < ps.len() ==> sha_printable(#[trigger] ps@[k]),
            out@ == old(out)@ + spec_entries(l, ps@.take(i as int)),
            n == spec_count(l, ps@.take(i as int)),
        decreases ps.len() - i,
    {
        proof {
            let t = ps@.take(i + 1);
            assert(t.drop_last() =~= ps@.take(i as int));
            assert(t.last() == ps@[i as int]);
        }
        let ghost o = out@;
        push_entry(out, l, &ps[i]);
        assert(old(out)@ + spec_entries(l, ps@.take(i + 1)) =~= o + spec_entry(l, ps@[i as int]));
        let counted = in_list_exec(l, &ps[i]);
        if counted {
            n += 1;
        }
        i += 1;
    }
    assert(ps@.take(ps.len() as int) =~= ps@);
    n
}

/// Entries of two-field lists (`id` and reason, or id and name).
pub open spec fn spec_pair_entries(pairs: Seq<(Seq<char>, Seq<char>)>) -> Seq<char>
    decreases pairs.len(),
{
    if pairs.len() == 0 {
        Seq::empty()
    } else {
        spec_pair_entries(pairs.drop_last()) + "    - `"@ + pairs.last().0 + "` — "@ + pairs.last().1
            + "\n"@
    }
}

pub open spec fn skipped_pairs(xs: Seq<SkippedTemplateSummary>) -> Seq<(Seq<char>, Seq<char>)> {
    xs.map_values(|x: SkippedTemplateSummary| (x.id@, x.reason@))
}

pub open spec fn failure_pairs(xs: Seq<PerTemplateFailureSummary>) -> Seq<(Seq<char>, Seq<char>)> {
    xs.map_values(|x: PerTemplateFailureSummary| (x.template_id@, x.reason@))
}

pub open spec fn document_pairs(xs: Seq<DocumentOnlyTemplate>) -> Seq<(Seq<char>, Seq<char>)> {
    xs.map_values(|x: DocumentOnlyTemplate| (x.id@, x.name@))
}

fn push_skipped_entries(out: &mut String, xs: &Vec<SkippedTemplateSummary>)
    ensures
        final(out)@ == old(out)@ + spec_pair_entries(skipped_pairs(xs@)),
{
    let mut i: usize = 0;
    while i < xs.len()
        invariant
            i <= xs.len(),
            out@ == old(out)@ + spec_pair_entries(skipped_pairs(xs@.take(i as int))),
        decreases xs.len() - i,
    {
        proof {
            let t = skipped_pairs(xs@.take(i + 1));
            assert(t.drop_last() =~= skipped_pairs(xs@.take(i as int)));
        }
        out.append("    - `");
        out.append(xs[i].id.as_str());
        out.append("` — ");
        out.append(xs[i].reason.as_str());
        out.append("\n");
        assert(out@ =~= old(out)@ + spec_pair_entries(skipped_pairs(xs@.take(i + 1))));
        i += 1;
    }
    assert(xs@.take(xs.len() as int) =~= xs@);
}

fn push_failure_entries(out: &mut String, xs: &Vec<PerTemplateFailureSummary>)
    ensures
        final(out)@ == old(out)@ + spec_pair_entries(failure_pairs(xs@)),
{
    let mut i: usize = 0;
    while i < xs.len()
        invariant
            i <= xs.len(),
            out@ == old(out)@ + spec_pair_entries(failure_pairs(xs@.take(i as int))),
        decreases xs.len() - i,
    {
        proof {
            let t = failure_pairs(xs@.take(i + 1));
            assert(t.drop_last() =~= failure_pairs(xs@.take(i as int)));
        }
        out.append("    - `");
        out.append(xs[i].template_id.as_str());
        out.append("` — ");
        out.append(xs[i].reason.as_str());
        out.append("\n");
        assert(out@ =~= old(out)@ + spec_pair_entries(failure_pairs(xs@.take(i + 1))));
        i += 1;
    }
    assert(xs@.take(xs.len() as int) =~= xs@);
}

fn push_document_entries(out: &mut String, xs: &Vec<DocumentOnlyTemplate>)
    ensures
        final(out)@ == old(out)@ + spec_pair_entries(document_pairs(xs@)),
{
    let mut i: usize = 0;
    while i < xs.len()
        invariant
            i <= xs.len(),
            out@ == old(out)@ + spec_pair_entries(document_pairs(xs@.take(i as int))),
        decreases xs.len() - i,
    {
        proof {
            let t = document_pairs(xs@.take(i + 1));
            assert(t.drop_last() =~= document_pairs(xs@.take(i as int)));
        }
        out.append("    - `");
        out.append(xs[i].id.as_str());
        out.append("` — ");
        out.append(xs[i].name.as_str());
        out.append("\n");
        assert(out@ =~= old(out)@ + spec_pair_entries(document_pairs(xs@.take(i + 1))));
        i += 1;
    }
    assert(xs@.take(xs.len() as int) =~= xs@);
}

pub open spec fn structural_pending_note() -> Seq<char> {
    "- **Structural mining (Phase 5)** — not yet implemented. The V1.5 stack will mine conservation / monotonicity / access-policy / invariant-constant / two-step-pattern candidates from solc + Slither once Phase 5 lands.\n"@
}

pub open spec fn nothing_unchecked_note() -> Seq<char> {
    "_All selected oracles produced verdicts; no skipped templates, frontier Unknowns, or deferred sources to report._\n"@
}

pub open spec fn in_scope_disclaimer() -> Seq<char> {
    "\n_The \"Verified-in-scope\" headline above means every property this run CHECKED was proven by the solver. It does NOT mean the contract is safe. Properties listed above as skipped / Phase-5-pending / document-only were not checked at all._\n"@
}

pub open spec fn frontier_header(n: nat) -> Seq<char> {
    "- **"@ + decimal(n)
        + " frontier-template Unknowns** — the property is fundamentally hard for the underlying SMT theory; the run only verified the declared over-approximation. SPEC §4.3.\n"@
}

pub open spec fn per_run_header(n: nat) -> Seq<char> {
    "- **"@ + decimal(n)
        + " per-run Unknowns or errors** — solver budget exhausted or dispatch failure, not a frontier-template structural issue (SPEC §4.3 distinction):\n"@
}

pub open spec fn nc_structural(v: StratifiedInputs) -> Seq<char> {
    if v.phase5_structural_pending {
        structural_pending_note()
    } else {
        Seq::empty()
    }
}

pub open spec fn nc_skipped(v: StratifiedInputs) -> Seq<char> {
    if v.skipped_templates.len() > 0 {
        "- **"@ + decimal(v.skipped_templates.len() as nat)
            + " attack-catalog templates skipped** — applicability preconditions did not match:\n"@
            + spec_pair_entries(skipped_pairs(v.skipped_templates@))
    } else {
        Seq::empty()
    }
}

pub open spec fn nc_frontier(v: StratifiedInputs) -> Seq<char> {
    let nf = spec_count(PropertyList::Frontier, v.properties@);
    if nf > 0 {
        frontier_header(nf) + spec_entries(PropertyList::Frontier, v.properties@)
    } else {
        Seq::empty()
    }
}

pub open spec fn nc_per_run(v: StratifiedInputs) -> Seq<char> {
    let np = spec_count(PropertyList::PerRun, v.properties@);
    if np > 0 {
        per_run_header(np) + spec_entries(PropertyList::PerRun, v.properties@)
    } else {
        Seq::empty()
    }
}

pub open spec fn nc_documents(v: StratifiedInputs) -> Seq<char> {
    if v.document_only_templates.len() > 0 {
        "- **"@ + decimal(v.document_only_templates.len() as nat)
            + " document-only templates** — no SMT encoding ships; these are named in the catalog for awareness only.\n"@
            + spec_pair_entries(document_pairs(v.document_only_templates@))
    } else {
        Seq::empty()
    }
}

pub open spec fn nc_failures(v: StratifiedInputs) -> Seq<char> {
    if v.per_template_failures.len() > 0 {
        "- **"@ + decimal(v.per_template_failures.len() as nat)
            + " attack-catalog templates failed synthesis** — the LLM could not render a check_ function for the template against this contract surface:\n"@
            + spec_pair_entries(failure_pairs(v.per_template_failures@))
    } else {
        Seq::empty()
    }
}

/// Something was left unchecked.
pub open spec fn nc_any(v: StratifiedInputs) -> bool {
    v.phase5_structural_pending || v.skipped_templates.len() > 0 || spec_count(
        PropertyList::Frontier,
        v.properties@,
    ) > 0 || spec_count(PropertyList::PerRun, v.properties@) > 0
        || v.document_only_templates.len() > 0 || v.per_template_failures.len() > 0
}

/// The body of the "Not checked" section: every kind of thing the run did
/// not check, an explicit note when there is none, and, under a
/// Verified-in-scope headline, the reminder that it does not mean safe.
pub open spec fn spec_not_checked(v: StratifiedInputs, h: Headline) -> Seq<char> {
    nc_structural(v) + nc_skipped(v) + nc_frontier(v) + nc_per_run(v) + nc_documents(v)
        + nc_failures(v) + (if !nc_any(v) {
        nothing_unchecked_note()
    } else {
        Seq::empty()
    }) + (if h == Headline::VerifiedInScope {
        in_scope_disclaimer()
    } else {
        Seq::empty()
    }) + "\n"@
}

/// Every property's digest can be printed.
pub open spec fn digests_printable(v: StratifiedInputs) -> bool {
    forall|i: int| 0 <= i < v.properties.len() ==> sha_printable(#[trigger] v.properties@[i])
}

fn count_entries(l: PropertyList, ps: &Vec<PropertyOutcome>) -> (n: usize)
    ensures
        n == spec_count(l, ps@),
{
    let mut n: usize = 0;
    let mut i: usize = 0;
    while i < ps.len()
        invariant
            i <= ps.len(),
            n <= i,
            n == spec_count(l, ps@.take(i as int)),
        decreases ps.len() - i,
    {
        proof {
            let t = ps@.take(i + 1);
            assert(t.drop_last() =~= ps@.take(i as int));
            assert(t.last() == ps@[i as int]);
        }
        if in_list_exec(l, &ps[i]) {
            n += 1;
        }
        i += 1;
    }
    assert(ps@.take(ps.len() as int) =~= ps@);
    n
}

fn push_nc_head(out: &mut String, n: usize, text: &str)
    ensures
        final(out)@ == old(out)@ + "- **"@ + decimal(n as nat) + text@,
{
    out.append("- **");
    push_decimal(out, n as u64);
    out.append(text);
}

fn push_nc_unknowns(out: &mut String, v: &StratifiedInputs) -> (r: (usize, usize))
    ensures
        final(out)@ == old(out)@ + nc_frontier(*v) + nc_per_run(*v),
        r.0 == spec_count(PropertyList::Frontier, v.properties@),
        r.1 == spec_count(PropertyList::PerRun, v.properties@),
{
    let ghost o0 = out@;
    let nf = count_entries(PropertyList::Frontier, &v.properties);
    if nf > 0 {
        push_nc_head(
            out,
            nf,
            " frontier-template Unknowns** — the property is fundamentally hard for the underlying SMT theory; the run only verified the declared over-approximation. SPEC §4.3.\n",
        );
        push_entries(out, PropertyList::Frontier, &v.properties);
    }
    assert(out@ =~= o0 + nc_frontier(*v));
    let ghost o1 = out@;
    let np = count_entries(PropertyList::PerRun, &v.properties);
    if np > 0 {
        push_nc_head(
            out,
            np,
            " per-run Unknowns or errors** — solver budget exhausted or dispatch failure, not a frontier-template structural issue (SPEC §4.3 distinction):\n",
        );
        push_entries(out, PropertyList::PerRun, &v.properties);
    }
    assert(out@ =~= o1 + nc_per_run(*v));
    (nf, np)
}

fn push_nc_tail(out: &mut String, any: bool, headline: Headline)
    ensures
        final(out)@ == old(out)@ + (if !any {
            nothing_unchecked_note()
        } else {
            Seq::empty()
        }) + (if headline == Headline::VerifiedInScope {
            in_scope_disclaimer()
        } else {
            Seq::empty()
        }) + "\n"@,
{
    let ghost o0 = out@;
    if !any {
        out.append(
            "_All selected oracles produced verdicts; no skipped templates, frontier Unknowns, or deferred sources to report._\n",
        );
    }
    let ghost o1 = out@;
    if headline == Headline::VerifiedInScope {
        out.append(
            "\n_The \"Verified-in-scope\" headline above means every property this run CHECKED was proven by the solver. It does NOT mean the contract is safe. Properties listed above as skipped / Phase-5-pending / document-only were not checked at all._\n",
        );
    }
    let ghost o2 = out@;
    out.append("\n");
    assert(out@ =~= o0 + (if !any {
        nothing_unchecked_note()
    } else {
        Seq::empty()
    }) + (if headline == Headline::VerifiedInScope {
        in_scope_disclaimer()
    } else {
        Seq::empty()
    }) + "\n"@);
}

fn push_nc_skipped(out: &mut String, v: &StratifiedInputs)
    ensures
        final(out)@ == old(out)@ + nc_skipped(*v),
{
    let ghost o0 = out@;
    if v.skipped_templates.len() > 0 {
        push_nc_head(
            out,
            v.skipped_templates.len(),
            " attack-catalog templates skipped** — applicability preconditions did not match:\n",
        );
        push_skipped_entries(out, &v.skipped_templates);
    }
    assert(out@ =~= o0 + nc_skipped(*v));
}

fn push_nc_documents(out: &mut String, v: &StratifiedInputs)
    ensures
        final(out)@ == old(out)@ + nc_documents(*v),
{
    let ghost o0 = out@;
    if v.document_only_templates.len() > 0 {
        push_nc_head(
            out,
            v.document_only_templates.len(),
            " document-only templates** — no SMT encoding ships; these are named in the catalog for awareness only.\n",
        );
        push_document_entries(out, &v.document_only_templates);
    }
    assert(out@ =~= o0 + nc_documents(*v));
}

fn push_nc_failures(out: &mut String, v: &StratifiedInputs)
    ensures
        final(out)@ == old(out)@ + nc_failures(*v),
{
    let ghost o0 = out@;
    if v.per_template_failures.len() > 0 {
        push_nc_head(
            out,
            v.per_template_failures.len(),
            " attack-catalog templates failed synthesis** — the LLM could not render a check_ function for the template against this contract surface:\n",
        );
        push_failure_entries(out, &v.per_template_failures);
    }
    assert(out@ =~= o0 + nc_failures(*v));
}

/// Appends the body of the "Not checked" section.
#[verifier::spinoff_prover]
#[verifier::rlimit(50)]
pub fn render_not_checked(out: &mut String, v: &StratifiedInputs, headline: Headline)
    ensures
        final(out)@ == old(out)@ + spec_not_checked(*v, headline),
{
    let ghost o0 = out@;
    if v.phase5_structural_pending {
        out.append(
            "- **Structural mining (Phase 5)** — not yet implemented. The V1.5 stack will mine conservation / monotonicity / access-policy / invariant-constant / two-step-pattern candidates from solc + Slither once Phase 5 lands.\n",
        );
    }
    assert(out@ =~= o0 + nc_structural(*v));
    let ghost a1 = nc_structural(*v);
    push_nc_skipped(out, v);
    let ghost a2 = a1 + nc_skipped(*v);
    assert(out@ =~= o0 + a2);
    let (nf, np) = push_nc_unknowns(out, v);
    let ghost a3 = a2 + nc_frontier(*v) + nc_per_run(*v);
    assert(out@ =~= o0 + a3);
    push_nc_documents(out, v);
    let ghost a4 = a3 + nc_documents(*v);
    assert(out@ =~= o0 + a4);
    push_nc_failures(out, v);
    let ghost a5 = a4 + nc_failures(*v);
    assert(out@ =~= o0 + a5);
    let any = v.phase5_structural_pending || v.skipped_templates.len() > 0 || nf > 0 || np > 0
        || v.document_only_templates.len() > 0 || v.per_template_failures.len() > 0;
    assert(any == nc_any(*v));
    let ghost o5 = out@;
    push_nc_tail(out, any, headline);
    assert(out@ =~= o0 + spec_not_checked(*v, headline));
}

/// One "Suggested additional invariants" entry.
pub open spec fn spec_suggestion_entry(f: LowConfidenceStructuralSummary) -> Seq<char> {
    "- **"@ + f.miner@ + "** (confidence "@ + f.confidence@ + ")"@ + match f.fn_or_var {
        Some(t) => " `"@ + t@ + "`"@,
        None => Seq::empty(),
    } + ": "@ + f.description@ + "\n"@
}

pub open spec fn spec_suggestion_entries(fs: Seq<LowConfidenceStructuralSummary>) -> Seq<char>
    decreases fs.len(),
{
    if fs.len() == 0 {
        Seq::empty()
    } else {
        spec_suggestion_entries(fs.drop_last()) + spec_suggestion_entry(fs.last())
    }
}

/// The section of low-confidence structural findings; absent when there
/// are none.
pub open spec fn spec_suggestions(fs: Seq<LowConfidenceStructuralSummary>) -> Seq<char> {
    if fs.len() == 0 {
        Seq::empty()
    } else {
        "## Suggested additional invariants ("@ + decimal(fs.len()) + ")\n\n"@
            + "_Mined by structural analysis at low confidence; NOT auto-verified. Review and promote to a manual intent if you want them in the next run._\n\n"@
            + spec_suggestion_entries(fs) + "\n"@
    }
}

/// The report header: headline, project, fingerprint.
pub open spec fn spec_report_header(h: Headline, v: StratifiedInputs) -> Seq<char> {
    "# Vergil verdict\n\n"@ + "**Headline:** "@ + spec_headline_text(h) + "\n\n"@ + "Project: `"@
        + v.project_path@ + "`\n"@ + "Interfaces: "@ + spec_join_or_none(v.fingerprint.interfaces@)
        + "\n"@ + "Primitives: "@ + spec_join_or_none(v.fingerprint.primitives@) + "\n"@
        + "Oracles available: tests="@ + spec_bool_text(v.fingerprint.available_oracles.tests)
        + " natspec="@ + spec_bool_text(v.fingerprint.available_oracles.natspec) + " readme="@
        + spec_bool_text(v.fingerprint.available_oracles.readme) + "\n\n"@
}

pub open spec fn spec_proven_section(ps: Seq<PropertyOutcome>) -> Seq<char> {
    let n = spec_count(PropertyList::Proven, ps);
    "## Proven ("@ + decimal(n) + ")\n\n"@ + if n == 0 {
        "_No properties verified in this run._\n\n"@
    } else {
        spec_entries(PropertyList::Proven, ps)
    }
}

pub open spec fn spec_refuted_section(ps: Seq<PropertyOutcome>) -> Seq<char> {
    let n = spec_count(PropertyList::Refuted, ps);
    "## Refuted ("@ + decimal(n) + ")\n\n"@ + if n == 0 {
        "_No counterexamples found._\n\n"@
    } else {
        spec_entries(PropertyList::Refuted, ps)
    }
}

/// The command that re-verifies the run's artifact.
pub open spec fn spec_reproduce_command(project: Seq<char>) -> Seq<char> {
    "vergil prove "@ + project + "/vergil-out/proof.json"@
}

pub open spec fn spec_reproduce_section(project: Seq<char>) -> Seq<char> {
    "## Reproduce\n\n"@ + "Re-verify independently via `"@ + spec_reproduce_command(project)
        + "`. SMT queries are re-dispatched through the alternate solver (cvc5 by default; override with `--solver z3` / `--solver bitwuzla`). No LLM is invoked on the re-check path.\n"@
}

/// The whole Markdown report.
pub open spec fn spec_report_md(o: VerdictOutput) -> Seq<char> {
    spec_report_header(o.headline, o.inputs) + spec_proven_section(o.inputs.properties@)
        + spec_refuted_section(o.inputs.properties@) + spec_suggestions(
        o.inputs.low_confidence_structural@,
    ) + "## Not checked\n\n"@ + spec_not_checked(o.inputs, o.headline) + spec_reproduce_section(
        o.inputs.project_path@,
    )
}

/// `vergil prove <project>/vergil-out/proof.json`.
pub fn reproduce_command(project: &str) -> (r: String)
    ensures
        r@ == spec_reproduce_command(project@),
{
    let mut r = String::from_str("vergil prove ");
    r.append(project);
    r.append("/vergil-out/proof.json");
    r
}

#[verifier::spinoff_prover]
#[verifier::rlimit(50)]
fn push_report_header(out: &mut String, h: Headline, v: &StratifiedInputs)
    ensures
        final(out)@ == old(out)@ + spec_report_header(h, *v),
{
    let ghost o0 = out@;
    out.append("# Vergil verdict\n\n");
    out.append("**Headline:** ");
    out.append(h.as_str());
    out.append("\n\n");
    out.append("Project: `");
    out.append(v.project_path.as_str());
    out.append("`\n");
    assert(out@ =~= o0 + "# Vergil verdict\n\n"@ + "**Headline:** "@ + spec_headline_text(h) + "\n\n"@
        + "Project: `"@ + v.project_path@ + "`\n"@);
    out.append("Interfaces: ");
    let ifs = join_or_none(&v.fingerprint.interfaces);
    out.append(ifs.as_str());
    out.append("\n");
    out.append("Primitives: ");
    let prs = join_or_none(&v.fingerprint.primitives);
    out.append(prs.as_str());
    out.append("\n");
    out.append("Oracles available: tests=");
    push_bool(out, v.fingerprint.available_oracles.tests);
    out.append(" natspec=");
    push_bool(out, v.fingerprint.available_oracles.natspec);
    out.append(" readme=");
    push_bool(out, v.fingerprint.available_oracles.readme);
    out.append("\n\n");
    assert(out@ =~= o0 + spec_report_header(h, *v));
}

fn push_property_section(out: &mut String, l: PropertyList, ps: &Vec<PropertyOutcome>)
    requires
        l == PropertyList::Proven || l == PropertyList::Refuted,
        forall|i: int| 0 <= i < ps.len() ==> sha_printable(#[trigger] ps@[i]),
    ensures
        l == PropertyList::Proven ==> final(out)@ == old(out)@ + spec_proven_section(ps@),
        l == PropertyList::Refuted ==> final(out)@ == old(out)@ + spec_refuted_section(ps@),
{
    let ghost o0 = out@;
    let n = count_entries(l, ps);
    if l == PropertyList::Proven {
        out.append("## Proven (");
    } else {
        out.append("## Refuted (");
    }
    push_decimal(out, n as u64);
    out.append(")\n\n");
    if n == 0 {
        if l == PropertyList::Proven {
            out.append("_No properties verified in this run._\n\n");
        } else {
            out.append("_No counterexamples found._\n\n");
        }
    } else {
        push_entries(out, l, ps);
    }
    assert(l == PropertyList::Proven ==> out@ =~= o0 + spec_proven_section(ps@));
    assert(l == PropertyList::Refuted ==> out@ =~= o0 + spec_refuted_section(ps@));
}

fn push_suggestions(out: &mut String, fs: &Vec<LowConfidenceStructuralSummary>)
    ensures
        final(out)@ == old(out)@ + spec_suggestions(fs@),
{
    if fs.len() == 0 {
        assert(old(out)@ + Seq::<char>::empty() =~= old(out)@);
        return;
    }
    let ghost o0 = out@;
    out.append("## Suggested additional invariants (");
    push_decimal(out, fs.len() as u64);
    out.append(")\n\n");
    out.append(
        "_Mined by structural analysis at low confidence; NOT auto-verified. Review and promote to a manual intent if you want them in the next run._\n\n",
    );
    let ghost o1 = out@;
    let mut i: usize = 0;
    while i < fs.len()
        invariant
            i <= fs.len(),
            out@ == o1 + spec_suggestion_entries(fs@.take(i as int)),
        decreases fs.len() - i,
    {
        proof {
            let t = fs@.take(i + 1);
            assert(t.drop_last() =~= fs@.take(i as int));
            assert(t.last() == fs@[i as int]);
        }
        let f = &fs[i];
        let ghost before = out@;
        out.append("- **");
        out.append(f.miner.as_str());
        out.append("** (confidence ");
        out.append(f.confidence.as_str());
        out.append(")");
        match &f.fn_or_var {
            Some(t) => {
                out.append(" `");
                out.append(t.as_str());
                out.append("`");
            },
            None => {},
        }
        out.append(": ");
        out.append(f.description.as_str());
        out.append("\n");
        assert(out@ =~= before + spec_suggestion_entry(fs@[i as int]));
        assert(out@ =~= o1 + spec_suggestion_entries(fs@.take(i + 1)));
        i += 1;
    }
    assert(fs@.take(fs.len() as int) =~= fs@);
    out.append("\n");
    assert(out@ =~= o0 + spec_suggestions(fs@));
}

impl VerdictOutput {
    /// The Markdown report: header, Proven, Refuted, the suggested
    /// invariants when there are any, Not checked (always), Reproduce.
    pub fn report_md(&self) -> (r: String)
        requires
            digests_printable(self.inputs),
        ensures
            r@ == spec_report_md(*self),
    {
        let v = &self.inputs;
        let mut out = String::new();
        push_report_header(&mut out, self.headline, v);
        let ghost a1 = spec_report_header(self.headline, *v);
        push_property_section(&mut out, PropertyList::Proven, &v.properties);
        let ghost a2 = a1 + spec_proven_section(v.properties@);
        push_property_section(&mut out, PropertyList::Refuted, &v.properties);
        let ghost a3 = a2 + spec_refuted_section(v.properties@);
        assert(out@ =~= a3);
        push_suggestions(&mut out, &v.low_confidence_structural);
        let ghost a4 = a3 + spec_suggestions(v.low_confidence_structural@);
        assert(out@ =~= a4);
        out.append("## Not checked\n\n");
        render_not_checked(&mut out, v, self.headline);
        let ghost a5 = a4 + "## Not checked\n\n"@ + spec_not_checked(*v, self.headline);
        assert(out@ =~= a5);
        out.append("## Reproduce\n\n");
        out.append("Re-verify independently via `");
        let cmd = reproduce_command(v.project_path.as_str());
        out.append(cmd.as_str());
        out.append(
            "`. SMT queries are re-dispatched through the alternate solver (cvc5 by default; override with `--solver z3` / `--solver bitwuzla`). No LLM is invoked on the re-check path.\n",
        );
        assert(out@ =~= a5 + spec_reproduce_section(v.project_path@));
        out
    }
}

/// The report always has a "Not checked" section, with the explicit note
/// when nothing was left unchecked, and always ends with the reproduce
/// command for the project.
pub proof fn law_report_always_names_what_was_not_checked(o: VerdictOutput)
    ensures
        exists|pre: Seq<char>, post: Seq<char>|
            spec_report_md(o) == pre + "## Not checked\n\n"@ + spec_not_checked(o.inputs, o.headline)
                + post,
        !nc_any(o.inputs) ==> exists|pre: Seq<char>, post: Seq<char>|
            spec_report_md(o) == pre + nothing_unchecked_note() + post,
        exists|pre: Seq<char>, post: Seq<char>|
            spec_report_md(o) == pre + spec_reproduce_command(o.inputs.project_path@) + post,
{
    let v = o.inputs;
    let head = spec_report_header(o.headline, v) + spec_proven_section(v.properties@)
        + spec_refuted_section(v.properties@) + spec_suggestions(v.low_confidence_structural@);
    assert(spec_report_md(o) == head + "## Not checked\n\n"@ + spec_not_checked(v, o.headline)
        + spec_reproduce_section(v.project_path@));
    let nc = spec_not_checked(v, o.headline);
    let tail = (if o.headline == Headline::VerifiedInScope {
        in_scope_disclaimer()
    } else {
        Seq::empty()
    }) + "\n"@;
    let ncpre = nc_structural(v) + nc_skipped(v) + nc_frontier(v) + nc_per_run(v) + nc_documents(v)
        + nc_failures(v);
    if !nc_any(v) {
        assert(nc =~= ncpre + nothing_unchecked_note() + tail);
        let pre = head + "## Not checked\n\n"@ + ncpre;
        let post = tail + spec_reproduce_section(v.project_path@);
        assert(spec_report_md(o) =~= pre + nothing_unchecked_note() + post);
    }
    let pre2 = head + "## Not checked\n\n"@ + nc + "## Reproduce\n\n"@ + "Re-verify independently via `"@;
    let post2 = "`. SMT queries are re-dispatched through the alternate solver (cvc5 by default; override with `--solver z3` / `--solver bitwuzla`). No LLM is invoked on the re-check path.\n"@;
    assert(spec_report_md(o) =~= pre2 + spec_reproduce_command(v.project_path@) + post2);
}

} // verus!
