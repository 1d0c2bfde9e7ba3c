//! The attack catalog as an oracle: each activated template whose property
//! can be encoded becomes an intent (its negation property, verbatim), to
//! be synthesized like any other.
use vstd::prelude::*;

use crate::source::Source;
use crate::synthesis::SpecCandidate;

verus! {

/// How decidable a template's property is for the SMT theories.
#[derive(Debug, Clone, Copy, PartialEq, Eq, Structural)]
pub enum DecidabilityKind {
    Decidable,
    /// Only a declared over-approximation is verified.
    Frontier,
    /// No encoding ships; never turned into a candidate.
    DocumentOnly,
}

/// What the catalog oracle reads of an activated template.
#[derive(Debug, Clone)]
pub struct TemplateInfo {
    pub id: String,
    pub name: String,
    pub negation_property: String,
    pub category: String,
    /// The severity's label.
    pub severity: String,
    pub decidability: DecidabilityKind,
    pub over_approximation: Option<String>,
}

impl TemplateInfo {
    /// A copy equal to `self`.
    pub fn duplicate(&self) -> (r: TemplateInfo)
        ensures
            r == *self,
    {
        TemplateInfo {
            id: self.id.clone(),
            name: self.name.clone(),
            negation_property: self.negation_property.clone(),
            category: self.category.clone(),
            severity: self.severity.clone(),
            decidability: self.decidability,
            over_approximation: crate::portfolio::copy_opt_string(&self.over_approximation),
        }
    }
}

/// One intent drawn from an activated template.
#[derive(Debug, Clone)]
pub struct CatalogIntentCandidate {
    /// Identifier for the check function, from the template id.
    pub name: String,
    pub template_id: String,
    pub display_name: String,
    /// The template's negation property, verbatim.
    pub intent_text: String,
    pub category: String,
    pub severity: String,
    pub decidability: DecidabilityKind,
    pub over_approximation: Option<String>,
}

#[derive(Debug, Clone, Copy)]
pub struct CatalogIntentConfig {
    /// Synthesis samples per intent; zero keeps the caller's setting.
    pub samples_per_intent: usize,
}

impl CatalogIntentConfig {
    pub fn default_for_anthropic() -> (r: CatalogIntentConfig)
        ensures
            r.samples_per_intent == 1,
    {
        CatalogIntentConfig { samples_per_intent: 1 }
    }

    pub fn for_tests() -> (r: CatalogIntentConfig)
        ensures
            r.samples_per_intent == 1,
    {
        CatalogIntentConfig { samples_per_intent: 1 }
    }

    /// The sample count synthesis runs with: the per-intent override when
    /// set, otherwise the caller's.
    pub fn effective_samples(&self, caller_samples: usize) -> (r: usize)
        ensures
            r == if self.samples_per_intent > 0 {
                self.samples_per_intent
            } else {
                caller_samples
            },
    {
        if self.samples_per_intent > 0 {
            self.samples_per_intent
        } else {
            caller_samples
        }
    }
}

impl Default for CatalogIntentConfig {
    fn default() -> (r: CatalogIntentConfig)
        ensures
            r.samples_per_intent == 1,
    {
        CatalogIntentConfig::default_for_anthropic()
    }
}

pub open spec fn is_ascii_alnum(c: char) -> bool {
    ('0' <= c && c <= '9') || ('a' <= c && c <= 'z') || ('A' <= c && c <= 'Z')
}

/// An identifier character: ASCII letters lowercased, digits and `_`
/// kept, anything else `_`.
pub open spec fn spec_ident_char(c: char) -> char {
    if 'A' <= c && c <= 'Z' {
        ((c as u32) + 32) as char
    } else if is_ascii_alnum(c) || c == '_' {
        c
    } else {
        '_'
    }
}

pub open spec fn spec_strip_leading_underscores(s: Seq<char>) -> Seq<char>
    decreases s.len(),
{
    if s.len() > 0 && s[0] == '_' {
        spec_strip_leading_underscores(s.drop_first())
    } else {
        s
    }
}

pub open spec fn spec_strip_trailing_underscores(s: Seq<char>) -> Seq<char>
    decreases s.len(),
{
    if s.len() > 0 && s.last() == '_' {
        spec_strip_trailing_underscores(s.drop_last())
    } else {
        s
    }
}

/// An identifier from free text: characters mapped by
/// [`spec_ident_char`], underscores trimmed at both ends, and `intent`
/// when nothing is left.
pub open spec fn spec_sanitize_name(raw: Seq<char>) -> Seq<char> {
    let t = spec_strip_trailing_underscores(
        spec_strip_leading_underscores(raw.map_values(|c: char| spec_ident_char(c))),
    );
    if t.len() == 0 {
        "intent"@
    } else {
        t
    }
}

/// A character a check-function identifier may hold: a lowercase ASCII
/// letter, a digit or `_`.
pub open spec fn is_ident_char(c: char) -> bool {
    ('a' <= c && c <= 'z') || ('0' <= c && c <= '9') || c == '_'
}

proof fn lemma_strip_leading(s: Seq<char>)
    ensures
        spec_strip_leading_underscores(s).len() <= s.len(),
        spec_strip_leading_underscores(s) == s.skip(
            s.len() - spec_strip_leading_underscores(s).len(),
        ),
        spec_strip_leading_underscores(s).len() > 0 ==> spec_strip_leading_underscores(s)[0]
            != '_',
    decreases s.len(),
{
    if s.len() > 0 && s[0] == '_' {
        lemma_strip_leading(s.drop_first());
        let r = spec_strip_leading_underscores(s.drop_first());
        assert(s.drop_first().skip(s.len() - 1 - r.len()) =~= s.skip(s.len() - r.len()));
    } else {
        assert(s.skip(0) =~= s);
    }
}

proof fn lemma_strip_trailing(s: Seq<char>)
    ensures
        spec_strip_trailing_underscores(s).len() <= s.len(),
        spec_strip_trailing_underscores(s) == s.take(spec_strip_trailing_underscores(s).len() as int),
        spec_strip_trailing_underscores(s).len() > 0 ==> spec_strip_trailing_underscores(s).last()
            != '_',
    decreases s.len(),
{
    if s.len() > 0 && s.last() == '_' {
        lemma_strip_trailing(s.drop_last());
        let r = spec_strip_trailing_underscores(s.drop_last());
        assert(s.drop_last().take(r.len() as int) =~= s.take(r.len() as int));
    } else {
        assert(s.take(s.len() as int) =~= s);
    }
}

/// Sanitizing is idempotent: a sanitized name is left as it is.
pub proof fn law_sanitize_name_idempotent(raw: Seq<char>)
    ensures
        spec_sanitize_name(spec_sanitize_name(raw)) == spec_sanitize_name(raw),
{
    let s = spec_sanitize_name(raw);
    law_sanitized_name_is_identifier(raw);
    let m = s.map_values(|c: char| spec_ident_char(c));
    assert forall|i: int| 0 <= i < s.len() implies #[trigger] m[i] == s[i] by {
        assert(is_ident_char(s[i]));
    }
    assert(m =~= s);
    assert(spec_strip_leading_underscores(s) == s);
    assert(spec_strip_trailing_underscores(s) == s);
}

/// What `sanitize_name` produces is always a usable identifier: never
/// empty, made of lowercase ASCII letters, digits and underscores, and
/// neither starting nor ending with an underscore.
pub proof fn law_sanitized_name_is_identifier(raw: Seq<char>)
    ensures
        spec_sanitize_name(raw).len() > 0,
        forall|i: int|
            0 <= i < spec_sanitize_name(raw).len() ==> is_ident_char(
                #[trigger] spec_sanitize_name(raw)[i],
            ),
        spec_sanitize_name(raw)[0] != '_',
        spec_sanitize_name(raw).last() != '_',
{
    let m = raw.map_values(|c: char| spec_ident_char(c));
    assert forall|i: int| 0 <= i < m.len() implies is_ident_char(#[trigger] m[i]) by {
        let c = raw[i];
        if 'A' <= c && c <= 'Z' {
            assert(97 <= (c as u32) + 32 <= 122);
        }
    }
    let a = spec_strip_leading_underscores(m);
    lemma_strip_leading(m);
    let t = spec_strip_trailing_underscores(a);
    lemma_strip_trailing(a);
    if t.len() == 0 {
        reveal_strlit("intent");
    } else {
        assert(t[0] == a[0]);
        assert forall|i: int| 0 <= i < t.len() implies is_ident_char(#[trigger] t[i]) by {
            assert(t[i] == a[i]);
            assert(a[i] == m[m.len() - a.len() + i]);
        }
    }
}

/// `char::to_ascii_lowercase`.
pub open spec fn spec_ascii_lower(c: char) -> char {
    if 'A' <= c && c <= 'Z' {
        ((c as u32) + 32) as char
    } else {
        c
    }
}

pub fn ascii_lower(c: char) -> (r: char)
    ensures
        r == spec_ascii_lower(c),
{
    if 'A' <= c && c <= 'Z' {
        let b = c as u8;
        (b + 32) as char
    } else {
        c
    }
}

fn ident_char(c: char) -> (r: char)
    ensures
        r == spec_ident_char(c),
{
    if 'A' <= c && c <= 'Z' {
        let b = c as u8;
        (b + 32) as char
    } else if ('0' <= c && c <= '9') || ('a' <= c && c <= 'z') || c == '_' {
        c
    } else {
        '_'
    }
}

/// A check-function identifier from a template id or a model-proposed
/// name.
pub fn sanitize_name(raw: &str) -> (r: String)
    ensures
        r@ == spec_sanitize_name(raw@),
{
    let v = crate::text::to_chars(raw);
    let mut m: Vec<char> = Vec::new();
    let mut i: usize = 0;
    while i < v.len()
        invariant
            i <= v.len(),
            v@ == raw@,
            m@ == v@.take(i as int).map_values(|c: char| spec_ident_char(c)),
        decreases v.len() - i,
    {
        m.push(ident_char(v[i]));
        assert(v@.take(i + 1).map_values(|c: char| spec_ident_char(c)) =~= v@.take(
            i as int,
        ).map_values(|c: char| spec_ident_char(c)).push(spec_ident_char(v@[i as int])));
        i += 1;
    }
    assert(v@.take(v.len() as int) =~= v@);
    let ghost mapped = m@;
    let mut a: usize = 0;
    assert(mapped.skip(0) =~= mapped);
    while a < m.len() && m[a] == '_'
        invariant
            a <= m.len(),
            m@ == mapped,
            spec_strip_leading_underscores(mapped) == spec_strip_leading_underscores(
                mapped.skip(a as int),
            ),
        decreases m.len() - a,
    {
        assert(mapped.skip(a as int).drop_first() =~= mapped.skip(a + 1));
        a += 1;
    }
    proof {
        let s = mapped.skip(a as int);
        if a < m.len() {
            assert(s[0] == mapped[a as int]);
        }
        assert(spec_strip_leading_underscores(s) == s);
    }
    let mut b: usize = m.len();
    while b > a && m[b - 1] == '_'
        invariant
            a <= b <= m.len(),
            m@ == mapped,
            spec_strip_trailing_underscores(mapped.skip(a as int)) == spec_strip_trailing_underscores(
                mapped.subrange(a as int, b as int),
            ),
        decreases b,
    {
        assert(mapped.subrange(a as int, b as int).drop_last() =~= mapped.subrange(
            a as int,
            b - 1,
        ));
        b -= 1;
    }
    proof {
        let s = mapped.subrange(a as int, b as int);
        if b > a {
            assert(s.last() == mapped[b - 1]);
        }
        assert(spec_strip_trailing_underscores(s) == s);
        assert(mapped.skip(a as int) =~= mapped.subrange(a as int, m.len() as int));
    }
    if a == b {
        return String::from_str("intent");
    }
    let mut out = String::new();
    let mut k = a;
    while k < b
        invariant
            a <= k <= b,
            b <= m.len(),
            m@ == mapped,
            out@ == mapped.subrange(a as int, k as int),
        decreases b - k,
    {
        crate::text::push_char(&mut out, m[k]);
        assert(mapped.subrange(a as int, k as int).push(mapped[k as int]) =~= mapped.subrange(
            a as int,
            k + 1,
        ));
        k += 1;
    }
    out
}

/// `c` is the intent drawn from template `t`.
pub open spec fn drawn_from(c: CatalogIntentCandidate, t: TemplateInfo) -> bool {
    &&& t.decidability != DecidabilityKind::DocumentOnly
    &&& c.name@ == spec_sanitize_name(t.id@)
    &&& c.template_id == t.id
    &&& c.display_name == t.name
    &&& c.intent_text == t.negation_property
    &&& c.category == t.category
    &&& c.severity == t.severity
    &&& c.decidability == t.decidability
    &&& c.over_approximation == t.over_approximation
}

/// The intent of one template; `None` for a document-only template.
pub fn candidate_from_template(t: &TemplateInfo) -> (r: Option<CatalogIntentCandidate>)
    ensures
        t.decidability == DecidabilityKind::DocumentOnly <==> r is None,
        r matches Some(c) ==> drawn_from(c, *t),
{
    if t.decidability == DecidabilityKind::DocumentOnly {
        return None;
    }
    Some(
        CatalogIntentCandidate {
            name: sanitize_name(t.id.as_str()),
            template_id: t.id.clone(),
            display_name: t.name.clone(),
            intent_text: t.negation_property.clone(),
            category: t.category.clone(),
            severity: t.severity.clone(),
            decidability: t.decidability,
            over_approximation: crate::portfolio::copy_opt_string(&t.over_approximation),
        },
    )
}

/// The templates that can be encoded, in activation order.
pub open spec fn encodable(ts: Seq<TemplateInfo>) -> Seq<TemplateInfo>
    decreases ts.len(),
{
    if ts.len() == 0 {
        Seq::empty()
    } else if ts.last().decidability == DecidabilityKind::DocumentOnly {
        encodable(ts.drop_last())
    } else {
        encodable(ts.drop_last()).push(ts.last())
    }
}

/// One intent per activated template that can be encoded, in order;
/// document-only templates are passed over.
pub fn extract_intent_candidates_from_catalog(templates: &Vec<TemplateInfo>) -> (r: Vec<
    CatalogIntentCandidate,
>)
    ensures
        r.len() == encodable(templates@).len(),
        forall|i: int| 0 <= i < r.len() ==> drawn_from(#[trigger] r@[i], encodable(templates@)[i]),
{
    let mut out: Vec<CatalogIntentCandidate> = Vec::new();
    let mut i: usize = 0;
    while i < templates.len()
        invariant
            i <= templates.len(),
            out.len() == encodable(templates@.take(i as int)).len(),
            forall|k: int|
                0 <= k < out.len() ==> drawn_from(
                    #[trigger] out@[k],
                    encodable(templates@.take(i as int))[k],
                ),
        decreases templates.len() - i,
    {
        proof {
            let t = templates@.take(i + 1);
            assert(t.drop_last() =~= templates@.take(i as int));
            assert(t.last() == templates@[i as int]);
        }
        match candidate_from_template(&templates[i]) {
            Some(c) => {
                out.push(c);
            },
            None => {},
        }
        i += 1;
    }
    assert(templates@.take(templates.len() as int) =~= templates@);
    out
}

/// A candidate synthesized for a catalog intent: marked as coming from
/// the catalog, and given the template and the intent text when the
/// model left them out.
pub fn tag_catalog_candidate(c: SpecCandidate, template_id: &String, intent_text: &String) -> (r:
    SpecCandidate)
    ensures
        r.source == Source::AttackCatalog,
        r.name == c.name,
        r.halmos == c.halmos,
        r.smtchecker == c.smtchecker,
        r.intent_satisfied == c.intent_satisfied,
        r.template_ref == if c.template_ref is Some {
            c.template_ref
        } else {
            Some(*template_id)
        },
        r.intent_text == if c.intent_text is Some {
            c.intent_text
        } else {
            Some(*intent_text)
        },
{
    let mut c = c;
    c.source = Source::AttackCatalog;
    if c.template_ref.is_none() {
        c.template_ref = Some(template_id.clone());
    }
    if c.intent_text.is_none() {
        c.intent_text = Some(intent_text.clone());
    }
    c
}

/// A template whose synthesis failed, with the error's message.
#[derive(Debug, Clone)]
pub struct PerTemplateFailure {
    pub template_id: String,
    pub reason: String,
}

} // verus!
