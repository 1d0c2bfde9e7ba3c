//! The report of a properties-file verify run: its exit code and its text
//! and Markdown renderings.
use vstd::prelude::*;

use crate::portfolio::{spec_backend_label, backend_label, BackendOutcome, BackendState, PortfolioResult, Verdict};
use crate::text::{decimal, push_decimal};

verus! {

/// One property of the properties file with its portfolio result.
#[derive(Debug, Clone)]
pub struct PropertyOutcome {
    pub name: String,
    pub result: PortfolioResult,
}

/// The outcome of a verify run.
#[derive(Debug, Clone)]
pub struct VerifyReport {
    pub project: String,
    pub properties: Vec<PropertyOutcome>,
}

pub open spec fn has_verdict(ps: Seq<PropertyOutcome>, f: spec_fn(Verdict) -> bool) -> bool {
    exists|i: int| 0 <= i < ps.len() && f(#[trigger] ps[i].result.verdict)
}

/// 1 when a counterexample was found, else 3 on an error, else 2 on an
/// unknown, else 0.
pub open spec fn spec_exit_code(ps: Seq<PropertyOutcome>) -> u8 {
    if has_verdict(ps, |v: Verdict| v is Counterexample) {
        1
    } else if has_verdict(ps, |v: Verdict| v is Error) {
        3
    } else if has_verdict(ps, |v: Verdict| v is Unknown) {
        2
    } else {
        0
    }
}

/// The exit code tells the run's worst news: 1 exactly when some property
/// has a counterexample, 0 exactly when every property verified, and 2 or
/// 3 otherwise.
pub proof fn law_exit_code(ps: Seq<PropertyOutcome>)
    ensures
        (spec_exit_code(ps) == 1) <==> has_verdict(ps, |v: Verdict| v is Counterexample),
        (spec_exit_code(ps) == 0) <==> forall|i: int| 0 <= i < ps.len() ==> (#[trigger] ps[i]).result.verdict is Verified,
        spec_exit_code(ps) == 0 || spec_exit_code(ps) == 1 || spec_exit_code(ps) == 2 || spec_exit_code(ps) == 3,
{
    if forall|i: int| 0 <= i < ps.len() ==> (#[trigger] ps[i]).result.verdict is Verified {
        assert(!has_verdict(ps, |v: Verdict| v is Counterexample));
        assert(!has_verdict(ps, |v: Verdict| v is Error));
        assert(!has_verdict(ps, |v: Verdict| v is Unknown));
    } else {
        let i = choose|i: int| 0 <= i < ps.len() && !((#[trigger] ps[i]).result.verdict is Verified);
        match ps[i].result.verdict {
            Verdict::Counterexample { .. } => {
                assert((|v: Verdict| v is Counterexample)(ps[i].result.verdict));
            },
            Verdict::Error { .. } => {
                assert((|v: Verdict| v is Error)(ps[i].result.verdict));
            },
            Verdict::Unknown { .. } => {
                assert((|v: Verdict| v is Unknown)(ps[i].result.verdict));
            },
            Verdict::Verified { .. } => {},
        }
    }
}

impl VerifyReport {
    /// The process exit code of the run.
    pub fn exit_code(&self) -> (r: u8)
        ensures
            r == spec_exit_code(self.properties@),
    {
        let mut cex = false;
        let mut err = false;
        let mut unk = false;
        let mut i: usize = 0;
        while i < self.properties.len()
            invariant
                i <= self.properties.len(),
                cex == has_verdict(self.properties@.take(i as int), |v: Verdict| v is Counterexample),
                err == has_verdict(self.properties@.take(i as int), |v: Verdict| v is Error),
                unk == has_verdict(self.properties@.take(i as int), |v: Verdict| v is Unknown),
            decreases self.properties.len() - i,
        {
            let ghost t0 = self.properties@.take(i as int);
            let ghost t1 = self.properties@.take(i + 1);
            match &self.properties[i].result.verdict {
                Verdict::Verified { .. } => {},
                Verdict::Counterexample { .. } => {
                    cex = true;
                },
                Verdict::Unknown { .. } => {
                    unk = true;
                },
                Verdict::Error { .. } => {
                    err = true;
                },
            }
            proof {
                assert(t1[i as int] == self.properties@[i as int]);
                assert forall|f: spec_fn(Verdict) -> bool| #[trigger] has_verdict(t1, f) == (
                has_verdict(t0, f) || f(t1[i as int].result.verdict)) by {
                    if has_verdict(t1, f) {
                        let j = choose|j: int| 0 <= j < t1.len() && f(#[trigger] t1[j].result.verdict);
                        if j < i {
                            assert(t0[j] == t1[j]);
                        }
                    }
                    if has_verdict(t0, f) {
                        let j = choose|j: int| 0 <= j < t0.len() && f(#[trigger] t0[j].result.verdict);
                        assert(t1[j] == t0[j]);
                    }
                }
            }
            i += 1;
        }
        assert(self.properties@.take(self.properties.len() as int) =~= self.properties@);
        if cex {
            1
        } else if err {
            3
        } else if unk {
            2
        } else {
            0
        }
    }
}

/// UTF-8 byte length of a character.
pub open spec fn utf8_width(c: char) -> nat {
    if (c as u32) < 0x80 {
        1
    } else if (c as u32) < 0x800 {
        2
    } else if (c as u32) < 0x10000 {
        3
    } else {
        4
    }
}

/// UTF-8 byte length of a text.
pub open spec fn utf8_len(s: Seq<char>) -> nat
    decreases s.len(),
{
    if s.len() == 0 {
        0
    } else {
        utf8_len(s.drop_last()) + utf8_width(s.last())
    }
}

/// `s` with each newline replaced by a space.
pub open spec fn spec_flatten_newlines(s: Seq<char>) -> Seq<char> {
    s.map_values(|c: char| if c == '\n' { ' ' } else { c })
}

/// A detail shortened for one line: when it fits in `max` bytes, its
/// newlines become spaces; otherwise its first `max` characters followed
/// by `…`.
pub open spec fn spec_truncate(s: Seq<char>, max: nat) -> Seq<char> {
    if utf8_len(s) <= max {
        spec_flatten_newlines(s)
    } else {
        s.take(if max < s.len() { max as int } else { s.len() as int }) + "…"@
    }
}

fn char_width(c: char) -> (w: u64)
    ensures
        w == utf8_width(c),
{
    let u = c as u32;
    if u < 0x80 {
        1
    } else if u < 0x800 {
        2
    } else if u < 0x10000 {
        3
    } else {
        4
    }
}

proof fn lemma_utf8_len_prefix(s: Seq<char>, i: int)
    requires
        0 <= i <= s.len(),
    ensures
        utf8_len(s.take(i)) <= utf8_len(s),
    decreases s.len(),
{
    if i < s.len() {
        assert(s.drop_last().take(i) =~= s.take(i));
        lemma_utf8_len_prefix(s.drop_last(), i);
    } else {
        assert(s.take(i) =~= s);
    }
}

proof fn lemma_utf8_len_bounds(s: Seq<char>)
    ensures
        s.len() <= utf8_len(s) <= 4 * s.len(),
    decreases s.len(),
{
    if s.len() > 0 {
        lemma_utf8_len_bounds(s.drop_last());
    }
}

/// Shortens a detail for one line of the report.
pub fn truncate(s: &str, max: usize) -> (r: String)
    ensures
        r@ == spec_truncate(s@, max as nat),
{
    let v = crate::text::to_chars(s);
    let mut bytes: u128 = 0;
    let mut i: usize = 0;
    while i < v.len() && bytes <= max as u128
        invariant
            i <= v.len(),
            bytes == utf8_len(v@.take(i as int)),
            bytes <= max as u128 + 4,
        decreases v.len() - i,
    {
        proof {
            let t = v@.take(i + 1);
            assert(t.drop_last() =~= v@.take(i as int));
        }
        bytes = bytes + char_width(v[i]) as u128;
        i += 1;
    }
    proof {
        lemma_utf8_len_prefix(v@, i as int);
        if i == v.len() {
            assert(v@.take(v.len() as int) =~= v@);
        }
    }
    if bytes <= max as u128 {
        let mut out = String::new();
        let mut k: usize = 0;
        while k < v.len()
            invariant
                k <= v.len(),
                out@ == spec_flatten_newlines(v@.take(k as int)),
            decreases v.len() - k,
        {
            let c = if v[k] == '\n' {
                ' '
            } else {
                v[k]
            };
            crate::text::push_char(&mut out, c);
            assert(spec_flatten_newlines(v@.take(k as int)).push(c) =~= spec_flatten_newlines(
                v@.take(k + 1),
            ));
            k += 1;
        }
        out
    } else {
        proof {
            lemma_utf8_len_bounds(v@);
        }
        let mut out = String::new();
        let mut k: usize = 0;
        let n = if max < v.len() {
            max
        } else {
            v.len()
        };
        while k < n
            invariant
                k <= n,
                n <= v.len(),
                out@ == v@.take(k as int),
            decreases n - k,
        {
            crate::text::push_char(&mut out, v[k]);
            assert(v@.take(k as int).push(v@[k as int]) =~= v@.take(k + 1));
            k += 1;
        }
        out.append("…");
        out
    }
}

pub open spec fn spec_state_name(s: BackendState) -> Seq<char> {
    match s {
        BackendState::Verified => "verified"@,
        BackendState::Counterexample => "counterexample"@,
        BackendState::Unknown => "unknown"@,
        BackendState::Timeout => "timeout"@,
        BackendState::Error => "error"@,
    }
}

/// Lowercase name of a backend state.
pub fn state_name(s: BackendState) -> (r: &'static str)
    ensures
        r@ == spec_state_name(s),
{
    match s {
        BackendState::Verified => "verified",
        BackendState::Counterexample => "counterexample",
        BackendState::Unknown => "unknown",
        BackendState::Timeout => "timeout",
        BackendState::Error => "error",
    }
}

/// `Debug` name of a backend state.
pub open spec fn spec_state_debug(s: BackendState) -> Seq<char> {
    match s {
        BackendState::Verified => "Verified"@,
        BackendState::Counterexample => "Counterexample"@,
        BackendState::Unknown => "Unknown"@,
        BackendState::Timeout => "Timeout"@,
        BackendState::Error => "Error"@,
    }
}

fn push_state_debug(out: &mut String, s: BackendState)
    ensures
        final(out)@ == old(out)@ + spec_state_debug(s),
{
    match s {
        BackendState::Verified => out.append("Verified"),
        BackendState::Counterexample => out.append("Counterexample"),
        BackendState::Unknown => out.append("Unknown"),
        BackendState::Timeout => out.append("Timeout"),
        BackendState::Error => out.append("Error"),
    }
}

// ---- the terminal rendering ----

pub open spec fn green() -> Seq<char> {
    "\x1b[32m"@
}

pub open spec fn red() -> Seq<char> {
    "\x1b[31m"@
}

pub open spec fn yellow() -> Seq<char> {
    "\x1b[33m"@
}

pub open spec fn reset() -> Seq<char> {
    "\x1b[0m"@
}

/// One backend line under an Unknown (with its state) or an Error.
pub open spec fn spec_text_backend_line(o: BackendOutcome, with_state: bool) -> Seq<char> {
    "      "@ + spec_backend_label(o.backend) + if with_state {
        " → "@ + spec_state_name(o.state) + ": "@
    } else {
        ": "@
    } + spec_truncate(o.detail@, 160) + "\n"@
}

pub open spec fn spec_text_backend_lines(bs: Seq<BackendOutcome>, with_state: bool) -> Seq<char>
    decreases bs.len(),
{
    if bs.len() == 0 {
        Seq::empty()
    } else {
        spec_text_backend_lines(bs.drop_last(), with_state) + spec_text_backend_line(
            bs.last(),
            with_state,
        )
    }
}

/// The terminal entry of one property.
pub open spec fn spec_text_one(p: PropertyOutcome) -> Seq<char> {
    match p.result.verdict {
        Verdict::Verified { backend, wall_clock_ms, .. } => "  "@ + green() + "✓"@ + reset() + " "@
            + p.name@ + " — verified by "@ + spec_backend_label(backend) + " in "@ + decimal(
            wall_clock_ms as nat,
        ) + "ms\n"@,
        Verdict::Counterexample { backend, message, wall_clock_ms, .. } => "  "@ + red() + "✗"@
            + reset() + " "@ + p.name@ + " — counterexample from "@ + spec_backend_label(backend)
            + " ("@ + decimal(wall_clock_ms as nat) + "ms): "@ + spec_truncate(message@, 200)
            + "\n"@,
        Verdict::Unknown { backends } => "  "@ + yellow() + "?"@ + reset() + " "@ + p.name@
            + " — unknown\n"@ + spec_text_backend_lines(backends@, true),
        Verdict::Error { backends } => "  ! "@ + p.name@ + " — error\n"@ + spec_text_backend_lines(
            backends@,
            false,
        ),
    }
}

pub open spec fn spec_text_all(ps: Seq<PropertyOutcome>) -> Seq<char>
    decreases ps.len(),
{
    if ps.len() == 0 {
        Seq::empty()
    } else {
        spec_text_all(ps.drop_last()) + spec_text_one(ps.last())
    }
}

/// How many results satisfy `f`.
pub open spec fn count_verdicts(ps: Seq<PropertyOutcome>, f: spec_fn(Verdict) -> bool) -> nat
    decreases ps.len(),
{
    if ps.len() == 0 {
        0
    } else {
        count_verdicts(ps.drop_last(), f) + if f(ps.last().result.verdict) {
            1nat
        } else {
            0nat
        }
    }
}

/// The terminal rendering of a verify run: header, one entry per
/// property, and the colored summary counts.
pub open spec fn spec_render_text(r: VerifyReport) -> Seq<char> {
    let ps = r.properties@;
    "Vergil verify — project: "@ + r.project@ + "\n"@ + decimal(ps.len()) + " properties\n\n"@
        + spec_text_all(ps) + "\nSummary: "@ + green() + decimal(
        count_verdicts(ps, |v: Verdict| v is Verified),
    ) + " verified"@ + reset() + ", "@ + red() + decimal(
        count_verdicts(ps, |v: Verdict| v is Counterexample),
    ) + " counterexample"@ + reset() + ", "@ + yellow() + decimal(
        count_verdicts(ps, |v: Verdict| v is Unknown),
    ) + " unknown"@ + reset() + ", "@ + decimal(count_verdicts(ps, |v: Verdict| v is Error))
        + " error\n"@
}

fn push_text_backend_lines(out: &mut String, bs: &Vec<BackendOutcome>, with_state: bool)
    ensures
        final(out)@ == old(out)@ + spec_text_backend_lines(bs@, with_state),
{
    let mut i: usize = 0;
    while i < bs.len()
        invariant
            i <= bs.len(),
            out@ == old(out)@ + spec_text_backend_lines(bs@.take(i as int), with_state),
        decreases bs.len() - i,
    {
        proof {
            let t = bs@.take(i + 1);
            assert(t.drop_last() =~= bs@.take(i as int));
            assert(t.last() == bs@[i as int]);
        }
        let o = &bs[i];
        let ghost before = out@;
        out.append("      ");
        out.append(backend_label(o.backend).as_str());
        if with_state {
            out.append(" → ");
            out.append(state_name(o.state));
            out.append(": ");
        } else {
            out.append(": ");
        }
        let d = truncate(o.detail.as_str(), 160);
        out.append(d.as_str());
        out.append("\n");
        assert(out@ =~= before + spec_text_backend_line(*o, with_state));
        i += 1;
    }
    assert(bs@.take(bs.len() as int) =~= bs@);
}

fn push_text_one(out: &mut String, p: &PropertyOutcome)
    ensures
        final(out)@ == old(out)@ + spec_text_one(*p),
{
    let ghost o0 = out@;
    match &p.result.verdict {
        Verdict::Verified { backend, wall_clock_ms, .. } => {
            out.append("  \x1b[32m✓\x1b[0m ");
            out.append(p.name.as_str());
            out.append(" — verified by ");
            out.append(backend_label(*backend).as_str());
            out.append(" in ");
            push_decimal(out, *wall_clock_ms);
            out.append("ms\n");
        },
        Verdict::Counterexample { backend, message, wall_clock_ms, .. } => {
            out.append("  \x1b[31m✗\x1b[0m ");
            out.append(p.name.as_str());
            out.append(" — counterexample from ");
            out.append(backend_label(*backend).as_str());
            out.append(" (");
            push_decimal(out, *wall_clock_ms);
            out.append("ms): ");
            let m = truncate(message.as_str(), 200);
            out.append(m.as_str());
            out.append("\n");
        },
        Verdict::Unknown { backends } => {
            out.append("  \x1b[33m?\x1b[0m ");
            out.append(p.name.as_str());
            out.append(" — unknown\n");
            push_text_backend_lines(out, backends, true);
        },
        Verdict::Error { backends } => {
            out.append("  ! ");
            out.append(p.name.as_str());
            out.append(" — error\n");
            push_text_backend_lines(out, backends, false);
        },
    }
    proof {
        reveal_strlit("  \x1b[32m✓\x1b[0m ");
        reveal_strlit("  \x1b[31m✗\x1b[0m ");
        reveal_strlit("  \x1b[33m?\x1b[0m ");
        reveal_strlit("  ");
        reveal_strlit(" ");
        reveal_strlit("\x1b[32m");
        reveal_strlit("\x1b[31m");
        reveal_strlit("\x1b[33m");
        reveal_strlit("\x1b[0m");
        reveal_strlit("✓");
        reveal_strlit("✗");
        reveal_strlit("?");
        assert(out@ =~= o0 + spec_text_one(*p));
    }
}

impl VerifyReport {
    /// The terminal rendering of the run.
    pub fn render_text(&self) -> (r: String)
        ensures
            r@ == spec_render_text(*self),
    {
        let ps = &self.properties;
        let mut out = String::from_str("Vergil verify — project: ");
        out.append(self.project.as_str());
        out.append("\n");
        push_decimal(&mut out, ps.len() as u64);
        out.append(" properties\n\n");
        let ghost head = out@;
        let mut nv: usize = 0;
        let mut nc: usize = 0;
        let mut nu: usize = 0;
        let mut ne: usize = 0;
        let mut i: usize = 0;
        while i < ps.len()
            invariant
                i <= ps.len(),
                out@ == head + spec_text_all(ps@.take(i as int)),
                nv == count_verdicts(ps@.take(i as int), |v: Verdict| v is Verified),
                nc == count_verdicts(ps@.take(i as int), |v: Verdict| v is Counterexample),
                nu == count_verdicts(ps@.take(i as int), |v: Verdict| v is Unknown),
                ne == count_verdicts(ps@.take(i as int), |v: Verdict| v is Error),
                nv + nc + nu + ne == i,
            decreases ps.len() - i,
        {
            proof {
                let t = ps@.take(i + 1);
                assert(t.drop_last() =~= ps@.take(i as int));
                assert(t.last() == ps@[i as int]);
            }
            push_text_one(&mut out, &ps[i]);
            match &ps[i].result.verdict {
                Verdict::Verified { .. } => {
                    nv += 1;
                },
                Verdict::Counterexample { .. } => {
                    nc += 1;
                },
                Verdict::Unknown { .. } => {
                    nu += 1;
                },
                Verdict::Error { .. } => {
                    ne += 1;
                },
            }
            i += 1;
        }
        assert(ps@.take(ps.len() as int) =~= ps@);
        let ghost body = out@;
        out.append("\nSummary: \x1b[32m");
        push_decimal(&mut out, nv as u64);
        out.append(" verified\x1b[0m, \x1b[31m");
        push_decimal(&mut out, nc as u64);
        out.append(" counterexample\x1b[0m, \x1b[33m");
        push_decimal(&mut out, nu as u64);
        out.append(" unknown\x1b[0m, ");
        push_decimal(&mut out, ne as u64);
        out.append(" error\n");
        proof {
            reveal_strlit("\nSummary: \x1b[32m");
            reveal_strlit("\nSummary: ");
            reveal_strlit(" verified\x1b[0m, \x1b[31m");
            reveal_strlit(" verified");
            reveal_strlit(", ");
            reveal_strlit(" counterexample\x1b[0m, \x1b[33m");
            reveal_strlit(" counterexample");
            reveal_strlit(" unknown\x1b[0m, ");
            reveal_strlit(" unknown");
            reveal_strlit("\x1b[32m");
            reveal_strlit("\x1b[31m");
            reveal_strlit("\x1b[33m");
            reveal_strlit("\x1b[0m");
            assert(out@ =~= spec_render_text(*self));
        }
        out
    }
}

// ---- the Markdown rendering ----

/// The wall-clock cell: `N ms`, or `—` when the time does not fit a
/// signed 64-bit count.
pub open spec fn spec_ms_cell(ms: u64) -> Seq<char> {
    if ms >= 0x8000_0000_0000_0000 {
        "—"@
    } else {
        decimal(ms as nat) + " ms"@
    }
}

/// One row of the summary table.
pub open spec fn spec_md_row(p: PropertyOutcome) -> Seq<char> {
    let (verdict, backend, cell) = match p.result.verdict {
        Verdict::Verified { backend, wall_clock_ms, .. } => (
            "✓ verified"@,
            spec_backend_label(backend),
            spec_ms_cell(wall_clock_ms),
        ),
        Verdict::Counterexample { backend, wall_clock_ms, .. } => (
            "✗ counterexample"@,
            spec_backend_label(backend),
            spec_ms_cell(wall_clock_ms),
        ),
        Verdict::Unknown { .. } => ("? unknown"@, "—"@, "—"@),
        Verdict::Error { .. } => ("! error"@, "—"@, "—"@),
    };
    "| `"@ + p.name@ + "` | "@ + verdict + " | "@ + backend + " | "@ + cell + " |\n"@
}

pub open spec fn spec_md_backend_line(o: BackendOutcome, with_state: bool) -> Seq<char> {
    if with_state {
        "- **"@ + spec_backend_label(o.backend) + "** ("@ + spec_state_debug(o.state) + ", "@
            + decimal(o.wall_clock_ms as nat) + " ms): "@ + o.detail@ + "\n"@
    } else {
        "- **"@ + spec_backend_label(o.backend) + "**: "@ + o.detail@ + "\n"@
    }
}

pub open spec fn spec_md_backend_lines(bs: Seq<BackendOutcome>, with_state: bool) -> Seq<char>
    decreases bs.len(),
{
    if bs.len() == 0 {
        Seq::empty()
    } else {
        spec_md_backend_lines(bs.drop_last(), with_state) + spec_md_backend_line(
            bs.last(),
            with_state,
        )
    }
}

/// The details block of one verdict.
pub open spec fn spec_detail_block(v: Verdict) -> Seq<char> {
    match v {
        Verdict::Verified { backend, wall_clock_ms, smt_query_sha256 } => "Verified by "@
            + spec_backend_label(backend) + " in "@ + decimal(wall_clock_ms as nat) + " ms.\n"@
            + match smt_query_sha256 {
            Some(h) => "\nSMT query SHA-256: `"@ + h@ + "`\n"@,
            None => Seq::empty(),
        },
        Verdict::Counterexample { backend, property, message, wall_clock_ms } =>
            "Counterexample from "@ + spec_backend_label(backend) + " ("@ + decimal(
            wall_clock_ms as nat,
        ) + " ms) for `"@ + property@ + "`:\n\n```\n"@ + message@ + "\n```\n"@,
        Verdict::Unknown { backends } => "Neither backend reached a verdict.\n\n"@
            + spec_md_backend_lines(backends@, true),
        Verdict::Error { backends } => "Both backends errored:\n\n"@ + spec_md_backend_lines(
            backends@,
            false,
        ),
    }
}

pub open spec fn spec_md_rows(ps: Seq<PropertyOutcome>) -> Seq<char>
    decreases ps.len(),
{
    if ps.len() == 0 {
        Seq::empty()
    } else {
        spec_md_rows(ps.drop_last()) + spec_md_row(ps.last())
    }
}

pub open spec fn spec_md_details(ps: Seq<PropertyOutcome>) -> Seq<char>
    decreases ps.len(),
{
    if ps.len() == 0 {
        Seq::empty()
    } else {
        spec_md_details(ps.drop_last()) + "### `"@ + ps.last().name@ + "`\n\n"@ + spec_detail_block(
            ps.last().result.verdict,
        ) + "\n"@
    }
}

/// The Markdown report of a verify run: a summary table, then the details
/// of each property.
pub open spec fn spec_render_markdown(r: VerifyReport) -> Seq<char> {
    "# Vergil verification report\n\n"@ + "**Project:** `"@ + r.project@ + "`\n\n"@
        + "**Properties checked:** "@ + decimal(r.properties.len() as nat) + "\n\n"@
        + "| Property | Verdict | Backend | Wall clock |\n"@ + "|---|---|---|---|\n"@ + spec_md_rows(
        r.properties@,
    ) + "\n## Details\n\n"@ + spec_md_details(r.properties@)
}

fn push_ms_cell(out: &mut String, ms: u64)
    ensures
        final(out)@ == old(out)@ + spec_ms_cell(ms),
{
    if ms >= 0x8000_0000_0000_0000 {
        out.append("—");
    } else {
        push_decimal(out, ms);
        out.append(" ms");
    }
}

#[verifier::spinoff_prover]
#[verifier::rlimit(40)]
fn push_md_row(out: &mut String, p: &PropertyOutcome)
    ensures
        final(out)@ == old(out)@ + spec_md_row(*p),
{
    let ghost o0 = out@;
    out.append("| `");
    out.append(p.name.as_str());
    out.append("` | ");
    match &p.result.verdict {
        Verdict::Verified { backend, wall_clock_ms, .. } => {
            out.append("✓ verified");
            out.append(" | ");
            out.append(backend_label(*backend).as_str());
            out.append(" | ");
            push_ms_cell(out, *wall_clock_ms);
        },
        Verdict::Counterexample { backend, wall_clock_ms, .. } => {
            out.append("✗ counterexample");
            out.append(" | ");
            out.append(backend_label(*backend).as_str());
            out.append(" | ");
            push_ms_cell(out, *wall_clock_ms);
        },
        Verdict::Unknown { .. } => {
            out.append("? unknown");
            out.append(" | ");
            out.append("—");
            out.append(" | ");
            out.append("—");
        },
        Verdict::Error { .. } => {
            out.append("! error");
            out.append(" | ");
            out.append("—");
            out.append(" | ");
            out.append("—");
        },
    }
    out.append(" |\n");
    assert(out@ =~= o0 + spec_md_row(*p));
}

fn push_md_backend_lines(out: &mut String, bs: &Vec<BackendOutcome>, with_state: bool)
    ensures
        final(out)@ == old(out)@ + spec_md_backend_lines(bs@, with_state),
{
    let mut i: usize = 0;
    while i < bs.len()
        invariant
            i <= bs.len(),
            out@ == old(out)@ + spec_md_backend_lines(bs@.take(i as int), with_state),
        decreases bs.len() - i,
    {
        proof {
            let t = bs@.take(i + 1);
            assert(t.drop_last() =~= bs@.take(i as int));
            assert(t.last() == bs@[i as int]);
        }
        let o = &bs[i];
        let ghost before = out@;
        out.append("- **");
        out.append(backend_label(o.backend).as_str());
        if with_state {
            out.append("** (");
            push_state_debug(out, o.state);
            out.append(", ");
            push_decimal(out, o.wall_clock_ms);
            out.append(" ms): ");
        } else {
            out.append("**: ");
        }
        out.append(o.detail.as_str());
        out.append("\n");
        assert(out@ =~= before + spec_md_backend_line(*o, with_state));
        i += 1;
    }
    assert(bs@.take(bs.len() as int) =~= bs@);
}

/// Appends the details block of one verdict.
pub fn push_detail_block(out: &mut String, v: &Verdict)
    ensures
        final(out)@ == old(out)@ + spec_detail_block(*v),
{
    let ghost o0 = out@;
    match v {
        Verdict::Verified { backend, wall_clock_ms, smt_query_sha256 } => {
            out.append("Verified by ");
            out.append(backend_label(*backend).as_str());
            out.append(" in ");
            push_decimal(out, *wall_clock_ms);
            out.append(" ms.\n");
            match smt_query_sha256 {
                Some(h) => {
                    out.append("\nSMT query SHA-256: `");
                    out.append(h.as_str());
                    out.append("`\n");
                },
                None => {},
            }
        },
        Verdict::Counterexample { backend, property, message, wall_clock_ms } => {
            out.append("Counterexample from ");
            out.append(backend_label(*backend).as_str());
            out.append(" (");
            push_decimal(out, *wall_clock_ms);
            out.append(" ms) for `");
            out.append(property.as_str());
            out.append("`:\n\n```\n");
            out.append(message.as_str());
            out.append("\n```\n");
        },
        Verdict::Unknown { backends } => {
            out.append("Neither backend reached a verdict.\n\n");
            push_md_backend_lines(out, backends, true);
        },
        Verdict::Error { backends } => {
            out.append("Both backends errored:\n\n");
            push_md_backend_lines(out, backends, false);
        },
    }
    assert(out@ =~= o0 + spec_detail_block(*v));
}

impl VerifyReport {
    /// The Markdown rendering of the run.
    pub fn render_markdown(&self) -> (r: String)
        ensures
            r@ == spec_render_markdown(*self),
    {
        let ps = &self.properties;
        let mut out = String::from_str("# Vergil verification report\n\n");
        out.append("**Project:** `");
        out.append(self.project.as_str());
        out.append("`\n\n");
        out.append("**Properties checked:** ");
        push_decimal(&mut out, ps.len() as u64);
        out.append("\n\n");
        out.append("| Property | Verdict | Backend | Wall clock |\n");
        out.append("|---|---|---|---|\n");
        let ghost head = out@;
        let mut i: usize = 0;
        while i < ps.len()
            invariant
                i <= ps.len(),
                out@ == head + spec_md_rows(ps@.take(i as int)),
            decreases ps.len() - i,
        {
            proof {
                let t = ps@.take(i + 1);
                assert(t.drop_last() =~= ps@.take(i as int));
                assert(t.last() == ps@[i as int]);
            }
            push_md_row(&mut out, &ps[i]);
            i += 1;
        }
        assert(ps@.take(ps.len() as int) =~= ps@);
        out.append("\n## Details\n\n");
        let ghost mid = out@;
        let mut k: usize = 0;
        while k < ps.len()
            invariant
                k <= ps.len(),
                out@ == mid + spec_md_details(ps@.take(k as int)),
            decreases ps.len() - k,
        {
            proof {
                let t = ps@.take(k + 1);
                assert(t.drop_last() =~= ps@.take(k as int));
                assert(t.last() == ps@[k as int]);
            }
            let ghost before = out@;
            out.append("### `");
            out.append(ps[k].name.as_str());
            out.append("`\n\n");
            push_detail_block(&mut out, &ps[k].result.verdict);
            out.append("\n");
            assert(out@ =~= mid + spec_md_details(ps@.take(k + 1)));
            k += 1;
        }
        assert(ps@.take(ps.len() as int) =~= ps@);
        assert(out@ =~= spec_render_markdown(*self));
        out
    }
}

} // verus!
