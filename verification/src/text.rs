//! Character-level text helpers shared by the renderers and parsers.
//!
//! Every helper is stated over the `Seq<char>` view of its strings.
use vstd::prelude::*;

verus! {

/// What `char::is_whitespace` answers for a character.
pub uninterp spec fn char_is_whitespace(c: char) -> bool;

/// Calls `char::is_whitespace`. Claims: the answer is the named result
/// `char_is_whitespace(c)`, and for ASCII characters it is exactly the
/// space and the controls U+0009 to U+000D, as the documentation's
/// White_Space property lists them.
#[verifier::external_body]
pub(crate) fn is_whitespace(c: char) -> (r: bool)
    ensures
        r == char_is_whitespace(c),
        (c as u32) < 128 ==> (r <==> (c == ' ' || (9 <= (c as u32) && (c as u32) <= 13))),
{
    c.is_whitespace()
}

/// Calls `String::push`. Claims: the character is appended at the end.
#[verifier::external_body]
pub(crate) fn push_char(s: &mut String, c: char)
    ensures
        final(s)@ == old(s)@.push(c),
{
    s.push(c)
}

/// The characters of `s` as a vector.
pub fn to_chars(s: &str) -> (v: Vec<char>)
    ensures
        v@ == s@,
{
    let mut v: Vec<char> = Vec::new();
    for c in it: s.chars()
        invariant
            v@ == it.seq().take(it.index() as int),
            it.seq() == s@,
    {
        v.push(c);
    }
    v
}

/// A string holding exactly the characters of `v`.
pub fn from_chars(v: &[char]) -> (s: String)
    ensures
        s@ == v@,
{
    let mut s = String::new();
    let mut i: usize = 0;
    while i < v.len()
        invariant
            i <= v.len(),
            s@ == v@.take(i as int),
        decreases v.len() - i,
    {
        push_char(&mut s, v[i]);
        assert(v@.take(i as int).push(v@[i as int]) =~= v@.take(i + 1));
        i += 1;
    }
    assert(v@.take(v.len() as int) =~= v@);
    s
}

/// `t` occurs in `s` starting at index `i`.
pub open spec fn occurs_at(s: Seq<char>, t: Seq<char>, i: int) -> bool {
    0 <= i && i + t.len() <= s.len() && s.subrange(i, i + t.len()) == t
}

/// `t` occurs somewhere in `s`.
pub open spec fn spec_contains(s: Seq<char>, t: Seq<char>) -> bool {
    exists|i: int| occurs_at(s, t, i)
}

/// `p` is a prefix of `s`.
pub open spec fn spec_starts_with(s: Seq<char>, p: Seq<char>) -> bool {
    p.len() <= s.len() && s.subrange(0, p.len() as int) == p
}

/// `p` is a suffix of `s`.
pub open spec fn spec_ends_with(s: Seq<char>, p: Seq<char>) -> bool {
    p.len() <= s.len() && s.subrange(s.len() - p.len(), s.len() as int) == p
}

/// Does `t` occur in `s` at index `i`? Works on character vectors.
fn matches_at(s: &Vec<char>, t: &Vec<char>, i: usize) -> (b: bool)
    requires
        i + t.len() <= s.len(),
    ensures
        b == occurs_at(s@, t@, i as int),
{
    let mut j: usize = 0;
    while j < t.len()
        invariant
            j <= t.len(),
            i + t.len() <= s.len(),
            forall|k: int| 0 <= k < j ==> s@[i + k] == t@[k],
        decreases t.len() - j,
    {
        if s[i + j] != t[j] {
            assert(s@.subrange(i as int, i + t.len())[j as int] != t@[j as int]);
            return false;
        }
        j += 1;
    }
    assert(s@.subrange(i as int, i + t.len()) =~= t@);
    true
}

/// Index of the first occurrence of `t` in `s` at or after `from`, over
/// character vectors.
pub fn find_from(s: &Vec<char>, t: &Vec<char>, from: usize) -> (r: Option<usize>)
    ensures
        match r {
            Some(i) => from <= i && occurs_at(s@, t@, i as int) && forall|k: int|
                from <= k < i ==> !occurs_at(s@, t@, k),
            None => forall|k: int| from <= k ==> !occurs_at(s@, t@, k),
        },
{
    if t.len() > s.len() {
        return None;
    }
    if t.len() == 0 {
        if from <= s.len() {
            assert(s@.subrange(from as int, from as int) =~= t@);
            return Some(from);
        }
        return None;
    }
    let last = s.len() - t.len();
    let mut i = from;
    while i <= last
        invariant
            from <= i,
            last == s.len() - t.len(),
            1 <= t.len() <= s.len(),
            forall|k: int| from <= k < i ==> !occurs_at(s@, t@, k),
        decreases last + 1 - i,
    {
        if matches_at(s, t, i) {
            return Some(i);
        }
        i += 1;
    }
    None
}

/// Does `t` occur in `s`? (`str::contains` for a string needle.)
pub fn contains(s: &str, t: &str) -> (b: bool)
    ensures
        b == spec_contains(s@, t@),
{
    let sv = to_chars(s);
    let tv = to_chars(t);
    match find_from(&sv, &tv, 0) {
        Some(i) => true,
        None => {
            assert forall|k: int| !occurs_at(s@, t@, k) by {
                if k < 0 {
                }
            }
            false
        },
    }
}

/// Does `s` start with `p`?
pub fn starts_with(s: &str, p: &str) -> (b: bool)
    ensures
        b == spec_starts_with(s@, p@),
{
    let sv = to_chars(s);
    let pv = to_chars(p);
    if pv.len() > sv.len() {
        return false;
    }
    let r = matches_at(&sv, &pv, 0);
    assert(occurs_at(s@, p@, 0) == spec_starts_with(s@, p@));
    r
}

/// Does `s` end with `p`?
pub fn ends_with(s: &str, p: &str) -> (b: bool)
    ensures
        b == spec_ends_with(s@, p@),
{
    let sv = to_chars(s);
    let pv = to_chars(p);
    if pv.len() > sv.len() {
        return false;
    }
    let r = matches_at(&sv, &pv, sv.len() - pv.len());
    r
}

/// The characters `s` keeps after leading whitespace is removed.
pub open spec fn spec_trim_start(s: Seq<char>) -> Seq<char>
    decreases s.len(),
{
    if s.len() > 0 && char_is_whitespace(s[0]) {
        spec_trim_start(s.drop_first())
    } else {
        s
    }
}

/// The characters `s` keeps after trailing whitespace is removed.
pub open spec fn spec_trim_end(s: Seq<char>) -> Seq<char>
    decreases s.len(),
{
    if s.len() > 0 && char_is_whitespace(s.last()) {
        spec_trim_end(s.drop_last())
    } else {
        s
    }
}

/// `str::trim`: both ends stripped of whitespace.
pub open spec fn spec_trim(s: Seq<char>) -> Seq<char> {
    spec_trim_end(spec_trim_start(s))
}

/// Index of the first character of `v` at or after `i` that is not
/// whitespace; `v.len()` when there is none.
fn skip_ws_forward(v: &Vec<char>, i: usize) -> (r: usize)
    requires
        i <= v.len(),
    ensures
        i <= r <= v.len(),
        spec_trim_start(v@.subrange(i as int, v.len() as int)) == v@.subrange(
            r as int,
            v.len() as int,
        ),
    decreases v.len() - i,
{
    if i < v.len() && is_whitespace(v[i]) {
        assert(v@.subrange(i as int, v.len() as int).drop_first() =~= v@.subrange(
            i + 1,
            v.len() as int,
        ));
        skip_ws_forward(v, i + 1)
    } else {
        proof {
            r_same(v@, i as int);
        }
        i
    }
}

proof fn r_same(s: Seq<char>, i: int)
    requires
        0 <= i <= s.len(),
        i < s.len() ==> !char_is_whitespace(s[i]),
    ensures
        spec_trim_start(s.subrange(i, s.len() as int)) == s.subrange(i, s.len() as int),
{
    let t = s.subrange(i, s.len() as int);
    if t.len() > 0 {
        assert(t[0] == s[i]);
    }
}

/// Index one past the last character of `v[..j]` that is not whitespace.
fn skip_ws_backward(v: &Vec<char>, lo: usize, j: usize) -> (r: usize)
    requires
        lo <= j <= v.len(),
    ensures
        lo <= r <= j,
        spec_trim_end(v@.subrange(lo as int, j as int)) == v@.subrange(lo as int, r as int),
    decreases j - lo,
{
    if j > lo && is_whitespace(v[j - 1]) {
        assert(v@.subrange(lo as int, j as int).drop_last() =~= v@.subrange(
            lo as int,
            j - 1,
        ));
        assert(v@.subrange(lo as int, j as int).last() == v@[j - 1]);
        skip_ws_backward(v, lo, j - 1)
    } else {
        proof {
            let t = v@.subrange(lo as int, j as int);
            if t.len() > 0 {
                assert(t.last() == v@[j - 1]);
            }
        }
        j
    }
}

/// `str::trim` on a character vector.
pub fn trim_chars(v: &Vec<char>) -> (r: Vec<char>)
    ensures
        r@ == spec_trim(v@),
{
    let a = skip_ws_forward(v, 0);
    assert(v@.subrange(0, v.len() as int) =~= v@);
    let b = skip_ws_backward(v, a, v.len());
    let mut r: Vec<char> = Vec::new();
    let mut k = a;
    while k < b
        invariant
            a <= k <= b,
            b <= v.len(),
            r@ == v@.subrange(a as int, k as int),
        decreases b - k,
    {
        r.push(v[k]);
        assert(v@.subrange(a as int, k as int).push(v@[k as int]) =~= v@.subrange(
            a as int,
            k + 1,
        ));
        k += 1;
    }
    r
}

/// `str::trim_start` on a character vector.
pub fn trim_start_chars(v: &Vec<char>) -> (r: Vec<char>)
    ensures
        r@ == spec_trim_start(v@),
{
    let a = skip_ws_forward(v, 0);
    assert(v@.subrange(0, v.len() as int) =~= v@);
    let mut r: Vec<char> = Vec::new();
    let mut k = a;
    while k < v.len()
        invariant
            a <= k <= v.len(),
            r@ == v@.subrange(a as int, k as int),
        decreases v.len() - k,
    {
        r.push(v[k]);
        assert(v@.subrange(a as int, k as int).push(v@[k as int]) =~= v@.subrange(
            a as int,
            k + 1,
        ));
        k += 1;
    }
    r
}

/// `str::trim`.
pub fn trim(s: &str) -> (r: String)
    ensures
        r@ == spec_trim(s@),
{
    let v = to_chars(s);
    let t = trim_chars(&v);
    from_chars(t.as_slice())
}

/// The character of a decimal digit.
pub open spec fn digit_char(d: nat) -> char {
    if d == 0 {
        '0'
    } else if d == 1 {
        '1'
    } else if d == 2 {
        '2'
    } else if d == 3 {
        '3'
    } else if d == 4 {
        '4'
    } else if d == 5 {
        '5'
    } else if d == 6 {
        '6'
    } else if d == 7 {
        '7'
    } else if d == 8 {
        '8'
    } else {
        '9'
    }
}

/// Decimal notation of a natural number, as `Display` prints an unsigned
/// integer: no sign, no leading zeros.
pub open spec fn decimal(n: nat) -> Seq<char>
    decreases n,
{
    if n < 10 {
        seq![digit_char(n)]
    } else {
        decimal(n / 10).push(digit_char(n % 10))
    }
}

fn digit(d: u64) -> (c: char)
    requires
        d < 10,
    ensures
        c == digit_char(d as nat),
{
    if d == 0 {
        '0'
    } else if d == 1 {
        '1'
    } else if d == 2 {
        '2'
    } else if d == 3 {
        '3'
    } else if d == 4 {
        '4'
    } else if d == 5 {
        '5'
    } else if d == 6 {
        '6'
    } else if d == 7 {
        '7'
    } else if d == 8 {
        '8'
    } else {
        '9'
    }
}

/// Appends the decimal notation of `n`.
pub fn push_decimal(out: &mut String, n: u64)
    ensures
        final(out)@ == old(out)@ + decimal(n as nat),
    decreases n,
{
    if n < 10 {
        push_char(out, digit(n));
        assert(old(out)@.push(digit_char(n as nat)) =~= old(out)@ + seq![digit_char(n as nat)]);
    } else {
        push_decimal(out, n / 10);
        push_char(out, digit(n % 10));
        assert(old(out)@ + decimal((n / 10) as nat).push(digit_char((n % 10) as nat)) =~= (
        old(out)@ + decimal((n / 10) as nat)).push(digit_char((n % 10) as nat)));
    }
}

/// Decimal notation of `n` (`n.to_string()`).
pub fn decimal_string(n: u64) -> (s: String)
    ensures
        s@ == decimal(n as nat),
{
    let mut s = String::new();
    push_decimal(&mut s, n);
    assert(Seq::<char>::empty() + decimal(n as nat) =~= decimal(n as nat));
    s
}

/// The texts of a list of strings.
pub open spec fn views(xs: Seq<String>) -> Seq<Seq<char>> {
    xs.map_values(|x: String| x@)
}

/// `xs` joined with `sep` between consecutive items (`[..].join(sep)`).
pub open spec fn spec_join(xs: Seq<Seq<char>>, sep: Seq<char>) -> Seq<char>
    decreases xs.len(),
{
    if xs.len() == 0 {
        Seq::empty()
    } else if xs.len() == 1 {
        xs[0]
    } else {
        spec_join(xs.drop_last(), sep) + sep + xs.last()
    }
}

/// Joins the strings with `sep` between consecutive items.
pub fn join_strings(items: &Vec<String>, sep: &str) -> (r: String)
    ensures
        r@ == spec_join(views(items@), sep@),
{
    let mut out = String::new();
    let mut i: usize = 0;
    while i < items.len()
        invariant
            i <= items.len(),
            out@ == spec_join(views(items@.take(i as int)), sep@),
        decreases items.len() - i,
    {
        proof {
            let t = views(items@.take(i + 1));
            assert(t.drop_last() =~= views(items@.take(i as int)));
            assert(t.last() == items@[i as int]@);
            if i == 0 {
                assert(t.len() == 1);
                assert(Seq::<char>::empty() + items@[0]@ =~= items@[0]@);
            }
        }
        if i > 0 {
            out.append(sep);
        }
        out.append(items[i].as_str());
        i += 1;
    }
    assert(items@.take(items.len() as int) =~= items@);
    out
}

/// `true` or `false`, as `Display` prints a `bool`.
pub open spec fn spec_bool_text(b: bool) -> Seq<char> {
    if b {
        "true"@
    } else {
        "false"@
    }
}

/// Appends `true` or `false`.
pub fn push_bool(out: &mut String, b: bool)
    ensures
        final(out)@ == old(out)@ + spec_bool_text(b),
{
    if b {
        out.append("true");
    } else {
        out.append("false");
    }
}

/// `s` with every occurrence of the non-empty `p` replaced by `r`,
/// scanning left to right without overlaps (`str::replace`).
pub open spec fn spec_replace(s: Seq<char>, p: Seq<char>, r: Seq<char>) -> Seq<char>
    recommends
        p.len() > 0,
    decreases s.len(),
{
    if s.len() < p.len() || p.len() == 0 {
        s
    } else if spec_starts_with(s, p) {
        r + spec_replace(s.skip(p.len() as int), p, r)
    } else {
        seq![s[0]] + spec_replace(s.drop_first(), p, r)
    }
}

/// Replaces every occurrence of the non-empty `p` in `s` by `r`.
pub fn replace_all(s: &str, p: &str, r: &str) -> (out: String)
    requires
        p@.len() > 0,
    ensures
        out@ == spec_replace(s@, p@, r@),
{
    let sv = to_chars(s);
    let pv = to_chars(p);
    let mut out = String::new();
    let mut i: usize = 0;
    assert(sv@.skip(0) =~= sv@);
    while pv.len() <= sv.len() - i
        invariant
            i <= sv.len(),
            sv@ == s@,
            pv@ == p@,
            pv.len() > 0,
            out@ + spec_replace(sv@.skip(i as int), p@, r@) == spec_replace(s@, p@, r@),
        decreases sv.len() - i,
    {
        let ghost t = sv@.skip(i as int);
        if matches_at(&sv, &pv, i) {
            proof {
                assert(t.subrange(0, pv.len() as int) =~= sv@.subrange(i as int, i + pv.len()));
                assert(t.skip(pv.len() as int) =~= sv@.skip(i + pv.len()));
                assert(out@ + r@ + spec_replace(sv@.skip(i + pv.len()), p@, r@) =~= out@ + (r@
                    + spec_replace(sv@.skip(i + pv.len()), p@, r@)));
            }
            out.append(r);
            i += pv.len();
        } else {
            proof {
                assert(t.subrange(0, pv.len() as int) =~= sv@.subrange(i as int, i + pv.len()));
                assert(t.drop_first() =~= sv@.skip(i + 1));
                assert(t[0] == sv@[i as int]);
                assert(out@.push(sv@[i as int]) + spec_replace(sv@.skip(i + 1), p@, r@) =~= out@
                    + (seq![sv@[i as int]] + spec_replace(sv@.skip(i + 1), p@, r@)));
            }
            push_char(&mut out, sv[i]);
            i += 1;
        }
    }
    let ghost tail = sv@.skip(i as int);
    assert(spec_replace(tail, p@, r@) == tail);
    let mut k = i;
    while k < sv.len()
        invariant
            i <= k <= sv.len(),
            out@ + sv@.skip(k as int) == spec_replace(s@, p@, r@),
        decreases sv.len() - k,
    {
        proof {
            assert(out@.push(sv@[k as int]) + sv@.skip(k + 1) =~= out@ + sv@.skip(k as int));
        }
        push_char(&mut out, sv[k]);
        k += 1;
    }
    assert(out@ + sv@.skip(k as int) =~= out@);
    out
}

/// `a` comes strictly before `b` in lexicographic order of characters
/// (the order of `String`'s `Ord`: UTF-8 preserves code-point order).
pub open spec fn lex_lt(a: Seq<char>, b: Seq<char>) -> bool
    decreases a.len(),
{
    if a.len() == 0 {
        b.len() > 0
    } else if b.len() == 0 {
        false
    } else if a[0] != b[0] {
        a[0] < b[0]
    } else {
        lex_lt(a.drop_first(), b.drop_first())
    }
}

pub proof fn lemma_lex_irreflexive(a: Seq<char>)
    ensures
        !lex_lt(a, a),
    decreases a.len(),
{
    if a.len() > 0 {
        lemma_lex_irreflexive(a.drop_first());
    }
}

pub proof fn lemma_lex_total(a: Seq<char>, b: Seq<char>)
    ensures
        a == b || lex_lt(a, b) || lex_lt(b, a),
    decreases a.len(),
{
    if a.len() > 0 && b.len() > 0 && a[0] == b[0] {
        lemma_lex_total(a.drop_first(), b.drop_first());
        if a.drop_first() == b.drop_first() {
            assert(a =~= seq![a[0]] + a.drop_first());
            assert(b =~= seq![b[0]] + b.drop_first());
        }
    } else if a.len() == 0 && b.len() == 0 {
        assert(a =~= b);
    }
}

pub proof fn lemma_lex_transitive(a: Seq<char>, b: Seq<char>, c: Seq<char>)
    requires
        lex_lt(a, b),
        lex_lt(b, c),
    ensures
        lex_lt(a, c),
    decreases a.len(),
{
    if a.len() > 0 && b.len() > 0 && c.len() > 0 && a[0] == b[0] && b[0] == c[0] {
        lemma_lex_transitive(a.drop_first(), b.drop_first(), c.drop_first());
    }
}

pub proof fn lemma_lex_asymmetric(a: Seq<char>, b: Seq<char>)
    requires
        lex_lt(a, b),
    ensures
        !lex_lt(b, a),
    decreases a.len(),
{
    if a.len() > 0 && b.len() > 0 && a[0] == b[0] {
        lemma_lex_asymmetric(a.drop_first(), b.drop_first());
    }
}

/// Does `a` come strictly before `b`?
pub fn str_lt(a: &str, b: &str) -> (r: bool)
    ensures
        r == lex_lt(a@, b@),
{
    let av = to_chars(a);
    let bv = to_chars(b);
    let mut i: usize = 0;
    assert(a@.skip(0) =~= a@);
    assert(b@.skip(0) =~= b@);
    while i < av.len() && i < bv.len() && av[i] == bv[i]
        invariant
            i <= av.len(),
            i <= bv.len(),
            av@ == a@,
            bv@ == b@,
            lex_lt(a@, b@) == lex_lt(a@.skip(i as int), b@.skip(i as int)),
        decreases av.len() - i,
    {
        proof {
            let sa = a@.skip(i as int);
            let sb = b@.skip(i as int);
            assert(sa.drop_first() =~= a@.skip(i + 1));
            assert(sb.drop_first() =~= b@.skip(i + 1));
        }
        i += 1;
    }
    proof {
        let sa = a@.skip(i as int);
        let sb = b@.skip(i as int);
        if i < av.len() {
            assert(sa[0] == a@[i as int]);
        }
        if i < bv.len() {
            assert(sb[0] == b@[i as int]);
        }
    }
    if i == av.len() {
        i < bv.len()
    } else if i == bv.len() {
        false
    } else {
        av[i] < bv[i]
    }
}

/// Strictly increasing in lexicographic order (hence without repeats).
pub open spec fn sorted_unique(xs: Seq<Seq<char>>) -> bool {
    forall|i: int, j: int| 0 <= i < j < xs.len() ==> lex_lt(#[trigger] xs[i], #[trigger] xs[j])
}

/// Inserts `x` into a sorted list without repeats, keeping it so; nothing
/// changes when `x` is already there.
pub fn insert_sorted(v: &mut Vec<String>, x: String)
    requires
        sorted_unique(views(old(v)@)),
    ensures
        sorted_unique(views(final(v)@)),
        views(final(v)@).to_set() == views(old(v)@).to_set().insert(x@),
{
    let ghost old_v = views(v@);
    let mut i: usize = 0;
    while i < v.len() && str_lt(v[i].as_str(), x.as_str())
        invariant
            i <= v.len(),
            views(v@) == old_v,
            sorted_unique(old_v),
            forall|k: int| 0 <= k < i ==> lex_lt(#[trigger] old_v[k], x@),
        decreases v.len() - i,
    {
        i += 1;
    }
    if i < v.len() && v[i] == x {
        proof {
            assert(old_v[i as int] == x@);
            assert(views(v@).to_set() =~= old_v.to_set().insert(x@));
        }
        return;
    }
    proof {
        if i < v.len() {
            lemma_lex_total(v@[i as int]@, x@);
            assert(old_v[i as int] == v@[i as int]@);
            assert(lex_lt(x@, old_v[i as int]));
            assert forall|k: int| i < k < old_v.len() implies lex_lt(x@, #[trigger] old_v[k]) by {
                lemma_lex_transitive(x@, old_v[i as int], old_v[k]);
            }
        }
    }
    v.insert(i, x);
    proof {
        let nv = views(v@);
        assert(nv =~= old_v.insert(i as int, x@));
        assert forall|a: int, b: int| 0 <= a < b < nv.len() implies lex_lt(#[trigger] nv[a], #[trigger] nv[b]) by {
            if b < i {
            } else if a < i && b == i {
            } else if a < i && b > i {
                assert(nv[b] == old_v[b - 1]);
                assert(lex_lt(x@, old_v[b - 1]));
                lemma_lex_transitive(nv[a], x@, nv[b]);
            } else if a == i {
                assert(nv[b] == old_v[b - 1]);
            }
        }
        assert forall|y: Seq<char>| nv.to_set().contains(y) <==> old_v.to_set().insert(x@).contains(y) by {
            if nv.to_set().contains(y) {
                let k = choose|k: int| 0 <= k < nv.len() && nv[k] == y;
                if k < i {
                    assert(old_v[k] == y);
                } else if k > i {
                    assert(old_v[k - 1] == y);
                }
            }
            if old_v.to_set().contains(y) {
                let k = choose|k: int| 0 <= k < old_v.len() && old_v[k] == y;
                if k < i {
                    assert(nv[k] == y);
                } else {
                    assert(nv[k + 1] == y);
                }
            }
            if y == x@ {
                assert(nv[i as int] == y);
            }
        }
        assert(nv.to_set() =~= old_v.to_set().insert(x@));
    }
}

/// Non-decreasing in lexicographic order; repeats allowed.
pub open spec fn sorted_le(xs: Seq<Seq<char>>) -> bool {
    forall|i: int, j: int| 0 <= i < j < xs.len() ==> !lex_lt(#[trigger] xs[j], #[trigger] xs[i])
}

/// Inserts `x` after every element not greater than it, keeping the list
/// non-decreasing; repeats stay.
pub fn insert_sorted_keep(v: &mut Vec<String>, x: String)
    requires
        sorted_le(views(old(v)@)),
    ensures
        sorted_le(views(final(v)@)),
        views(final(v)@).to_multiset() == views(old(v)@).to_multiset().insert(x@),
{
    let ghost old_v = views(v@);
    let ghost xv = x@;
    let mut j: usize = 0;
    while j < v.len() && !str_lt(x.as_str(), v[j].as_str())
        invariant
            j <= v.len(),
            views(v@) == old_v,
            xv == x@,
            sorted_le(old_v),
            forall|k: int| 0 <= k < j ==> !lex_lt(xv, #[trigger] old_v[k]),
        decreases v.len() - j,
    {
        j += 1;
    }
    proof {
        if j < v.len() {
            assert(old_v[j as int] == v@[j as int]@);
        }
    }
    v.insert(j, x);
    proof {
        let nv = views(v@);
        assert(nv =~= old_v.insert(j as int, xv));
        assert forall|a: int, b: int| 0 <= a < b < nv.len() implies !lex_lt(#[trigger] nv[b], #[trigger] nv[a]) by {
            if a < j && b > j {
                assert(nv[b] == old_v[b - 1]);
                assert(nv[a] == old_v[a]);
            } else if a == j {
                assert(nv[b] == old_v[b - 1]);
                if lex_lt(old_v[b - 1], xv) {
                    lemma_lex_transitive(old_v[b - 1], xv, old_v[j as int]);
                    if b - 1 == j {
                        lemma_lex_irreflexive(old_v[j as int]);
                    }
                }
            } else if a > j {
                assert(nv[b] == old_v[b - 1]);
                assert(nv[a] == old_v[a - 1]);
            }
        }
        vstd::seq_lib::to_multiset_insert(old_v, j as int, xv);
    }
}

} // verus!
