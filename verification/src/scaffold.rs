//! The verification harness a candidate's check function is injected
//! into: an explicit override, or one derived from the contracts declared
//! under `src/`. Reading the files is I/O.
use vstd::prelude::*;

use crate::text::{char_is_whitespace, spec_contains, spec_starts_with, spec_trim, spec_trim_start};

verus! {

/// Index of the first `\n` in `s`; its length when there is none.
pub open spec fn first_newline(s: Seq<char>) -> int
    decreases s.len(),
{
    if s.len() == 0 {
        0
    } else if s[0] == '\n' {
        0
    } else {
        1 + first_newline(s.drop_first())
    }
}

pub proof fn lemma_first_newline(s: Seq<char>)
    ensures
        0 <= first_newline(s) <= s.len(),
        forall|j: int| 0 <= j < first_newline(s) ==> s[j] != '\n',
        first_newline(s) < s.len() ==> s[first_newline(s)] == '\n',
    decreases s.len(),
{
    if s.len() > 0 && s[0] != '\n' {
        lemma_first_newline(s.drop_first());
        assert forall|j: int| 0 <= j < first_newline(s) implies s[j] != '\n' by {
            if j > 0 {
                assert(s[j] == s.drop_first()[j - 1]);
            }
        }
    }
}

/// The lines of a text as `str::lines` yields them: split at each `\n`
/// (a `\r` just before it is dropped), with no empty line after a final
/// `\n`.
pub open spec fn spec_lines(s: Seq<char>) -> Seq<Seq<char>>
    decreases s.len(),
{
    if s.len() == 0 {
        Seq::empty()
    } else {
        let i = first_newline(s);
        proof {
            lemma_first_newline(s);
        }
        if i < s.len() {
            let line = s.take(i);
            let line = if line.len() > 0 && line.last() == '\r' {
                line.drop_last()
            } else {
                line
            };
            seq![line] + spec_lines(s.skip(i + 1))
        } else {
            seq![s]
        }
    }
}

/// A character of a Solidity identifier as accepted here.
pub open spec fn is_ident_char(c: char) -> bool {
    ('0' <= c && c <= '9') || ('a' <= c && c <= 'z') || ('A' <= c && c <= 'Z') || c == '_'
}

/// Index in `rest` of the first whitespace or `{` (its length if none).
pub open spec fn name_end(rest: Seq<char>) -> int
    decreases rest.len(),
{
    if rest.len() == 0 {
        0
    } else if char_is_whitespace(rest[0]) || rest[0] == '{' {
        0
    } else {
        1 + name_end(rest.drop_first())
    }
}

/// The contract a line declares: a concrete `contract <Name>` (not
/// abstract, not a library or interface) whose name is a plain
/// identifier.
pub open spec fn spec_contract_on_line(line: Seq<char>) -> Option<Seq<char>> {
    let t = spec_trim_start(line);
    if spec_starts_with(t, "abstract"@) || spec_starts_with(t, "library"@) || spec_starts_with(
        t,
        "interface"@,
    ) {
        None
    } else if spec_starts_with(t, "contract "@) {
        let rest = t.skip(9);
        let name = spec_trim(rest.take(name_end(rest)));
        if name.len() > 0 && forall|k: int| 0 <= k < name.len() ==> is_ident_char(#[trigger] name[k]) {
            Some(name)
        } else {
            None
        }
    } else {
        None
    }
}

/// The contracts declared by a list of lines, in order.
pub open spec fn spec_contracts_of_lines(ls: Seq<Seq<char>>) -> Seq<Seq<char>>
    decreases ls.len(),
{
    if ls.len() == 0 {
        Seq::empty()
    } else {
        match spec_contract_on_line(ls[0]) {
            Some(n) => seq![n] + spec_contracts_of_lines(ls.drop_first()),
            None => spec_contracts_of_lines(ls.drop_first()),
        }
    }
}

/// The concrete contracts a Solidity source declares, in source order.
pub open spec fn spec_contract_names(source: Seq<char>) -> Seq<Seq<char>> {
    spec_contracts_of_lines(spec_lines(source))
}

proof fn lemma_name_end_bound(rest: Seq<char>)
    ensures
        0 <= name_end(rest) <= rest.len(),
    decreases rest.len(),
{
    if rest.len() > 0 && !(char_is_whitespace(rest[0]) || rest[0] == '{') {
        lemma_name_end_bound(rest.drop_first());
    }
}

fn contract_on_line(line: &Vec<char>) -> (r: Option<String>)
    ensures
        match r {
            Some(n) => spec_contract_on_line(line@) == Some(n@),
            None => spec_contract_on_line(line@) is None,
        },
{
    let t = crate::text::trim_start_chars(line);
    let ts = crate::text::from_chars(t.as_slice());
    if crate::text::starts_with(ts.as_str(), "abstract") || crate::text::starts_with(
        ts.as_str(),
        "library",
    ) || crate::text::starts_with(ts.as_str(), "interface") {
        return None;
    }
    if !crate::text::starts_with(ts.as_str(), "contract ") {
        return None;
    }
    proof {
        reveal_strlit("contract ");
    }
    let ghost rest = t@.skip(9);
    let mut e: usize = 9;
    assert(t@.skip(9) =~= rest);
    while e < t.len() && !crate::text::is_whitespace(t[e]) && t[e] != '{'
        invariant
            9 <= e <= t.len(),
            rest == t@.skip(9),
            name_end(rest) == (e - 9) + name_end(t@.skip(e as int)),
        decreases t.len() - e,
    {
        assert(t@.skip(e as int).drop_first() =~= t@.skip(e + 1));
        assert(t@.skip(e as int)[0] == t@[e as int]);
        e += 1;
    }
    proof {
        if e < t.len() {
            assert(t@.skip(e as int)[0] == t@[e as int]);
        }
        assert(name_end(t@.skip(e as int)) == 0);
        assert(rest.take(name_end(rest)) =~= t@.subrange(9, e as int));
    }
    let mut raw: Vec<char> = Vec::new();
    let mut k: usize = 9;
    while k < e
        invariant
            9 <= k <= e,
            e <= t.len(),
            raw@ == t@.subrange(9, k as int),
        decreases e - k,
    {
        raw.push(t[k]);
        assert(t@.subrange(9, k as int).push(t@[k as int]) =~= t@.subrange(9, k + 1));
        k += 1;
    }
    let name = crate::text::trim_chars(&raw);
    proof {
        assert(ts@ == t@);
        assert(name@ == spec_trim(rest.take(name_end(rest))));
    }
    if name.len() == 0 {
        return None;
    }
    let ghost expected = spec_contract_on_line(line@);
    assert(expected == if (forall|x: int| 0 <= x < name@.len() ==> is_ident_char(#[trigger] name@[x])) {
        Some(name@)
    } else {
        None::<Seq<char>>
    });
    let mut j: usize = 0;
    while j < name.len()
        invariant
            j <= name.len(),
            expected == spec_contract_on_line(line@),
            expected == if (forall|x: int| 0 <= x < name@.len() ==> is_ident_char(#[trigger] name@[x])) {
                Some(name@)
            } else {
                None::<Seq<char>>
            },
            forall|x: int| 0 <= x < j ==> is_ident_char(#[trigger] name@[x]),
        decreases name.len() - j,
    {
        let c = name[j];
        if !(('0' <= c && c <= '9') || ('a' <= c && c <= 'z') || ('A' <= c && c <= 'Z') || c == '_') {
            return None;
        }
        j += 1;
    }
    Some(crate::text::from_chars(name.as_slice()))
}

/// The line starting at `start` and where the next one starts.
fn next_line(v: &Vec<char>, start: usize) -> (r: (Vec<char>, usize))
    requires
        start < v.len(),
    ensures
        start < r.1 <= v.len(),
        spec_lines(v@.skip(start as int)) == seq![r.0@] + spec_lines(v@.skip(r.1 as int)),
{
    let ghost s = v@.skip(start as int);
    let mut i = start;
    while i < v.len() && v[i] != '\n'
        invariant
            start <= i <= v.len(),
            forall|j: int| start <= j < i ==> v@[j] != '\n',
        decreases v.len() - i,
    {
        i += 1;
    }
    let mut line: Vec<char> = Vec::new();
    let mut k = start;
    while k < i
        invariant
            start <= k <= i,
            i <= v.len(),
            line@ == v@.subrange(start as int, k as int),
        decreases i - k,
    {
        line.push(v[k]);
        assert(v@.subrange(start as int, k as int).push(v@[k as int]) =~= v@.subrange(
            start as int,
            k + 1,
        ));
        k += 1;
    }
    let ghost seg = line@;
    proof {
        lemma_first_newline(s);
        let w = first_newline(s);
        assert forall|j: int| 0 <= j < i - start implies s[j] != '\n' by {
            assert(s[j] == v@[start + j]);
        }
        if i < v.len() {
            assert(s[i - start] == v@[i as int]);
            if w < i - start {
                assert(s[w] == v@[start + w]);
            }
            assert(w == i - start);
            assert(s.take(w) =~= seg);
            assert(s.skip(w + 1) =~= v@.skip(i + 1));
        } else {
            assert(w == s.len());
        }
    }
    if i < v.len() && line.len() > 0 && line[line.len() - 1] == '\r' {
        line.pop();
    }
    if i < v.len() {
        (line, i + 1)
    } else {
        proof {
            assert(seg =~= s);
            assert(v@.skip(v.len() as int) =~= Seq::<char>::empty());
            assert(seq![s] + Seq::<Seq<char>>::empty() =~= seq![s]);
        }
        (line, v.len())
    }
}

/// Every concrete contract a Solidity source declares, in source order.
pub fn extract_all_contract_names(source: &str) -> (r: Vec<String>)
    ensures
        crate::text::views(r@) == spec_contract_names(source@),
{
    let v = crate::text::to_chars(source);
    let mut names: Vec<String> = Vec::new();
    let mut start: usize = 0;
    assert(v@.skip(0) =~= v@);
    while start < v.len()
        invariant
            start <= v.len(),
            v@ == source@,
            spec_contract_names(source@) == crate::text::views(names@) + spec_contracts_of_lines(
                spec_lines(v@.skip(start as int)),
            ),
        decreases v.len() - start,
    {
        let (line, next) = next_line(&v, start);
        let found = contract_on_line(&line);
        let ghost before = names@;
        let ghost rest = spec_lines(v@.skip(next as int));
        proof {
            let l = line@;
            assert((seq![l] + rest).drop_first() =~= rest);
            assert((seq![l] + rest)[0] == l);
        }
        match found {
            Some(n) => {
                names.push(n);
                proof {
                    assert(crate::text::views(names@) =~= crate::text::views(before).push(n@));
                    assert(crate::text::views(before) + (seq![n@] + spec_contracts_of_lines(rest))
                        =~= crate::text::views(names@) + spec_contracts_of_lines(rest));
                }
            },
            None => {},
        }
        start = next;
    }
    proof {
        assert(v@.skip(start as int) =~= Seq::<char>::empty());
        assert(crate::text::views(names@) + Seq::<Seq<char>>::empty() =~= crate::text::views(names@));
    }
    names
}

/// The first concrete contract a source declares.
pub fn extract_contract_name(source: &str) -> (r: Option<String>)
    ensures
        match r {
            Some(n) => spec_contract_names(source@).len() > 0 && n@ == spec_contract_names(source@)[0],
            None => spec_contract_names(source@).len() == 0,
        },
{
    let mut names = extract_all_contract_names(source);
    if names.len() == 0 {
        None
    } else {
        Some(names.remove(0))
    }
}

/// Assertion helpers in the forge-std style that synthesized checks call;
/// each reduces to a plain `assert`.
pub open spec fn assert_helpers() -> Seq<char> {
    "    // Foundry-style assertion helpers (synthesized candidates expect these).\n    function assertEq(uint256 a, uint256 b) internal pure { assert(a == b); }\n    function assertEq(address a, address b) internal pure { assert(a == b); }\n    function assertEq(bool a, bool b) internal pure { assert(a == b); }\n    function assertEq(bytes32 a, bytes32 b) internal pure { assert(a == b); }\n    function assertTrue(bool c) internal pure { assert(c); }\n    function assertFalse(bool c) internal pure { assert(!c); }\n    function assertGt(uint256 a, uint256 b) internal pure { assert(a > b); }\n    function assertGe(uint256 a, uint256 b) internal pure { assert(a >= b); }\n    function assertLt(uint256 a, uint256 b) internal pure { assert(a < b); }\n    function assertLe(uint256 a, uint256 b) internal pure { assert(a <= b); }"@
}

fn push_assert_helpers(out: &mut String)
    ensures
        final(out)@ == old(out)@ + assert_helpers(),
{
    out.append(
        "    // Foundry-style assertion helpers (synthesized candidates expect these).\n    function assertEq(uint256 a, uint256 b) internal pure { assert(a == b); }\n    function assertEq(address a, address b) internal pure { assert(a == b); }\n    function assertEq(bool a, bool b) internal pure { assert(a == b); }\n    function assertEq(bytes32 a, bytes32 b) internal pure { assert(a == b); }\n    function assertTrue(bool c) internal pure { assert(c); }\n    function assertFalse(bool c) internal pure { assert(!c); }\n    function assertGt(uint256 a, uint256 b) internal pure { assert(a > b); }\n    function assertGe(uint256 a, uint256 b) internal pure { assert(a >= b); }\n    function assertLt(uint256 a, uint256 b) internal pure { assert(a < b); }\n    function assertLe(uint256 a, uint256 b) internal pure { assert(a <= b); }",
    );
}

/// `(contract, file)` for every contract of every `(file, source)` pair,
/// in order.
pub open spec fn spec_scaffold_imports(files: Seq<(String, String)>) -> Seq<(Seq<char>, Seq<char>)>
    decreases files.len(),
{
    if files.len() == 0 {
        Seq::empty()
    } else {
        let f = files.last();
        spec_scaffold_imports(files.drop_last()) + spec_contract_names(f.1@).map_values(
            |n: Seq<char>| (n, f.0@),
        )
    }
}

/// The contracts the harness imports: each declared contract with the
/// file it lives in, over `(file name, source)` pairs in order.
pub fn scaffold_imports(files: &Vec<(String, String)>) -> (r: Vec<(String, String)>)
    ensures
        r@.map_values(|p: (String, String)| (p.0@, p.1@)) == spec_scaffold_imports(files@),
{
    let mut out: Vec<(String, String)> = Vec::new();
    let mut i: usize = 0;
    while i < files.len()
        invariant
            i <= files.len(),
            out@.map_values(|p: (String, String)| (p.0@, p.1@)) == spec_scaffold_imports(
                files@.take(i as int),
            ),
        decreases files.len() - i,
    {
        proof {
            let t = files@.take(i + 1);
            assert(t.drop_last() =~= files@.take(i as int));
            assert(t.last() == files@[i as int]);
        }
        let names = extract_all_contract_names(files[i].1.as_str());
        let ghost base = out@.map_values(|p: (String, String)| (p.0@, p.1@));
        let mut k: usize = 0;
        while k < names.len()
            invariant
                k <= names.len(),
                i < files.len(),
                crate::text::views(names@) == spec_contract_names(files@[i as int].1@),
                out@.map_values(|p: (String, String)| (p.0@, p.1@)) == base
                    + spec_contract_names(files@[i as int].1@).take(k as int).map_values(
                    |n: Seq<char>| (n, files@[i as int].0@),
                ),
            decreases names.len() - k,
        {
            let ghost before = out@;
            out.push((names[k].clone(), files[i].0.clone()));
            proof {
                let f = files@[i as int];
                let sn = spec_contract_names(f.1@);
                assert(sn[k as int] == names@[k as int]@);
                assert(sn.take(k + 1).map_values(|n: Seq<char>| (n, f.0@)) =~= sn.take(
                    k as int,
                ).map_values(|n: Seq<char>| (n, f.0@)).push((sn[k as int], f.0@)));
                assert(out@.map_values(|p: (String, String)| (p.0@, p.1@)) =~= before.map_values(
                    |p: (String, String)| (p.0@, p.1@),
                ).push((names@[k as int]@, f.0@)));
            }
            k += 1;
        }
        proof {
            let sn = spec_contract_names(files@[i as int].1@);
            assert(sn.take(names.len() as int) =~= sn);
        }
        i += 1;
    }
    assert(files@.take(files.len() as int) =~= files@);
    out
}

/// The harness for one contract, deployed as `token` by `deploy`.
pub open spec fn spec_single_scaffold(ident: Seq<char>, file: Seq<char>, deploy: Seq<char>) -> Seq<
    char,
> {
    "// SPDX-License-Identifier: MIT\npragma solidity ^0.8.20;\n\nimport {"@ + ident
        + "} from \"../src/"@ + file + "\";\n\ncontract CegisProperties {\n    "@ + ident
        + " internal token;\n\n    constructor() {\n        token = "@ + deploy
        + ";\n    }\n\n"@ + assert_helpers() + "\n    {{CHECK_FN}}\n}\n"@
}

pub open spec fn spec_import_lines(imports: Seq<(Seq<char>, Seq<char>)>) -> Seq<char>
    decreases imports.len(),
{
    if imports.len() == 0 {
        Seq::empty()
    } else {
        spec_import_lines(imports.drop_last()) + "import {"@ + imports.last().0
            + "} from \"../src/"@ + imports.last().1 + "\";\n"@
    }
}

/// The harness for several contracts: all imported, none deployed.
pub open spec fn spec_multi_scaffold(imports: Seq<(Seq<char>, Seq<char>)>) -> Seq<char> {
    "// SPDX-License-Identifier: MIT\npragma solidity ^0.8.20;\n\n"@ + spec_import_lines(imports)
        + "\n// Phase 4 Slice A4: multi-contract scaffold. Constructor signatures\n// vary across imported contracts so we leave instance creation to\n// each check_ function. Example pattern:\n//   function check_foo() external {\n//       Token t = new Token(1_000_000 ether);\n//       Vault v = new Vault(t);\n//       assert(v.totalAssets() == t.balanceOf(address(v)));\n//   }\ncontract CegisProperties {\n"@
        + assert_helpers() + "\n    {{CHECK_FN}}\n}\n"@
}

/// The deploy expression of the single contract: `new X(args)` with the
/// synthesized constructor arguments, or `new X()` when there are none.
pub open spec fn spec_deploy(ident: Seq<char>, ctor_args: Option<Seq<char>>) -> Seq<char> {
    match ctor_args {
        Some(a) => "new "@ + ident + "("@ + a + ")"@,
        None => "new "@ + ident + "()"@,
    }
}

/// The harness derived from the imported contracts: none without
/// contracts; one contract is deployed as `token`; several are imported
/// and left to the check functions to instantiate.
pub fn render_scaffold(imports: &Vec<(String, String)>, ctor_args: Option<String>) -> (r: Option<
    String,
>)
    ensures
        imports.len() == 0 <==> r is None,
        imports.len() == 1 ==> (r matches Some(s) && s@ == spec_single_scaffold(
            imports@[0].0@,
            imports@[0].1@,
            spec_deploy(
                imports@[0].0@,
                match ctor_args {
                    Some(a) => Some(a@),
                    None => None,
                },
            ),
        )),
        imports.len() > 1 ==> (r matches Some(s) && s@ == spec_multi_scaffold(
            imports@.map_values(|p: (String, String)| (p.0@, p.1@)),
        )),
{
    if imports.len() == 0 {
        return None;
    }
    if imports.len() == 1 {
        let ident = &imports[0].0;
        let file = &imports[0].1;
        let mut deploy = String::from_str("new ");
        deploy.append(ident.as_str());
        match &ctor_args {
            Some(a) => {
                deploy.append("(");
                deploy.append(a.as_str());
                deploy.append(")");
            },
            None => deploy.append("()"),
        }
        let mut out = String::from_str(
            "// SPDX-License-Identifier: MIT\npragma solidity ^0.8.20;\n\nimport {",
        );
        out.append(ident.as_str());
        out.append("} from \"../src/");
        out.append(file.as_str());
        out.append("\";\n\ncontract CegisProperties {\n    ");
        out.append(ident.as_str());
        out.append(" internal token;\n\n    constructor() {\n        token = ");
        out.append(deploy.as_str());
        out.append(";\n    }\n\n");
        push_assert_helpers(&mut out);
        out.append("\n    {{CHECK_FN}}\n}\n");
        return Some(out);
    }
    let ghost iv = imports@.map_values(|p: (String, String)| (p.0@, p.1@));
    let mut lines = String::new();
    let mut i: usize = 0;
    while i < imports.len()
        invariant
            i <= imports.len(),
            iv == imports@.map_values(|p: (String, String)| (p.0@, p.1@)),
            lines@ == spec_import_lines(iv.take(i as int)),
        decreases imports.len() - i,
    {
        proof {
            let t = iv.take(i + 1);
            assert(t.drop_last() =~= iv.take(i as int));
        }
        let ghost before = lines@;
        lines.append("import {");
        lines.append(imports[i].0.as_str());
        lines.append("} from \"../src/");
        lines.append(imports[i].1.as_str());
        lines.append("\";\n");
        assert(lines@ =~= spec_import_lines(iv.take(i + 1)));
        i += 1;
    }
    assert(iv.take(imports.len() as int) =~= iv);
    let mut out = String::from_str("// SPDX-License-Identifier: MIT\npragma solidity ^0.8.20;\n\n");
    out.append(lines.as_str());
    out.append(
        "\n// Phase 4 Slice A4: multi-contract scaffold. Constructor signatures\n// vary across imported contracts so we leave instance creation to\n// each check_ function. Example pattern:\n//   function check_foo() external {\n//       Token t = new Token(1_000_000 ether);\n//       Vault v = new Vault(t);\n//       assert(v.totalAssets() == t.balanceOf(address(v)));\n//   }\ncontract CegisProperties {\n",
    );
    push_assert_helpers(&mut out);
    out.append("\n    {{CHECK_FN}}\n}\n");
    Some(out)
}

/// Checks a scaffold given with `--scaffold`: its text when it could be
/// read and holds the `{{CHECK_FN}}` placeholder, otherwise the error.
pub fn check_scaffold_override(path: &str, body: Result<String, String>) -> (r: Result<
    String,
    String,
>)
    ensures
        match body {
            Err(e) => r matches Err(m) && m@ == "could not read scaffold "@ + path@ + ": "@ + e@,
            Ok(b) => if spec_contains(b@, "{{CHECK_FN}}"@) {
                r == Ok::<String, String>(b)
            } else {
                r matches Err(m) && m@ == "scaffold "@ + path@
                    + " must contain `{{CHECK_FN}}` placeholder"@
            },
        },
{
    match body {
        Err(e) => {
            let mut m = String::from_str("could not read scaffold ");
            m.append(path);
            m.append(": ");
            m.append(e.as_str());
            Err(m)
        },
        Ok(b) => {
            if crate::text::contains(b.as_str(), "{{CHECK_FN}}") {
                Ok(b)
            } else {
                let mut m = String::from_str("scaffold ");
                m.append(path);
                m.append(" must contain `{{CHECK_FN}}` placeholder");
                Err(m)
            }
        },
    }
}

/// The harness to use: the checked override when one was given;
/// otherwise the derived one, or the reference ERC-20 harness when none
/// could be derived.
pub fn resolve_scaffold(checked_override: Option<Result<String, String>>, derived: Option<String>) -> (r:
    Result<String, String>)
    ensures
        match checked_override {
            Some(c) => r == c,
            None => match derived {
                Some(d) => r == Ok::<String, String>(d),
                None => r matches Ok(s) && s@ == crate::dispatcher::spec_erc20_scaffold(),
            },
        },
{
    match checked_override {
        Some(c) => c,
        None => match derived {
            Some(d) => Ok(d),
            None => Ok(crate::dispatcher::default_scaffold_for_erc20()),
        },
    }
}

} // verus!
