//! Stage 0 of the workflow: the project fingerprint. Reading the sources
//! and running the outside detectors is I/O; what is decided here is which
//! interface and primitive tags the joined source earns.
use vstd::prelude::*;

use crate::text::{contains, insert_sorted, sorted_unique, spec_contains, views};

verus! {

/// Which oracle inputs the project provides.
#[derive(Debug, Clone)]
pub struct AvailableOracles {
    /// At least one test was parsed.
    pub tests: bool,
    /// At least one NatSpec block was parsed.
    pub natspec: bool,
    /// The README found at the project root, if any.
    pub readme: Option<String>,
    /// Reserved for a recognized-fork detector; always `None`.
    pub recognized_fork: Option<String>,
}

/// Why a project could not be fingerprinted.
#[derive(Debug)]
pub enum FingerprintError {
    /// Missing, not a directory, or without `foundry.toml`.
    NotAProject(String),
    /// A file could not be read.
    Io { path: String, message: String },
}

impl FingerprintError {
    /// The error's message.
    pub fn message(&self) -> (r: String)
        ensures
            r@ == match *self {
                FingerprintError::NotAProject(p) => "not a Foundry project: "@ + p@,
                FingerprintError::Io { path, message } => "read "@ + path@ + ": "@ + message@,
            },
    {
        match self {
            FingerprintError::NotAProject(p) => {
                let mut r = String::from_str("not a Foundry project: ");
                r.append(p.as_str());
                r
            },
            FingerprintError::Io { path, message } => {
                let mut r = String::from_str("read ");
                r.append(path.as_str());
                r.append(": ");
                r.append(message.as_str());
                r
            },
        }
    }
}

/// The storage and function shapes of the joined source that imply an
/// interface the function-signature detector cannot see.
pub open spec fn has(j: Seq<char>, t: Seq<char>) -> bool {
    spec_contains(j, t)
}

pub open spec fn erc721_shape(j: Seq<char>) -> bool {
    has(j, "ownerOf"@) && (has(j, "safeTransferFrom"@) || has(j, "setApprovalForAll"@))
}

pub open spec fn erc1155_shape(j: Seq<char>) -> bool {
    has(j, "safeBatchTransferFrom"@) && has(j, "balanceOfBatch"@)
}

pub open spec fn erc4626_shape(j: Seq<char>) -> bool {
    has(j, "convertToShares"@) || has(j, "convertToAssets"@) || (has(j, "totalAssets"@) && has(
        j,
        "totalShares"@,
    ))
}

pub open spec fn erc20_shape(j: Seq<char>) -> bool {
    let allowance = has(j, "public allowance"@);
    let balance = has(j, "public balanceOf"@) || has(j, "public balances"@) || has(j, "balanceOf["@);
    let transfer = has(j, "function transfer("@);
    let transfer_from = has(j, "function transferFrom("@);
    (transfer && transfer_from && allowance && !erc721_shape(j)) || (balance && transfer
        && allowance && !erc721_shape(j)) || erc4626_shape(j)
}

/// The interface tags the source shapes add.
pub open spec fn supplemental_tags(j: Seq<char>) -> Set<Seq<char>> {
    Set::new(
        |t: Seq<char>|
            (t == "ERC20"@ && erc20_shape(j)) || (t == "ERC721"@ && erc721_shape(j)) || (t
                == "ERC1155"@ && erc1155_shape(j)) || (t == "ERC4626"@ && erc4626_shape(j)),
    )
}

/// The interface tags of a project: those the detector found plus those
/// the source shapes imply, each once, sorted.
pub fn sorted_interfaces(detected: Vec<String>, joined: &str) -> (r: Vec<String>)
    ensures
        sorted_unique(views(r@)),
        views(r@).to_set() == views(detected@).to_set() + supplemental_tags(joined@),
{
    let mut out: Vec<String> = Vec::new();
    let mut i: usize = 0;
    while i < detected.len()
        invariant
            i <= detected.len(),
            sorted_unique(views(out@)),
            views(out@).to_set() == views(detected@.take(i as int)).to_set(),
        decreases detected.len() - i,
    {
        proof {
            assert(views(detected@.take(i + 1)) =~= views(detected@.take(i as int)).push(
                detected@[i as int]@,
            ));
            views(detected@.take(i as int)).lemma_push_to_set_commute(detected@[i as int]@);
        }
        insert_sorted(&mut out, detected[i].clone());
        i += 1;
    }
    assert(detected@.take(detected.len() as int) =~= detected@);
    let ghost base = views(out@).to_set();
    let allowance = contains(joined, "public allowance");
    let balance = contains(joined, "public balanceOf") || contains(joined, "public balances")
        || contains(joined, "balanceOf[");
    let transfer = contains(joined, "function transfer(");
    let transfer_from = contains(joined, "function transferFrom(");
    let e4626 = contains(joined, "convertToShares") || contains(joined, "convertToAssets") || (
    contains(joined, "totalAssets") && contains(joined, "totalShares"));
    let e721 = contains(joined, "ownerOf") && (contains(joined, "safeTransferFrom") || contains(
        joined,
        "setApprovalForAll",
    ));
    let e1155 = contains(joined, "safeBatchTransferFrom") && contains(joined, "balanceOfBatch");
    let e20 = (transfer && transfer_from && allowance && !e721) || (balance && transfer
        && allowance && !e721) || e4626;
    if e20 {
        insert_sorted(&mut out, String::from_str("ERC20"));
    }
    if e721 {
        insert_sorted(&mut out, String::from_str("ERC721"));
    }
    if e1155 {
        insert_sorted(&mut out, String::from_str("ERC1155"));
    }
    if e4626 {
        insert_sorted(&mut out, String::from_str("ERC4626"));
    }
    proof {
        reveal_strlit("ERC20");
        reveal_strlit("ERC721");
        reveal_strlit("ERC1155");
        reveal_strlit("ERC4626");
        assert(views(out@).to_set() =~= base + supplemental_tags(joined@));
    }
    out
}

/// Some tag in `interfaces` is `t`.
pub open spec fn has_tag(interfaces: Seq<String>, t: Seq<char>) -> bool {
    exists|i: int| 0 <= i < interfaces.len() && (#[trigger] interfaces[i])@ == t
}

/// The primary primitive the interfaces imply: a vault supersedes its
/// share token; otherwise the first token standard found.
pub open spec fn spec_primary_primitive(interfaces: Seq<String>) -> Option<Seq<char>> {
    if has_tag(interfaces, "ERC4626"@) {
        Some("vault"@)
    } else if has_tag(interfaces, "ERC20"@) {
        Some("token-erc20"@)
    } else if has_tag(interfaces, "ERC721"@) {
        Some("token-erc721"@)
    } else if has_tag(interfaces, "ERC1155"@) {
        Some("token-erc1155"@)
    } else {
        None
    }
}

pub open spec fn lending_shape(j: Seq<char>) -> bool {
    has(j, "function borrow("@) && has(j, "function repay("@) && has(j, "function liquidate("@)
}

pub open spec fn amm_shape(j: Seq<char>) -> bool {
    has(j, "function swap("@) && (has(j, "reserves0"@) || has(j, "reserve0"@))
}

/// The primitive tags in sorted order: `amm`, `lending-market`, then the
/// primary primitive, each when it applies.
pub open spec fn spec_primitives(interfaces: Seq<String>, j: Seq<char>) -> Seq<Seq<char>> {
    (if amm_shape(j) {
        seq!["amm"@]
    } else {
        Seq::empty()
    }) + (if lending_shape(j) {
        seq!["lending-market"@]
    } else {
        Seq::empty()
    }) + match spec_primary_primitive(interfaces) {
        Some(p) => seq![p],
        None => Seq::empty(),
    }
}

/// The primitives read off the source: `amm` exactly when the source
/// declares `function swap(` and names `reserves0` or `reserve0`,
/// `lending-market` exactly when it declares `borrow(`, `repay(` and
/// `liquidate(`; and `vault` exactly when the interfaces include ERC4626.
pub proof fn law_primitives_follow_the_source(interfaces: Seq<String>, j: Seq<char>)
    ensures
        spec_primitives(interfaces, j).contains("amm"@) <==> (spec_contains(j, "function swap("@)
            && (spec_contains(j, "reserves0"@) || spec_contains(j, "reserve0"@))),
        spec_primitives(interfaces, j).contains("lending-market"@) <==> (spec_contains(
            j,
            "function borrow("@,
        ) && spec_contains(j, "function repay("@) && spec_contains(j, "function liquidate("@)),
        spec_primitives(interfaces, j).contains("vault"@) <==> exists|i: int|
            0 <= i < interfaces.len() && (#[trigger] interfaces[i])@ == "ERC4626"@,
{
    reveal_strlit("amm");
    reveal_strlit("lending-market");
    reveal_strlit("vault");
    reveal_strlit("token-erc20");
    reveal_strlit("token-erc721");
    reveal_strlit("token-erc1155");
    let ps = spec_primitives(interfaces, j);
    let a = if amm_shape(j) { seq!["amm"@] } else { Seq::<Seq<char>>::empty() };
    let l = if lending_shape(j) { seq!["lending-market"@] } else { Seq::<Seq<char>>::empty() };
    let p = match spec_primary_primitive(interfaces) {
        Some(x) => seq![x],
        None => Seq::<Seq<char>>::empty(),
    };
    assert(ps == a + l + p);
    assert("amm"@ != "lending-market"@) by { assert("amm"@.len() != "lending-market"@.len()); }
    assert("amm"@ != "vault"@) by { assert("amm"@[0] != "vault"@[0]); }
    assert("lending-market"@ != "vault"@) by { assert("lending-market"@.len() != "vault"@.len()); }
    assert("amm"@ != "token-erc20"@) by { assert("amm"@.len() != "token-erc20"@.len()); }
    assert("amm"@ != "token-erc721"@) by { assert("amm"@.len() != "token-erc721"@.len()); }
    assert("amm"@ != "token-erc1155"@) by { assert("amm"@.len() != "token-erc1155"@.len()); }
    assert("lending-market"@ != "token-erc20"@) by { assert("lending-market"@.len() != "token-erc20"@.len()); }
    assert("lending-market"@ != "token-erc721"@) by { assert("lending-market"@.len() != "token-erc721"@.len()); }
    assert("lending-market"@ != "token-erc1155"@) by { assert("lending-market"@[0] != "token-erc1155"@[0]); }
    assert("vault"@ != "token-erc20"@) by { assert("vault"@.len() != "token-erc20"@.len()); }
    assert("vault"@ != "token-erc721"@) by { assert("vault"@.len() != "token-erc721"@.len()); }
    assert("vault"@ != "token-erc1155"@) by { assert("vault"@.len() != "token-erc1155"@.len()); }
    if ps.contains("amm"@) {
        let k = choose|k: int| 0 <= k < ps.len() && ps[k] == "amm"@;
        if !amm_shape(j) {
            assert(ps[k] == (l + p)[k]);
        }
    }
    if amm_shape(j) {
        assert(ps[0] == "amm"@);
    }
    if ps.contains("lending-market"@) {
        let k = choose|k: int| 0 <= k < ps.len() && ps[k] == "lending-market"@;
        if !lending_shape(j) {
            assert(ps[k] == (a + p)[k]) by {
                if k < a.len() {
                    assert(ps[k] == a[k]);
                } else {
                    assert(ps[k] == p[k - a.len()]);
                }
            }
        }
    }
    if lending_shape(j) {
        assert(ps[a.len() as int] == "lending-market"@);
    }
    if ps.contains("vault"@) {
        let k = choose|k: int| 0 <= k < ps.len() && ps[k] == "vault"@;
        if k < a.len() + l.len() {
            if k < a.len() {
                assert(ps[k] == a[k]);
            } else {
                assert(ps[k] == l[k - a.len()]);
            }
        } else {
            assert(ps[k] == p[k - a.len() - l.len()]);
        }
    }
    if has_tag(interfaces, "ERC4626"@) {
        assert(ps[(a.len() + l.len()) as int] == "vault"@);
    }
}

fn has_tag_exec(interfaces: &Vec<String>, t: &str) -> (b: bool)
    ensures
        b == has_tag(interfaces@, t@),
{
    let target = String::from_str(t);
    let mut i: usize = 0;
    while i < interfaces.len()
        invariant
            i <= interfaces.len(),
            target@ == t@,
            forall|k: int| 0 <= k < i ==> (#[trigger] interfaces@[k])@ != t@,
        decreases interfaces.len() - i,
    {
        if interfaces[i] == target {
            return true;
        }
        i += 1;
    }
    false
}

/// The financial primitives of a project from its interface tags and
/// joined source.
pub fn detect_primitives(interfaces: &Vec<String>, joined: &str) -> (r: Vec<String>)
    ensures
        views(r@) == spec_primitives(interfaces@, joined@),
{
    let mut out: Vec<String> = Vec::new();
    let amm = contains(joined, "function swap(") && (contains(joined, "reserves0") || contains(
        joined,
        "reserve0",
    ));
    let lending = contains(joined, "function borrow(") && contains(joined, "function repay(")
        && contains(joined, "function liquidate(");
    if amm {
        out.push(String::from_str("amm"));
    }
    if lending {
        out.push(String::from_str("lending-market"));
    }
    let primary = if has_tag_exec(interfaces, "ERC4626") {
        Some("vault")
    } else if has_tag_exec(interfaces, "ERC20") {
        Some("token-erc20")
    } else if has_tag_exec(interfaces, "ERC721") {
        Some("token-erc721")
    } else if has_tag_exec(interfaces, "ERC1155") {
        Some("token-erc1155")
    } else {
        None
    };
    match primary {
        Some(p) => out.push(String::from_str(p)),
        None => {},
    }
    assert(views(out@) =~= spec_primitives(interfaces@, joined@));
    out
}

/// The README names looked for at the project root, in order.
pub fn readme_candidates() -> (r: Vec<&'static str>)
    ensures
        r@.len() == 3,
        r@[0]@ == "README.md"@,
        r@[1]@ == "README"@,
        r@[2]@ == "readme.md"@,
{
    let mut v: Vec<&'static str> = Vec::new();
    v.push("README.md");
    v.push("README");
    v.push("readme.md");
    v
}

/// What catalog activation is told about a project, as plain values:
/// the interface tags, the primitive tags, and the pattern flags that are
/// switched on.
#[derive(Debug, Clone)]
pub struct ActivationFacts {
    pub interfaces: Vec<String>,
    pub primitives: Vec<String>,
    pub patterns: Vec<String>,
}

/// The pattern flags activation may gate on. Until they are extracted
/// from the source, every one of them is switched on.
pub open spec fn spec_pattern_flags() -> Seq<Seq<char>> {
    seq![
        "state_change_present"@,
        "no_auth_check"@,
        "unchecked_block_present"@,
        "external_call_present"@,
        "initialize_present"@,
        "cancel_present"@,
        "deposit_present"@,
        "uups_proxy"@,
        "bit_shift_present"@,
    ]
}

fn pattern_flags() -> (r: Vec<String>)
    ensures
        views(r@) == spec_pattern_flags(),
{
    let mut v: Vec<String> = Vec::new();
    v.push(String::from_str("state_change_present"));
    v.push(String::from_str("no_auth_check"));
    v.push(String::from_str("unchecked_block_present"));
    v.push(String::from_str("external_call_present"));
    v.push(String::from_str("initialize_present"));
    v.push(String::from_str("cancel_present"));
    v.push(String::from_str("deposit_present"));
    v.push(String::from_str("uups_proxy"));
    v.push(String::from_str("bit_shift_present"));
    assert(views(v@) =~= spec_pattern_flags());
    v
}

/// `any` followed by a copy of `xs`.
fn with_any(xs: &Vec<String>) -> (r: Vec<String>)
    ensures
        views(r@) == seq!["any"@] + views(xs@),
{
    let mut r: Vec<String> = Vec::new();
    r.push(String::from_str("any"));
    let mut i: usize = 0;
    while i < xs.len()
        invariant
            i <= xs.len(),
            views(r@) == seq!["any"@] + views(xs@.take(i as int)),
        decreases xs.len() - i,
    {
        let ghost before = views(r@);
        let x = xs[i].clone();
        r.push(x);
        assert(views(r@) =~= before.push(x@));
        assert(views(xs@.take(i + 1)) =~= views(xs@.take(i as int)).push(xs@[i as int]@));
        assert(views(r@) =~= seq!["any"@] + views(xs@.take(i + 1)));
        i += 1;
    }
    assert(xs@.take(xs.len() as int) =~= xs@);
    r
}

/// The facts of a fingerprinted project: `any` and its interface tags,
/// `any` and its primitive tags, and every pattern flag.
pub fn facts_from_fingerprint(interfaces: &Vec<String>, primitives: &Vec<String>) -> (r:
    ActivationFacts)
    ensures
        views(r.interfaces@) == seq!["any"@] + views(interfaces@),
        views(r.primitives@) == seq!["any"@] + views(primitives@),
        views(r.patterns@) == spec_pattern_flags(),
{
    ActivationFacts {
        interfaces: with_any(interfaces),
        primitives: with_any(primitives),
        patterns: pattern_flags(),
    }
}

/// The primitive a detected interface tag implies for the catalog
/// self-test: a token standard gives `token`, a vault gives `vault`.
pub open spec fn spec_tag_primitive(tag: Seq<char>) -> Option<Seq<char>> {
    if tag == "ERC20"@ || tag == "ERC721"@ || tag == "ERC1155"@ {
        Some("token"@)
    } else if tag == "ERC4626"@ {
        Some("vault"@)
    } else {
        None
    }
}

/// The primitives of a tag list, in order, one per tag that implies one.
pub open spec fn spec_tag_primitives(tags: Seq<Seq<char>>) -> Seq<Seq<char>>
    decreases tags.len(),
{
    if tags.len() == 0 {
        Seq::empty()
    } else {
        let rest = spec_tag_primitives(tags.drop_last());
        match spec_tag_primitive(tags.last()) {
            Some(p) => rest.push(p),
            None => rest,
        }
    }
}

/// The facts of the catalog self-test: `any` and the detected interface
/// tags; the primitives those tags imply, then `any`; and every pattern
/// flag.
pub fn self_test_facts(tags: &Vec<String>) -> (r: ActivationFacts)
    ensures
        views(r.interfaces@) == seq!["any"@] + views(tags@),
        views(r.primitives@) == spec_tag_primitives(views(tags@)).push("any"@),
        views(r.patterns@) == spec_pattern_flags(),
{
    let mut prims: Vec<String> = Vec::new();
    let mut i: usize = 0;
    while i < tags.len()
        invariant
            i <= tags.len(),
            views(prims@) == spec_tag_primitives(views(tags@.take(i as int))),
        decreases tags.len() - i,
    {
        let t = &tags[i];
        proof {
            assert(views(tags@.take(i + 1)).drop_last() =~= views(tags@.take(i as int)));
            assert(views(tags@.take(i + 1)).last() == tags@[i as int]@);
            reveal_strlit("ERC20");
            reveal_strlit("ERC721");
            reveal_strlit("ERC1155");
            reveal_strlit("ERC4626");
        }
        let ghost before = views(prims@);
        let ghost ti = views(tags@.take(i + 1));
        assert(spec_tag_primitives(ti) == match spec_tag_primitive(ti.last()) {
            Some(p) => spec_tag_primitives(ti.drop_last()).push(p),
            None => spec_tag_primitives(ti.drop_last()),
        });
        if *t == String::from_str("ERC20") || *t == String::from_str("ERC721") || *t
            == String::from_str("ERC1155") {
            prims.push(String::from_str("token"));
            assert(views(prims@) =~= before.push("token"@));
        } else if *t == String::from_str("ERC4626") {
            prims.push(String::from_str("vault"));
            assert(views(prims@) =~= before.push("vault"@));
        } else {
            assert(spec_tag_primitive(t@) is None);
        }
        i += 1;
    }
    assert(tags@.take(tags.len() as int) =~= tags@);
    let ghost before = views(prims@);
    prims.push(String::from_str("any"));
    assert(views(prims@) =~= before.push("any"@));
    ActivationFacts { interfaces: with_any(tags), primitives: prims, patterns: pattern_flags() }
}

} // verus!
