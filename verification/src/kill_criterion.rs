//! The kill-criterion sweep: each reference contract is run through the
//! intent loop and its verified properties are matched against a
//! ground-truth list. Running the loop, reading the ground truth and
//! writing the report are outside work; the scaffold each contract is
//! checked in and the matching are decided here.
use vstd::prelude::*;

use crate::cli::{names_match, spec_names_match};

verus! {

/// A reference contract of the sweep.
#[derive(Debug, Clone)]
pub struct ContractTarget {
    /// Name shown in the report, e.g. `ERC20`.
    pub logical_name: String,
    /// File under `project/src/`, e.g. `ERC20.sol`.
    pub source_filename: String,
    /// Contract identifier the scaffold deploys.
    pub contract_ident: String,
    /// Constructor arguments written into the scaffold.
    pub constructor_args: String,
}

/// The arguments the scaffold deploys with: none for `ERC721`, whose
/// reference takes no constructor parameters.
pub open spec fn spec_deploy_args(ident: Seq<char>, args: Seq<char>) -> Seq<char> {
    if ident == "ERC721"@ {
        Seq::empty()
    } else {
        args
    }
}

/// The property harness of one reference contract: it imports the
/// contract from `../src/`, deploys it in its constructor and leaves the
/// `{{CHECK_FN}}` slot for the check function.
pub open spec fn spec_sweep_scaffold(file: Seq<char>, ident: Seq<char>, args: Seq<char>) -> Seq<char> {
    "// SPDX-License-Identifier: MIT\npragma solidity ^0.8.20;\n\nimport {"@ + ident + "} from \"../src/"@
        + file + "\";\n\ncontract CegisProperties {\n    "@ + ident
        + " internal token;\n\n    constructor() {\n        token = new "@ + ident + "("@
        + spec_deploy_args(ident, args) + ");\n    }\n\n    {{CHECK_FN}}\n}\n"@
}

/// The harness the sweep checks `target` in.
pub fn build_scaffold(target: &ContractTarget) -> (r: String)
    ensures
        r@ == spec_sweep_scaffold(
            target.source_filename@,
            target.contract_ident@,
            target.constructor_args@,
        ),
{
    let ident = target.contract_ident.as_str();
    let no_args = target.contract_ident == String::from_str("ERC721");
    let mut r = String::from_str("// SPDX-License-Identifier: MIT\npragma solidity ^0.8.20;\n\nimport {");
    r.append(ident);
    r.append("} from \"../src/");
    r.append(target.source_filename.as_str());
    r.append("\";\n\ncontract CegisProperties {\n    ");
    r.append(ident);
    r.append(" internal token;\n\n    constructor() {\n        token = new ");
    r.append(ident);
    r.append("(");
    if !no_args {
        r.append(target.constructor_args.as_str());
    }
    r.append(");\n    }\n\n    {{CHECK_FN}}\n}\n");
    proof {
        reveal_strlit("ERC721");
        reveal_strlit("// SPDX-License-Identifier: MIT\npragma solidity ^0.8.20;\n\nimport {");
        reveal_strlit("} from \"../src/");
        reveal_strlit("\";\n\ncontract CegisProperties {\n    ");
        reveal_strlit(" internal token;\n\n    constructor() {\n        token = new ");
        reveal_strlit("(");
        reveal_strlit(");\n    }\n\n    {{CHECK_FN}}\n}\n");
        assert(no_args == (target.contract_ident@ == "ERC721"@));
    }
    r
}

/// Whether some verified name matches the ground-truth name `gt`.
pub open spec fn spec_covered(verified: Seq<Seq<char>>, gt: Seq<char>) -> bool {
    exists|i: int| 0 <= i < verified.len() && spec_names_match(#[trigger] verified[i], gt)
}

/// The ground-truth names that some verified name matches, in ground-truth
/// order.
pub open spec fn spec_matched(verified: Seq<Seq<char>>, ground_truth: Seq<Seq<char>>) -> Seq<Seq<char>>
    decreases ground_truth.len(),
{
    if ground_truth.len() == 0 {
        Seq::empty()
    } else {
        let rest = spec_matched(verified, ground_truth.drop_last());
        if spec_covered(verified, ground_truth.last()) {
            rest.push(ground_truth.last())
        } else {
            rest
        }
    }
}

pub open spec fn names(xs: Seq<String>) -> Seq<Seq<char>> {
    xs.map_values(|s: String| s@)
}

fn covered(verified: &Vec<String>, gt: &str) -> (b: bool)
    ensures
        b == spec_covered(names(verified@), gt@),
{
    let mut i: usize = 0;
    while i < verified.len()
        invariant
            i <= verified.len(),
            forall|j: int| 0 <= j < i ==> !spec_names_match(#[trigger] names(verified@)[j], gt@),
        decreases verified.len() - i,
    {
        if names_match(verified[i].as_str(), gt) {
            assert(spec_names_match(names(verified@)[i as int], gt@));
            return true;
        }
        i += 1;
    }
    false
}

/// The ground-truth properties the run verified: those that some verified
/// candidate name matches (`check_` stripped, case folded, either name
/// contained in the other), in ground-truth order.
pub fn matched_ground_truth(verified: &Vec<String>, ground_truth: &Vec<String>) -> (r: Vec<String>)
    ensures
        names(r@) == spec_matched(names(verified@), names(ground_truth@)),
{
    let mut r: Vec<String> = Vec::new();
    let mut i: usize = 0;
    while i < ground_truth.len()
        invariant
            i <= ground_truth.len(),
            names(r@) == spec_matched(names(verified@), names(ground_truth@).take(i as int)),
        decreases ground_truth.len() - i,
    {
        let gt = &ground_truth[i];
        let hit = covered(verified, gt.as_str());
        let ghost before = names(r@);
        proof {
            let t = names(ground_truth@).take(i + 1);
            assert(t.drop_last() =~= names(ground_truth@).take(i as int));
            assert(t.last() == gt@);
        }
        if hit {
            r.push(gt.clone());
            assert(names(r@) =~= before.push(gt@));
        } else {
            assert(names(r@) =~= before);
        }
        i += 1;
    }
    assert(names(ground_truth@).take(ground_truth.len() as int) =~= names(ground_truth@));
    r
}

/// A ground-truth property counts as verified exactly when some verified
/// name matches it, and the matched list never outgrows the ground truth.
pub proof fn law_matched_is_covered_ground_truth(verified: Seq<Seq<char>>, ground_truth: Seq<Seq<char>>)
    ensures
        spec_matched(verified, ground_truth).len() <= ground_truth.len(),
        forall|k: int|
            0 <= k < spec_matched(verified, ground_truth).len() ==> spec_covered(
                verified,
                #[trigger] spec_matched(verified, ground_truth)[k],
            ),
        forall|k: int|
            0 <= k < ground_truth.len() && spec_covered(verified, #[trigger] ground_truth[k])
                ==> spec_matched(verified, ground_truth).contains(ground_truth[k]),
    decreases ground_truth.len(),
{
    if ground_truth.len() > 0 {
        let init = ground_truth.drop_last();
        law_matched_is_covered_ground_truth(verified, init);
        let rest = spec_matched(verified, init);
        assert forall|k: int|
            0 <= k < ground_truth.len() && spec_covered(verified, #[trigger] ground_truth[k])
                implies spec_matched(verified, ground_truth).contains(ground_truth[k]) by {
            if k < ground_truth.len() - 1 {
                assert(init[k] == ground_truth[k]);
                let w = choose|j: int| 0 <= j < rest.len() && rest[j] == init[k];
                if spec_covered(verified, ground_truth.last()) {
                    assert(rest.push(ground_truth.last())[w] == ground_truth[k]);
                }
            } else {
                let m = spec_matched(verified, ground_truth);
                assert(m[m.len() - 1] == ground_truth[k]);
            }
        }
    }
}

} // verus!
