use vergil::kill_criterion::{build_scaffold, matched_ground_truth, ContractTarget};

fn target(ident: &str, file: &str, args: &str) -> ContractTarget {
    ContractTarget {
        logical_name: ident.to_string(),
        source_filename: file.to_string(),
        contract_ident: ident.to_string(),
        constructor_args: args.to_string(),
    }
}

#[test]
fn sweep_scaffold_deploys_with_constructor_args() {
    let s = build_scaffold(&target("ERC4626", "ERC4626.sol", "1_000_000 ether,address(this)"));
    assert_eq!(
        s,
        "// SPDX-License-Identifier: MIT\npragma solidity ^0.8.20;\n\nimport {ERC4626} from \"../src/ERC4626.sol\";\n\ncontract CegisProperties {\n    ERC4626 internal token;\n\n    constructor() {\n        token = new ERC4626(1_000_000 ether,address(this));\n    }\n\n    {{CHECK_FN}}\n}\n"
    );
}

#[test]
fn sweep_scaffold_deploys_erc721_without_args() {
    let s = build_scaffold(&target("ERC721", "ERC721.sol", "ignored"));
    assert!(s.contains("import {ERC721} from \"../src/ERC721.sol\";"));
    assert!(s.contains("        token = new ERC721();\n"));
    assert!(!s.contains("ignored"));
    assert!(s.ends_with("    {{CHECK_FN}}\n}\n"));
}

#[test]
fn ground_truth_matches_keep_ground_truth_order() {
    let verified = vec!["check_Supply".to_string(), "check_transfer_moves_value".to_string()];
    let ground_truth = vec![
        "transfer_moves_value".to_string(),
        "mint_only_owner".to_string(),
        "supply_conserved".to_string(),
    ];
    assert_eq!(
        matched_ground_truth(&verified, &ground_truth),
        vec!["transfer_moves_value".to_string(), "supply_conserved".to_string()]
    );
}

#[test]
fn ground_truth_matches_nothing_without_verified_names() {
    let ground_truth = vec!["a_b_c".to_string()];
    assert!(matched_ground_truth(&Vec::new(), &ground_truth).is_empty());
    assert!(matched_ground_truth(&vec!["check_x".to_string()], &Vec::new()).is_empty());
}
