use send_invalid_tx::admission::{check_rule, expected_outcome, first_violation, Rule};
use send_invalid_tx::scenario::{mutated_tx, scenario_expected, scenario_tx, Mutation};
use send_invalid_tx::transaction::{
    build_tx, invalid_chain_id_tx, invalid_nonce_tx, invalid_value_tx, invalid_version_tx,
    invalid_vub_tx1, invalid_vub_tx2,
};

const ALL_RULES: [Rule; 5] = [Rule::Version, Rule::Nonce, Rule::ValidUntilBlock, Rule::Value, Rule::ChainId];

#[test]
fn each_mutation_draws_its_listed_rejection() {
    let h = 500;
    assert_eq!(expected_outcome(&invalid_version_tx(h), h, false), "Invalid version");
    assert_eq!(expected_outcome(&invalid_nonce_tx(h), h, false), "Invalid nonce");
    assert_eq!(expected_outcome(&invalid_vub_tx1(h), h, false), "Invalid valid_until_block");
    assert_eq!(expected_outcome(&invalid_vub_tx2(h), h, false), "Invalid valid_until_block");
    assert_eq!(expected_outcome(&invalid_value_tx(h), h, false), "Invalid value");
    assert_eq!(expected_outcome(&invalid_chain_id_tx(h), h, false), "Invalid chain_id");
    assert_eq!(expected_outcome(&invalid_value_tx(h), h, true), "Invalid value");
}

#[test]
fn baseline_accepted_once() {
    assert_eq!(expected_outcome(&build_tx(0), 0, false), "");
    assert_eq!(first_violation(&build_tx(0), 0), None);
}

#[test]
fn resubmitted_baseline_is_duplicate() {
    let first = build_tx(77);
    let second = build_tx(77);
    assert_eq!(first, second);
    assert_eq!(first.encode(), second.encode());
    assert_eq!(expected_outcome(&second, 77, true), "dup");
}

#[test]
fn each_mutation_breaks_only_its_rule() {
    let h = 9;
    let cases = [
        (Mutation::Version, Rule::Version),
        (Mutation::Nonce, Rule::Nonce),
        (Mutation::ExpiryLow, Rule::ValidUntilBlock),
        (Mutation::ExpiryHigh, Rule::ValidUntilBlock),
        (Mutation::Value, Rule::Value),
        (Mutation::ChainId, Rule::ChainId),
    ];
    for (m, rule) in cases {
        let tx = mutated_tx(m, h);
        assert_eq!(first_violation(&tx, h), Some(rule));
        for other in ALL_RULES {
            assert_eq!(check_rule(other, &tx, h), other == rule, "{:?} {:?}", m, other);
        }
    }
    assert_ne!(expected_outcome(&invalid_nonce_tx(h), h, false), "Invalid value");
}

#[test]
fn validity_window_boundaries() {
    let h = 1000;
    let mut tx = build_tx(h);
    for (until, outcome) in [
        (h - 1, "Invalid valid_until_block"),
        (h, "Invalid valid_until_block"),
        (h + 1, ""),
        (h + 80, ""),
        (h + 81, "Invalid valid_until_block"),
        (h + 200, "Invalid valid_until_block"),
    ] {
        tx.valid_until_block = until;
        assert_eq!(expected_outcome(&tx, h, false), outcome, "until {}", until);
    }
}

#[test]
fn expiry_scenario_at_height() {
    let h = 12345;
    assert_eq!(expected_outcome(&invalid_vub_tx1(h), h, false), "Invalid valid_until_block");
    assert_eq!(expected_outcome(&invalid_vub_tx2(h), h, false), "Invalid valid_until_block");
    assert_eq!(build_tx(h).valid_until_block, h + 80);
    assert_eq!(expected_outcome(&build_tx(h), h, false), "");
}

#[test]
fn short_value_and_chain_id() {
    let h = 3;
    assert_eq!(invalid_value_tx(h).value.len(), 31);
    assert_eq!(expected_outcome(&invalid_value_tx(h), h, false), "Invalid value");
    assert_eq!(invalid_chain_id_tx(h).chain_id.len(), 31);
    assert_eq!(expected_outcome(&invalid_chain_id_tx(h), h, false), "Invalid chain_id");
}

#[test]
fn nonce_length_limit() {
    let mut tx = build_tx(0);
    tx.nonce = "a".repeat(128);
    assert!(!check_rule(Rule::Nonce, &tx, 0));
    tx.nonce = "a".repeat(129);
    assert!(check_rule(Rule::Nonce, &tx, 0));
    tx.nonce = "\u{e9}".repeat(65);
    assert!(check_rule(Rule::Nonce, &tx, 0));
}

#[test]
fn rule_messages() {
    assert_eq!(Rule::Version.message(), "Invalid version");
    assert_eq!(Rule::Nonce.message(), "Invalid nonce");
    assert_eq!(Rule::ValidUntilBlock.message(), "Invalid valid_until_block");
    assert_eq!(Rule::Value.message(), "Invalid value");
    assert_eq!(Rule::ChainId.message(), "Invalid chain_id");
}

#[test]
fn scenario_table_matches_rules() {
    let h = 64;
    let expected = [
        "",
        "dup",
        "Invalid version",
        "Invalid nonce",
        "Invalid valid_until_block",
        "Invalid valid_until_block",
        "Invalid value",
        "Invalid chain_id",
    ];
    for (i, e) in expected.iter().enumerate() {
        assert_eq!(scenario_expected(i), *e);
        assert_eq!(expected_outcome(&scenario_tx(i, h), h, i == 1), *e);
    }
    assert_eq!(scenario_tx(0, h), scenario_tx(1, h));
}

#[test]
fn expiry_low_mutation_at_largest_height() {
    let h = u64::MAX;
    let tx = mutated_tx(Mutation::ExpiryLow, h);
    assert_eq!(tx.valid_until_block, h);
    assert_eq!(first_violation(&tx, h), Some(Rule::ValidUntilBlock));
    assert_eq!(expected_outcome(&tx, h, false), "Invalid valid_until_block");
}
