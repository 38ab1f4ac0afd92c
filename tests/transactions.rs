use send_invalid_tx::transaction::{
    build_tx, invalid_chain_id_tx, invalid_nonce_tx, invalid_value_tx, invalid_version_tx,
    invalid_vub_tx1, invalid_vub_tx2, Transaction,
};

fn fields_differing(a: &Transaction, b: &Transaction) -> Vec<&'static str> {
    let mut d = Vec::new();
    if a.version != b.version {
        d.push("version");
    }
    if a.to != b.to {
        d.push("to");
    }
    if a.nonce != b.nonce {
        d.push("nonce");
    }
    if a.quota != b.quota {
        d.push("quota");
    }
    if a.valid_until_block != b.valid_until_block {
        d.push("valid_until_block");
    }
    if a.data != b.data {
        d.push("data");
    }
    if a.value != b.value {
        d.push("value");
    }
    if a.chain_id != b.chain_id {
        d.push("chain_id");
    }
    d
}

#[test]
fn baseline_has_canonical_fields() {
    let tx = build_tx(100);
    assert_eq!(tx.version, 0);
    assert_eq!(tx.to, vec![1u8; 21]);
    assert_eq!(tx.nonce, "test");
    assert_eq!(tx.quota, 300_000);
    assert_eq!(tx.valid_until_block, 180);
    assert!(tx.data.is_empty());
    assert_eq!(tx.value, vec![0u8; 32]);
    assert_eq!(tx.chain_id, vec![0u8; 32]);
}

#[test]
fn each_mutation_changes_one_field() {
    let base = build_tx(1000);
    assert_eq!(fields_differing(&base, &invalid_version_tx(1000)), vec!["version"]);
    assert_eq!(fields_differing(&base, &invalid_nonce_tx(1000)), vec!["nonce"]);
    assert_eq!(fields_differing(&base, &invalid_vub_tx1(1000)), vec!["valid_until_block"]);
    assert_eq!(fields_differing(&base, &invalid_vub_tx2(1000)), vec!["valid_until_block"]);
    assert_eq!(fields_differing(&base, &invalid_value_tx(1000)), vec!["value"]);
    assert_eq!(fields_differing(&base, &invalid_chain_id_tx(1000)), vec!["chain_id"]);
}

#[test]
fn mutated_field_values() {
    assert_eq!(invalid_version_tx(5).version, 1);
    let nonce = invalid_nonce_tx(5).nonce;
    assert_eq!(nonce.len(), 129);
    assert_eq!(nonce, format!("1{}", "test".repeat(32)));
    assert_eq!(invalid_vub_tx1(5).valid_until_block, 5);
    assert_eq!(invalid_vub_tx2(5).valid_until_block, 205);
    assert_eq!(invalid_value_tx(5).value, vec![0u8; 31]);
    assert_eq!(invalid_chain_id_tx(5).chain_id, vec![0u8; 31]);
}

#[test]
fn baseline_expiry_at_largest_height() {
    let h = u64::MAX - 80;
    assert_eq!(build_tx(h).valid_until_block, u64::MAX);
    assert_eq!(invalid_vub_tx2(u64::MAX - 200).valid_until_block, u64::MAX);
}

#[test]
fn encoding_is_the_protobuf_message() {
    let bytes = build_tx(100).encode();
    let mut expected = vec![0x12u8, 21];
    expected.extend(vec![1u8; 21]);
    expected.extend([0x1a, 4, b't', b'e', b's', b't']);
    expected.extend([0x20, 0xe0, 0xa7, 0x12]);
    expected.extend([0x28, 0xb4, 0x01]);
    expected.extend([0x3a, 32]);
    expected.extend(vec![0u8; 32]);
    expected.extend([0x42, 32]);
    expected.extend(vec![0u8; 32]);
    assert_eq!(bytes, expected);
}

#[test]
fn encoding_is_deterministic_and_distinguishes_mutations() {
    assert_eq!(build_tx(42).encode(), build_tx(42).encode());
    assert_ne!(build_tx(42).encode(), invalid_version_tx(42).encode());
    assert_ne!(build_tx(42).encode(), invalid_value_tx(42).encode());
}

#[test]
fn expiry_at_height_for_largest_height() {
    let tx = invalid_vub_tx1(u64::MAX);
    assert_eq!(tx.valid_until_block, u64::MAX);
    assert_eq!(fields_differing(&build_tx(0), &tx), vec!["valid_until_block"]);
}
