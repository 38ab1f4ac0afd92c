//! The fixed, ordered table of scenarios: which transaction each one submits
//! and the outcome it must observe, with the laws that tie the table to the
//! admission rules.
use vstd::prelude::*;
use vstd::utf8::{encode_utf8, is_ascii_chars, is_ascii_chars_encode_utf8};

use crate::admission::{
    accepted, admission_outcome, breaks, duplicate, first_broken, rule_message, Rule,
    VALIDITY_WINDOW,
};
use crate::transaction::{
    base_nonce, baseline, build_tx, encoded_transaction, invalid_chain_id_tx, invalid_nonce_tx,
    invalid_value_tx, invalid_version_tx, invalid_vub_tx1, invalid_vub_tx2, long_nonce,
    Transaction, TransactionModel, BASE_VALIDITY, FAR_VALIDITY, WORD_LEN,
};

verus! {

/// Number of scenarios in a run.
pub const SCENARIO_COUNT: usize = 8;

/// The single-field mutations of the canonical transaction.
#[derive(PartialEq, Eq, Structural, Clone, Copy, Debug)]
pub enum Mutation {
    Version,
    Nonce,
    ExpiryLow,
    ExpiryHigh,
    Value,
    ChainId,
}

/// The canonical transaction at `height` with the field of `m` perturbed.
pub open spec fn mutated(m: Mutation, height: u64) -> TransactionModel {
    let base = baseline(height);
    match m {
        Mutation::Version => TransactionModel { version: 1, ..base },
        Mutation::Nonce => TransactionModel { nonce: long_nonce(), ..base },
        Mutation::ExpiryLow => TransactionModel { valid_until_block: height, ..base },
        Mutation::ExpiryHigh => TransactionModel {
            valid_until_block: (height + FAR_VALIDITY) as u64,
            ..base
        },
        Mutation::Value => TransactionModel {
            value: Seq::new((WORD_LEN - 1) as nat, |i: int| 0u8),
            ..base
        },
        Mutation::ChainId => TransactionModel {
            chain_id: Seq::new((WORD_LEN - 1) as nat, |i: int| 0u8),
            ..base
        },
    }
}

/// The rejection each mutation must draw, as the table lists it.
pub open spec fn expected_rejection(m: Mutation) -> Seq<char> {
    match m {
        Mutation::Version => "Invalid version"@,
        Mutation::Nonce => "Invalid nonce"@,
        Mutation::ExpiryLow => "Invalid valid_until_block"@,
        Mutation::ExpiryHigh => "Invalid valid_until_block"@,
        Mutation::Value => "Invalid value"@,
        Mutation::ChainId => "Invalid chain_id"@,
    }
}

/// The one rule that a mutation is meant to break.
pub open spec fn rule_of(m: Mutation) -> Rule {
    match m {
        Mutation::Version => Rule::Version,
        Mutation::Nonce => Rule::Nonce,
        Mutation::ExpiryLow => Rule::ValidUntilBlock,
        Mutation::ExpiryHigh => Rule::ValidUntilBlock,
        Mutation::Value => Rule::Value,
        Mutation::ChainId => Rule::ChainId,
    }
}

/// The mutation submitted by scenario `index`, for `2 <= index < SCENARIO_COUNT`.
pub open spec fn mutation_at(index: int) -> Mutation {
    if index == 2 {
        Mutation::Version
    } else if index == 3 {
        Mutation::Nonce
    } else if index == 4 {
        Mutation::ExpiryLow
    } else if index == 5 {
        Mutation::ExpiryHigh
    } else if index == 6 {
        Mutation::Value
    } else {
        Mutation::ChainId
    }
}

/// The transaction that scenario `index` submits: the canonical one for the
/// first two scenarios, a mutation of it for the others.
pub open spec fn scenario_model(index: int, height: u64) -> TransactionModel {
    if index < 2 {
        baseline(height)
    } else {
        mutated(mutation_at(index), height)
    }
}

/// The outcome that scenario `index` must observe.
pub open spec fn scenario_outcome(index: int) -> Seq<char> {
    if index == 0 {
        accepted()
    } else if index == 1 {
        duplicate()
    } else {
        expected_rejection(mutation_at(index))
    }
}

/// Whether a block height leaves room for every scenario's expiry.
pub open spec fn height_in_range(height: u64) -> bool {
    height + FAR_VALIDITY <= u64::MAX
}

/// Whether the expiry that mutation `m` gives at `height` fits in a `u64`:
/// the canonical expiry for most mutations, the far one for `ExpiryHigh`,
/// none for `ExpiryLow`, which expires at `height` itself.
pub open spec fn mutation_fits(m: Mutation, height: u64) -> bool {
    match m {
        Mutation::ExpiryLow => true,
        Mutation::ExpiryHigh => height + FAR_VALIDITY <= u64::MAX,
        _ => height + BASE_VALIDITY <= u64::MAX,
    }
}

/// The transaction with the field of `m` perturbed.
pub fn mutated_tx(m: Mutation, height: u64) -> (r: Transaction)
    requires
        mutation_fits(m, height),
    ensures
        r@ == mutated(m, height),
{
    match m {
        Mutation::Version => invalid_version_tx(height),
        Mutation::Nonce => invalid_nonce_tx(height),
        Mutation::ExpiryLow => invalid_vub_tx1(height),
        Mutation::ExpiryHigh => invalid_vub_tx2(height),
        Mutation::Value => invalid_value_tx(height),
        Mutation::ChainId => invalid_chain_id_tx(height),
    }
}

fn mutation_at_index(index: usize) -> (r: Mutation)
    requires
        2 <= index < SCENARIO_COUNT,
    ensures
        r == mutation_at(index as int),
{
    if index == 2 {
        Mutation::Version
    } else if index == 3 {
        Mutation::Nonce
    } else if index == 4 {
        Mutation::ExpiryLow
    } else if index == 5 {
        Mutation::ExpiryHigh
    } else if index == 6 {
        Mutation::Value
    } else {
        Mutation::ChainId
    }
}

/// The transaction that scenario `index` submits on a chain at `height`.
pub fn scenario_tx(index: usize, height: u64) -> (r: Transaction)
    requires
        index < SCENARIO_COUNT,
        height_in_range(height),
    ensures
        r@ == scenario_model(index as int, height),
{
    if index < 2 {
        build_tx(height)
    } else {
        mutated_tx(mutation_at_index(index), height)
    }
}

/// The outcome that scenario `index` must observe.
pub fn scenario_expected(index: usize) -> (r: String)
    requires
        index < SCENARIO_COUNT,
    ensures
        r@ == scenario_outcome(index as int),
{
    if index == 0 {
        "".to_owned()
    } else if index == 1 {
        "dup".to_owned()
    } else {
        match mutation_at_index(index) {
            Mutation::Version => "Invalid version".to_owned(),
            Mutation::Nonce => "Invalid nonce".to_owned(),
            Mutation::ExpiryLow => "Invalid valid_until_block".to_owned(),
            Mutation::ExpiryHigh => "Invalid valid_until_block".to_owned(),
            Mutation::Value => "Invalid value".to_owned(),
            Mutation::ChainId => "Invalid chain_id".to_owned(),
        }
    }
}

proof fn lemma_nonce_lengths()
    ensures
        encode_utf8(base_nonce()).len() == 4,
        encode_utf8(long_nonce()).len() == 129,
{
    assert(is_ascii_chars(base_nonce()));
    is_ascii_chars_encode_utf8(base_nonce());
    assert forall|i: int| 0 <= i < long_nonce().len() implies '\0' <= #[trigger] long_nonce()[i]
        <= '\u{7f}' by {
        if i > 0 {
            assert(0 <= (i - 1) % 4 < 4);
        }
    }
    assert(is_ascii_chars(long_nonce()));
    is_ascii_chars_encode_utf8(long_nonce());
}

proof fn lemma_messages_distinct()
    ensures
        accepted() != duplicate(),
        forall|r: Rule| rule_message(r) != accepted() && rule_message(r) != duplicate(),
        forall|a: Rule, b: Rule| rule_message(a) == rule_message(b) ==> a == b,
{
    reveal_strlit("");
    reveal_strlit("dup");
    reveal_strlit("Invalid version");
    reveal_strlit("Invalid nonce");
    reveal_strlit("Invalid valid_until_block");
    reveal_strlit("Invalid value");
    reveal_strlit("Invalid chain_id");
    assert(""@.len() == 0);
    assert("dup"@.len() == 3);
    assert("Invalid version"@.len() == 15);
    assert("Invalid nonce"@.len() == 13);
    assert("Invalid valid_until_block"@.len() == 25);
    assert("Invalid value"@.len() == 13);
    assert("Invalid chain_id"@.len() == 16);
    assert("Invalid version"@[9] != "Invalid nonce"@[9]);
    assert("Invalid version"@[9] != "Invalid valid_until_block"@[9]);
    assert("Invalid version"@[9] != "Invalid value"@[9]);
    assert("Invalid version"@[9] != "Invalid chain_id"@[9]);
    assert("Invalid nonce"@[9] != "Invalid valid_until_block"@[9]);
    assert("Invalid nonce"@[9] != "Invalid value"@[9]);
    assert("Invalid nonce"@[9] != "Invalid chain_id"@[9]);
    assert("Invalid valid_until_block"@[9] != "Invalid chain_id"@[9]);
    assert("Invalid value"@[9] != "Invalid chain_id"@[9]);
}

/// The canonical transaction breaks no admission rule, and its first
/// submission is accepted.
pub proof fn lemma_baseline_admitted(height: u64)
    requires
        height + BASE_VALIDITY <= u64::MAX,
    ensures
        forall|r: Rule| !breaks(r, baseline(height), height),
        admission_outcome(baseline(height), height, false) == accepted(),
{
    lemma_nonce_lengths();
}

/// Resubmitting the canonical transaction after it was accepted draws
/// `"dup"`: the first two scenarios submit the same content, byte for byte.
pub proof fn lemma_resubmission_duplicate(height: u64)
    requires
        height_in_range(height),
    ensures
        scenario_model(0, height) == scenario_model(1, height),
        encoded_transaction(scenario_model(0, height)) == encoded_transaction(
            scenario_model(1, height),
        ),
        admission_outcome(scenario_model(1, height), height, true) == duplicate(),
        duplicate() != accepted(),
{
    lemma_baseline_admitted(height);
    lemma_messages_distinct();
}

/// Each mutation breaks exactly the one rule it is meant to break and no
/// other.
pub proof fn lemma_mutation_isolated(m: Mutation, height: u64)
    requires
        mutation_fits(m, height),
    ensures
        forall|r: Rule| breaks(r, mutated(m, height), height) <==> r == rule_of(m),
        first_broken(mutated(m, height), height) == Some(rule_of(m)),
{
    lemma_nonce_lengths();
}

/// Submitting any mutation draws exactly the rejection the table lists for
/// it, whether or not anything was accepted before: never another message,
/// never success and never `"dup"`.
pub proof fn lemma_mutation_rejected(m: Mutation, height: u64, accepted_before: bool)
    requires
        mutation_fits(m, height),
    ensures
        admission_outcome(mutated(m, height), height, accepted_before) == expected_rejection(m),
        expected_rejection(m) == rule_message(rule_of(m)),
        expected_rejection(m) != accepted(),
        expected_rejection(m) != duplicate(),
        forall|r: Rule| rule_message(r) == expected_rejection(m) ==> r == rule_of(m),
{
    lemma_mutation_isolated(m, height);
    lemma_messages_distinct();
    assert(expected_rejection(m) == rule_message(rule_of(m)));
    assert(rule_message(rule_of(m)) != accepted());
}

/// Of the canonical transaction with only its expiry changed to `until`, the
/// first submission is accepted exactly when `height < until <= height +
/// VALIDITY_WINDOW`, and draws `"Invalid valid_until_block"` otherwise.
pub proof fn lemma_validity_window(height: u64, until: u64)
    requires
        height + BASE_VALIDITY <= u64::MAX,
    ensures
        admission_outcome(
            TransactionModel { valid_until_block: until, ..baseline(height) },
            height,
            false,
        ) == if height < until && until <= height + VALIDITY_WINDOW {
            accepted()
        } else {
            "Invalid valid_until_block"@
        },
        until == height ==> admission_outcome(
            TransactionModel { valid_until_block: until, ..baseline(height) },
            height,
            false,
        ) != accepted(),
        baseline(height).valid_until_block == height + VALIDITY_WINDOW,
{
    lemma_nonce_lengths();
    lemma_messages_distinct();
}

/// Every scenario's expected outcome is the one the admission rules give to
/// its transaction, when only the first scenario's content was accepted
/// before it.
pub proof fn lemma_table_agrees(index: int, height: u64)
    requires
        0 <= index < SCENARIO_COUNT,
        height_in_range(height),
    ensures
        admission_outcome(scenario_model(index, height), height, index == 1) == scenario_outcome(
            index,
        ),
{
    if index < 2 {
        lemma_baseline_admitted(height);
    } else {
        lemma_mutation_rejected(mutation_at(index), height, false);
    }
}

} // verus!
