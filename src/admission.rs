//! The admission rules that the ledger is expected to apply, and the outcome
//! that each submission is expected to have under them.
use vstd::prelude::*;
use vstd::utf8::encode_utf8;

use crate::transaction::{Transaction, TransactionModel, SUPPORTED_VERSION, WORD_LEN};

verus! {

/// Longest nonce, in bytes, that the ledger admits.
pub const MAX_NONCE_LEN: usize = 128;

/// How many blocks past the current height a transaction may stay valid.
pub const VALIDITY_WINDOW: u64 = 80;

/// One admission rule of the ledger.
#[derive(PartialEq, Eq, Structural, Clone, Copy, Debug)]
pub enum Rule {
    /// `version` equals the supported version.
    Version,
    /// `nonce` is at most `MAX_NONCE_LEN` bytes long.
    Nonce,
    /// `valid_until_block` lies in `(height, height + VALIDITY_WINDOW]`.
    ValidUntilBlock,
    /// `value` is `WORD_LEN` bytes long.
    Value,
    /// `chain_id` is `WORD_LEN` bytes long.
    ChainId,
}

/// Whether `tx` breaks `rule` on a chain at `height`.
pub open spec fn breaks(rule: Rule, tx: TransactionModel, height: u64) -> bool {
    match rule {
        Rule::Version => tx.version != SUPPORTED_VERSION,
        Rule::Nonce => encode_utf8(tx.nonce).len() > MAX_NONCE_LEN,
        Rule::ValidUntilBlock => !(height < tx.valid_until_block && tx.valid_until_block
            <= height + VALIDITY_WINDOW),
        Rule::Value => tx.value.len() != WORD_LEN,
        Rule::ChainId => tx.chain_id.len() != WORD_LEN,
    }
}

/// The rejection message the ledger gives for a broken rule.
pub open spec fn rule_message(rule: Rule) -> Seq<char> {
    match rule {
        Rule::Version => "Invalid version"@,
        Rule::Nonce => "Invalid nonce"@,
        Rule::ValidUntilBlock => "Invalid valid_until_block"@,
        Rule::Value => "Invalid value"@,
        Rule::ChainId => "Invalid chain_id"@,
    }
}

/// The outcome of an accepted submission: the empty marker.
pub open spec fn accepted() -> Seq<char> {
    ""@
}

/// The outcome of resubmitting a transaction that was already accepted.
pub open spec fn duplicate() -> Seq<char> {
    "dup"@
}

/// The first rule, in the order the rules are listed, that `tx` breaks.
///
/// Which message a ledger gives for a transaction that breaks several rules
/// is its own choice; this order is an assumption of the harness. Every
/// transaction the harness submits breaks at most one rule, so no outcome it
/// expects depends on it.
pub open spec fn first_broken(tx: TransactionModel, height: u64) -> Option<Rule> {
    if breaks(Rule::Version, tx, height) {
        Some(Rule::Version)
    } else if breaks(Rule::Nonce, tx, height) {
        Some(Rule::Nonce)
    } else if breaks(Rule::ValidUntilBlock, tx, height) {
        Some(Rule::ValidUntilBlock)
    } else if breaks(Rule::Value, tx, height) {
        Some(Rule::Value)
    } else if breaks(Rule::ChainId, tx, height) {
        Some(Rule::ChainId)
    } else {
        None
    }
}

/// The outcome a submission of `tx` must have on a chain at `height`, given
/// whether the same content was accepted before.
pub open spec fn admission_outcome(
    tx: TransactionModel,
    height: u64,
    accepted_before: bool,
) -> Seq<char> {
    match first_broken(tx, height) {
        Some(rule) => rule_message(rule),
        None => if accepted_before {
            duplicate()
        } else {
            accepted()
        },
    }
}

/// Whether `tx` breaks `rule` on a chain at `height`.
pub fn check_rule(rule: Rule, tx: &Transaction, height: u64) -> (r: bool)
    ensures
        r == breaks(rule, tx@, height),
{
    match rule {
        Rule::Version => tx.version != SUPPORTED_VERSION,
        Rule::Nonce => tx.nonce.as_str().as_bytes().len() > MAX_NONCE_LEN,
        Rule::ValidUntilBlock => !(height < tx.valid_until_block && tx.valid_until_block - height
            <= VALIDITY_WINDOW),
        Rule::Value => tx.value.len() != WORD_LEN,
        Rule::ChainId => tx.chain_id.len() != WORD_LEN,
    }
}

/// The first rule that `tx` breaks on a chain at `height`, if any.
pub fn first_violation(tx: &Transaction, height: u64) -> (r: Option<Rule>)
    ensures
        r == first_broken(tx@, height),
{
    if check_rule(Rule::Version, tx, height) {
        Some(Rule::Version)
    } else if check_rule(Rule::Nonce, tx, height) {
        Some(Rule::Nonce)
    } else if check_rule(Rule::ValidUntilBlock, tx, height) {
        Some(Rule::ValidUntilBlock)
    } else if check_rule(Rule::Value, tx, height) {
        Some(Rule::Value)
    } else if check_rule(Rule::ChainId, tx, height) {
        Some(Rule::ChainId)
    } else {
        None
    }
}

impl Rule {
    /// The rejection message the ledger gives for this rule.
    pub fn message(&self) -> (r: String)
        ensures
            r@ == rule_message(*self),
    {
        match self {
            Rule::Version => "Invalid version".to_owned(),
            Rule::Nonce => "Invalid nonce".to_owned(),
            Rule::ValidUntilBlock => "Invalid valid_until_block".to_owned(),
            Rule::Value => "Invalid value".to_owned(),
            Rule::ChainId => "Invalid chain_id".to_owned(),
        }
    }
}

/// The outcome a submission of `tx` must have on a chain at `height`: the
/// message of the first broken rule, else `"dup"` when the same content was
/// accepted before, else the empty success marker.
pub fn expected_outcome(tx: &Transaction, height: u64, accepted_before: bool) -> (r: String)
    ensures
        r@ == admission_outcome(tx@, height, accepted_before),
{
    match first_violation(tx, height) {
        Some(rule) => rule.message(),
        None => if accepted_before {
            "dup".to_owned()
        } else {
            "".to_owned()
        },
    }
}

} // verus!
