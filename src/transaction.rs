//! The transaction record, its canonical value and the fixed set of
//! single-field mutations of it.
use vstd::prelude::*;

verus! {

/// Protocol version the ledger accepts.
pub const SUPPORTED_VERSION: u32 = 0;

/// Length of the `to` address carried by the canonical transaction.
pub const ADDRESS_LEN: usize = 21;

/// Length that `value` and `chain_id` must have.
pub const WORD_LEN: usize = 32;

/// Resource budget carried by the canonical transaction.
pub const BASE_QUOTA: u64 = 300_000;

/// How far past the current height the canonical transaction stays valid.
pub const BASE_VALIDITY: u64 = 80;

/// How far past the current height the far-expiry mutation reaches.
pub const FAR_VALIDITY: u64 = 200;

/// A ledger transaction, field for field as it goes on the wire.
#[derive(Debug, Clone, PartialEq, Eq)]
pub struct Transaction {
    pub version: u32,
    pub to: Vec<u8>,
    pub nonce: String,
    pub quota: u64,
    pub valid_until_block: u64,
    pub data: Vec<u8>,
    pub value: Vec<u8>,
    pub chain_id: Vec<u8>,
}

/// Mathematical model of a [`Transaction`].
pub ghost struct TransactionModel {
    pub version: u32,
    pub to: Seq<u8>,
    pub nonce: Seq<char>,
    pub quota: u64,
    pub valid_until_block: u64,
    pub data: Seq<u8>,
    pub value: Seq<u8>,
    pub chain_id: Seq<u8>,
}

impl View for Transaction {
    type V = TransactionModel;

    open spec fn view(&self) -> TransactionModel {
        TransactionModel {
            version: self.version,
            to: self.to@,
            nonce: self.nonce@,
            quota: self.quota,
            valid_until_block: self.valid_until_block,
            data: self.data@,
            value: self.value@,
            chain_id: self.chain_id@,
        }
    }
}

/// The nonce of the canonical transaction.
pub open spec fn base_nonce() -> Seq<char> {
    seq!['t', 'e', 's', 't']
}

/// The canonical transaction with its expiry set to `until`.
pub open spec fn canonical_with_expiry(until: u64) -> TransactionModel {
    TransactionModel {
        version: SUPPORTED_VERSION,
        to: Seq::new(ADDRESS_LEN as nat, |i: int| 1u8),
        nonce: base_nonce(),
        quota: BASE_QUOTA,
        valid_until_block: until,
        data: Seq::empty(),
        value: Seq::new(WORD_LEN as nat, |i: int| 0u8),
        chain_id: Seq::new(WORD_LEN as nat, |i: int| 0u8),
    }
}

/// The canonical valid transaction for a chain whose current height is `height`.
pub open spec fn baseline(height: u64) -> TransactionModel
    recommends
        height + BASE_VALIDITY <= u64::MAX,
{
    canonical_with_expiry((height + BASE_VALIDITY) as u64)
}

fn bytes_of(byte: u8, len: usize) -> (r: Vec<u8>)
    ensures
        r@ == Seq::new(len as nat, |i: int| byte),
{
    let mut r: Vec<u8> = Vec::new();
    let mut i: usize = 0;
    while i < len
        invariant
            i <= len,
            r@ == Seq::new(i as nat, |k: int| byte),
        decreases len - i,
    {
        r.push(byte);
        i = i + 1;
    }
    assert(r@ =~= Seq::new(len as nat, |k: int| byte));
    r
}

fn base_nonce_string() -> (r: String)
    ensures
        r@ == base_nonce(),
{
    proof {
        reveal_strlit("test");
    }
    let r = "test".to_owned();
    assert(r@ =~= base_nonce());
    r
}

fn canonical_tx(valid_until_block: u64) -> (r: Transaction)
    ensures
        r@ == canonical_with_expiry(valid_until_block),
{
    Transaction {
        version: SUPPORTED_VERSION,
        to: bytes_of(1, ADDRESS_LEN),
        nonce: base_nonce_string(),
        quota: BASE_QUOTA,
        valid_until_block,
        data: Vec::new(),
        value: bytes_of(0, WORD_LEN),
        chain_id: bytes_of(0, WORD_LEN),
    }
}

/// The canonical valid transaction: every field at its accepted value and a
/// validity of `BASE_VALIDITY` blocks past `start_block_number`.
pub fn build_tx(start_block_number: u64) -> (r: Transaction)
    requires
        start_block_number + BASE_VALIDITY <= u64::MAX,
    ensures
        r@ == baseline(start_block_number),
{
    canonical_tx(start_block_number + BASE_VALIDITY)
}

/// How many times the canonical nonce repeats in the over-long nonce.
pub const NONCE_REPEAT: usize = 32;

/// The over-long nonce: `'1'` followed by the canonical nonce repeated
/// `NONCE_REPEAT` times.
pub open spec fn long_nonce() -> Seq<char> {
    Seq::new(1 + 4 * NONCE_REPEAT as nat, |i: int| if i == 0 { '1' } else { base_nonce()[(i - 1) % 4] })
}

fn long_nonce_string() -> (r: String)
    ensures
        r@ == long_nonce(),
{
    let mut r = "1".to_owned();
    let piece = "test";
    proof {
        reveal_strlit("1");
        reveal_strlit("test");
        assert(piece@ =~= base_nonce());
    }
    let mut k: usize = 0;
    while k < NONCE_REPEAT
        invariant
            k <= NONCE_REPEAT,
            piece@ == base_nonce(),
            r@ =~= Seq::new(1 + 4 * k as nat, |i: int| if i == 0 { '1' } else { base_nonce()[(i - 1) % 4] }),
        decreases NONCE_REPEAT - k,
    {
        let ghost before = r@;
        r.append(piece);
        proof {
            assert forall|i: int| 0 <= i < 1 + 4 * (k + 1) implies #[trigger] r@[i] == (if i == 0 { '1' } else { base_nonce()[(i - 1) % 4] }) by {
                if i >= 1 + 4 * k {
                    assert(r@[i] == piece@[i - before.len()]);
                    assert((i - 1) % 4 == i - 1 - 4 * k) by (nonlinear_arith)
                        requires 1 + 4 * k <= i < 1 + 4 * (k + 1);
                }
            }
        }
        k = k + 1;
    }
    r
}

/// The canonical transaction with `version` set to one the ledger does not support.
pub fn invalid_version_tx(start_block_number: u64) -> (r: Transaction)
    requires
        start_block_number + BASE_VALIDITY <= u64::MAX,
    ensures
        r@ == (TransactionModel { version: 1, ..baseline(start_block_number) }),
{
    let mut tx = build_tx(start_block_number);
    tx.version = 1;
    tx
}

/// The canonical transaction with a nonce far longer than the ledger permits.
pub fn invalid_nonce_tx(start_block_number: u64) -> (r: Transaction)
    requires
        start_block_number + BASE_VALIDITY <= u64::MAX,
    ensures
        r@ == (TransactionModel { nonce: long_nonce(), ..baseline(start_block_number) }),
{
    let mut tx = build_tx(start_block_number);
    tx.nonce = long_nonce_string();
    tx
}

/// The canonical transaction expiring at the current height itself.
pub fn invalid_vub_tx1(start_block_number: u64) -> (r: Transaction)
    ensures
        r@ == (TransactionModel { valid_until_block: start_block_number, ..baseline(start_block_number) }),
{
    canonical_tx(start_block_number)
}

/// The canonical transaction expiring `FAR_VALIDITY` blocks past the current
/// height, beyond the ledger's window.
pub fn invalid_vub_tx2(start_block_number: u64) -> (r: Transaction)
    requires
        start_block_number + FAR_VALIDITY <= u64::MAX,
    ensures
        r@ == (TransactionModel {
            valid_until_block: (start_block_number + FAR_VALIDITY) as u64,
            ..baseline(start_block_number)
        }),
{
    canonical_tx(start_block_number + FAR_VALIDITY)
}

/// The canonical transaction with a `value` one byte short.
pub fn invalid_value_tx(start_block_number: u64) -> (r: Transaction)
    requires
        start_block_number + BASE_VALIDITY <= u64::MAX,
    ensures
        r@ == (TransactionModel {
            value: Seq::new((WORD_LEN - 1) as nat, |i: int| 0u8),
            ..baseline(start_block_number)
        }),
{
    let mut tx = build_tx(start_block_number);
    tx.value = bytes_of(0, WORD_LEN - 1);
    tx
}

/// The canonical transaction with a `chain_id` one byte short.
pub fn invalid_chain_id_tx(start_block_number: u64) -> (r: Transaction)
    requires
        start_block_number + BASE_VALIDITY <= u64::MAX,
    ensures
        r@ == (TransactionModel {
            chain_id: Seq::new((WORD_LEN - 1) as nat, |i: int| 0u8),
            ..baseline(start_block_number)
        }),
{
    let mut tx = build_tx(start_block_number);
    tx.chain_id = bytes_of(0, WORD_LEN - 1);
    tx
}

/// The wire encoding of a transaction, as the protobuf message of the
/// ledger's schema.
pub uninterp spec fn encoded_transaction(tx: TransactionModel) -> Seq<u8>;

/// Relies on prost's `Message::encode_to_vec` for the schema's `Transaction`
/// message: the bytes depend on the field values alone.
#[verifier::external_body]
fn encode_to_vec(tx: &Transaction) -> (r: Vec<u8>)
    ensures
        r@ == encoded_transaction(tx@),
{
    let message = cita_cloud_proto::blockchain::Transaction {
        version: tx.version,
        to: tx.to.clone(),
        nonce: tx.nonce.clone(),
        quota: tx.quota,
        valid_until_block: tx.valid_until_block,
        data: tx.data.clone(),
        value: tx.value.clone(),
        chain_id: tx.chain_id.clone(),
    };
    prost::Message::encode_to_vec(&message)
}

impl Transaction {
    /// The bytes that are hashed and signed for this transaction.
    pub fn encode(&self) -> (r: Vec<u8>)
        ensures
            r@ == encoded_transaction(self@),
    {
        encode_to_vec(self)
    }
}

} // verus!
