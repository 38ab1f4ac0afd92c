//! The run protocol as a state machine: one key generation, one height
//! query, then for each scenario in turn hash, sign, submit and compare.
//! The driver performs each returned action and feeds back what came of it.
use vstd::prelude::*;

use crate::admission::{accepted, duplicate};
use crate::scenario::{
    lemma_resubmission_duplicate,
    height_in_range, scenario_expected, scenario_model, scenario_outcome, scenario_tx,
    SCENARIO_COUNT,
};
use crate::transaction::{encoded_transaction, Transaction, TransactionModel, FAR_VALIDITY};

verus! {

/// Signature scheme selector sent with the key generation request.
pub const CRYPT_TYPE: u32 = 1;

/// The signed proof of origin attached to a transaction.
#[derive(Debug)]
pub struct Witness {
    pub signature: Vec<u8>,
    pub sender: Vec<u8>,
}

/// A transaction with its content hash and witness.
#[derive(Debug)]
pub struct UnverifiedTransaction {
    pub transaction: Transaction,
    pub transaction_hash: Vec<u8>,
    pub witness: Witness,
}

/// The wire envelope: a union over transaction kinds, of which only the
/// normal transaction is produced.
#[derive(Debug)]
pub enum RawTransaction {
    NormalTx(UnverifiedTransaction),
}

/// Mathematical model of a [`RawTransaction`].
pub ghost struct EnvelopeModel {
    pub transaction: TransactionModel,
    pub transaction_hash: Seq<u8>,
    pub signature: Seq<u8>,
    pub sender: Seq<u8>,
}

impl View for RawTransaction {
    type V = EnvelopeModel;

    open spec fn view(&self) -> EnvelopeModel {
        match self {
            RawTransaction::NormalTx(u) => EnvelopeModel {
                transaction: u.transaction@,
                transaction_hash: u.transaction_hash@,
                signature: u.witness.signature@,
                sender: u.witness.sender@,
            },
        }
    }
}

/// What the driver reports back after performing an action.
#[derive(Debug)]
pub enum Event {
    /// The signing service issued a key.
    KeyGenerated { key_id: u64, address: Vec<u8> },
    /// The ledger reported its current height.
    BlockNumber(u64),
    /// The signing service hashed the submitted bytes.
    Hashed(Vec<u8>),
    /// The signing service signed the hash.
    Signed(Vec<u8>),
    /// The ledger answered a submission: the empty marker on acceptance,
    /// else its error message.
    Submitted(String),
}

/// The outcome of a submission, from the ledger's answer: the empty success
/// marker for an acknowledgment (whatever hash it carries), else the error
/// message exactly as the ledger gave it.
pub fn submission_outcome(response: Result<Vec<u8>, String>) -> (r: String)
    ensures
        r@ == match response {
            Ok(_) => ""@,
            Err(message) => message@,
        },
{
    match response {
        Ok(_) => "".to_owned(),
        Err(message) => message,
    }
}

/// Why a run stopped before its end.
#[derive(Debug)]
pub enum Failure {
    /// A scenario observed another outcome than the one it expects.
    Mismatch { scenario: usize, expected: String, actual: String },
    /// The height leaves no room for the expiries the scenarios use.
    HeightOutOfRange(u64),
    /// The driver reported an event that the current step does not await.
    UnexpectedEvent,
}

/// What the driver is to do next.
#[derive(Debug)]
pub enum Action {
    GenerateKeyPair { crypt_type: u32, description: String },
    GetBlockNumber { flag: bool },
    HashData { key_id: u64, data: Vec<u8> },
    SignMessage { key_id: u64, msg: Vec<u8> },
    SendRawTransaction(RawTransaction),
    /// Every scenario observed its expected outcome.
    Finish,
    /// The run stops here.
    Abort(Failure),
}

/// Where a run stands.
#[derive(PartialEq, Eq, Structural, Clone, Copy, Debug)]
pub enum Phase {
    AwaitKey,
    AwaitHeight,
    AwaitHash,
    AwaitSignature,
    AwaitOutcome,
    Done,
    Failed,
}

/// Mathematical model of a [`Harness`].
pub ghost struct HarnessModel {
    pub phase: Phase,
    pub key_id: u64,
    pub address: Seq<u8>,
    pub height: u64,
    pub scenario: int,
    pub tx_hash: Seq<u8>,
    /// Every outcome observed so far, in the order of the scenarios.
    pub observed: Seq<Seq<char>>,
}

/// State of one run.
pub struct Harness {
    phase: Phase,
    key_id: u64,
    address: Vec<u8>,
    height: u64,
    scenario: usize,
    tx_hash: Vec<u8>,
    observed: Ghost<Seq<Seq<char>>>,
}

impl View for Harness {
    type V = HarnessModel;

    closed spec fn view(&self) -> HarnessModel {
        HarnessModel {
            phase: self.phase,
            key_id: self.key_id,
            address: self.address@,
            height: self.height,
            scenario: self.scenario as int,
            tx_hash: self.tx_hash@,
            observed: self.observed@,
        }
    }
}

/// Whether a phase is one in which a scenario is under way.
pub open spec fn in_scenario(phase: Phase) -> bool {
    phase == Phase::AwaitHash || phase == Phase::AwaitSignature || phase == Phase::AwaitOutcome
}

/// The invariant of every state a run passes through: a scenario under way
/// has a valid index and a height that leaves room for every expiry, and a
/// run that is done stopped after the last scenario.
pub open spec fn consistent(s: HarnessModel) -> bool {
    &&& in_scenario(s.phase) ==> 0 <= s.scenario < SCENARIO_COUNT && height_in_range(s.height)
        && s.observed.len() == s.scenario
    &&& (s.phase == Phase::AwaitKey || s.phase == Phase::AwaitHeight) ==> s.observed.len() == 0
    &&& s.phase == Phase::Done ==> s.scenario == SCENARIO_COUNT - 1 && s.observed.len()
        == SCENARIO_COUNT
    &&& s.phase != Phase::Failed ==> s.observed == expected_outcomes().take(s.observed.len() as int)
}

/// The outcomes of all scenarios, in order, as the table lists them.
pub open spec fn expected_outcomes() -> Seq<Seq<char>> {
    Seq::new(SCENARIO_COUNT as nat, |i: int| scenario_outcome(i))
}

/// Whether `a` asks for the hash of the encoded transaction of scenario
/// `index` under key `key_id`.
pub open spec fn requests_hash(a: Action, key_id: u64, index: int, height: u64) -> bool {
    match a {
        Action::HashData { key_id: k, data } => k == key_id && data@ == encoded_transaction(
            scenario_model(index, height),
        ),
        _ => false,
    }
}

/// Whether `a` asks for a signature over `hash` under key `key_id`.
pub open spec fn requests_signature(a: Action, key_id: u64, hash: Seq<u8>) -> bool {
    match a {
        Action::SignMessage { key_id: k, msg } => k == key_id && msg@ == hash,
        _ => false,
    }
}

/// Whether `a` submits the envelope of scenario `index` of a run in state
/// `s`, signed with `signature`.
pub open spec fn submits(a: Action, s: HarnessModel, signature: Seq<u8>) -> bool {
    match a {
        Action::SendRawTransaction(env) => env@ == (EnvelopeModel {
            transaction: scenario_model(s.scenario, s.height),
            transaction_hash: s.tx_hash,
            signature: signature,
            sender: s.address,
        }),
        _ => false,
    }
}

/// Whether `a` reports that scenario `index` expected one outcome and
/// observed `actual`.
pub open spec fn reports_mismatch(a: Action, index: int, actual: Seq<char>) -> bool {
    match a {
        Action::Abort(Failure::Mismatch { scenario, expected, actual: got }) => scenario == index
            && expected@ == scenario_outcome(index) && got@ == actual,
        _ => false,
    }
}

/// Whether `a` stops the run on an event the step did not await.
pub open spec fn rejects_event(a: Action) -> bool {
    a matches Action::Abort(Failure::UnexpectedEvent)
}

/// Whether the event is the one that phase `p` awaits.
pub open spec fn awaited(p: Phase, e: Event) -> bool {
    match p {
        Phase::AwaitKey => e matches Event::KeyGenerated { .. },
        Phase::AwaitHeight => e matches Event::BlockNumber(_),
        Phase::AwaitHash => e matches Event::Hashed(_),
        Phase::AwaitSignature => e matches Event::Signed(_),
        Phase::AwaitOutcome => e matches Event::Submitted(_),
        _ => false,
    }
}

impl Harness {
    /// The state's invariant; see [`consistent`].
    pub open spec fn wf(&self) -> bool {
        consistent(self@)
    }

    /// A fresh run, and its first action: generating the signing key.
    pub fn start() -> (r: (Harness, Action))
        ensures
            r.0.wf(),
            r.0@.phase == Phase::AwaitKey,
            r.0@.observed == Seq::<Seq<char>>::empty(),
            r.1 matches Action::GenerateKeyPair { crypt_type, description } && crypt_type
                == CRYPT_TYPE && description@ == "test"@,
    {
        let h = Harness {
            phase: Phase::AwaitKey,
            key_id: 0,
            address: Vec::new(),
            height: 0,
            scenario: 0,
            tx_hash: Vec::new(),
            observed: Ghost(Seq::empty()),
        };
        assert(h.observed@ =~= expected_outcomes().take(0));
        (h, Action::GenerateKeyPair { crypt_type: CRYPT_TYPE, description: "test".to_owned() })
    }

    /// The step the run has reached.
    pub fn phase(&self) -> (r: Phase)
        ensures
            r == self@.phase,
    {
        self.phase
    }

    /// The index of the scenario under way, or reached last.
    pub fn scenario(&self) -> (r: usize)
        ensures
            r == self@.scenario,
    {
        self.scenario
    }

    fn fail(&mut self, failure: Failure) -> (r: Action)
        ensures
            final(self)@ == (HarnessModel { phase: Phase::Failed, ..old(self)@ }),
            r == Action::Abort(failure),
    {
        self.phase = Phase::Failed;
        Action::Abort(failure)
    }

    fn begin_scenario(&mut self, index: usize) -> (r: Action)
        requires
            index < SCENARIO_COUNT,
            height_in_range(old(self).height),
        ensures
            final(self)@ == (HarnessModel {
                phase: Phase::AwaitHash,
                scenario: index as int,
                ..old(self)@
            }),
            requests_hash(r, old(self).key_id, index as int, old(self).height),
    {
        let tx = scenario_tx(index, self.height);
        self.scenario = index;
        self.phase = Phase::AwaitHash;
        Action::HashData { key_id: self.key_id, data: tx.encode() }
    }

    /// Advances the run by one event and returns the next action.
    ///
    /// The key and the height are taken once; every scenario then asks for
    /// the hash of its transaction's encoding, a signature over that hash,
    /// and the submission of the signed envelope. An outcome equal to the
    /// scenario's expected one moves to the next scenario, or ends the run
    /// after the last; any other outcome stops the run and reports the
    /// scenario with the expected and observed outcomes. An event that the
    /// current step does not await stops the run.
    pub fn step(&mut self, event: Event) -> (r: Action)
        requires
            old(self).wf(),
        ensures
            final(self).wf(),
            !awaited(old(self)@.phase, event) ==> final(self)@ == (HarnessModel {
                phase: Phase::Failed,
                ..old(self)@
            }) && rejects_event(r),
            old(self)@.phase == Phase::AwaitKey ==> (event matches Event::KeyGenerated {
                key_id,
                address,
            } ==> final(self)@ == (HarnessModel {
                phase: Phase::AwaitHeight,
                key_id: key_id,
                address: address@,
                ..old(self)@
            }) && r == (Action::GetBlockNumber { flag: false })),
            old(self)@.phase == Phase::AwaitHeight ==> (event matches Event::BlockNumber(h) ==> if height_in_range(h) {
                final(self)@ == (HarnessModel {
                    phase: Phase::AwaitHash,
                    height: h,
                    scenario: 0,
                    ..old(self)@
                }) && requests_hash(r, old(self)@.key_id, 0, h)
            } else {
                final(self)@ == (HarnessModel { phase: Phase::Failed, ..old(self)@ }) && r
                    == Action::Abort(Failure::HeightOutOfRange(h))
            }),
            old(self)@.phase == Phase::AwaitHash ==> (event matches Event::Hashed(hash) ==> final(self)@ == (HarnessModel {
                phase: Phase::AwaitSignature,
                tx_hash: hash@,
                ..old(self)@
            }) && requests_signature(r, old(self)@.key_id, hash@)),
            old(self)@.phase == Phase::AwaitSignature ==> (event matches Event::Signed(signature) ==> final(self)@ == (HarnessModel {
                phase: Phase::AwaitOutcome,
                ..old(self)@
            }) && submits(r, old(self)@, signature@)),
            old(self)@.phase == Phase::AwaitOutcome ==> (event matches Event::Submitted(actual) ==> if actual@
                == scenario_outcome(old(self)@.scenario) {
                if old(self)@.scenario + 1 == SCENARIO_COUNT {
                    final(self)@ == (HarnessModel {
                        phase: Phase::Done,
                        observed: old(self)@.observed.push(actual@),
                        ..old(self)@
                    }) && r == Action::Finish
                } else {
                    final(self)@ == (HarnessModel {
                        phase: Phase::AwaitHash,
                        scenario: old(self)@.scenario + 1,
                        observed: old(self)@.observed.push(actual@),
                        ..old(self)@
                    }) && requests_hash(r, old(self)@.key_id, old(self)@.scenario + 1, old(self)@.height)
                }
            } else {
                final(self)@ == (HarnessModel {
                    phase: Phase::Failed,
                    observed: old(self)@.observed.push(actual@),
                    ..old(self)@
                }) && reports_mismatch(r, old(self)@.scenario, actual@)
            }),
    {
        match (self.phase, event) {
            (Phase::AwaitKey, Event::KeyGenerated { key_id, address }) => {
                self.key_id = key_id;
                self.address = address;
                self.phase = Phase::AwaitHeight;
                Action::GetBlockNumber { flag: false }
            },
            (Phase::AwaitHeight, Event::BlockNumber(h)) => {
                if h <= u64::MAX - FAR_VALIDITY {
                    self.height = h;
                    self.begin_scenario(0)
                } else {
                    self.fail(Failure::HeightOutOfRange(h))
                }
            },
            (Phase::AwaitHash, Event::Hashed(hash)) => {
                let msg = hash.clone();
                proof {
                    assert(msg@ =~= hash@);
                }
                self.tx_hash = hash;
                self.phase = Phase::AwaitSignature;
                Action::SignMessage { key_id: self.key_id, msg }
            },
            (Phase::AwaitSignature, Event::Signed(signature)) => {
                let transaction = scenario_tx(self.scenario, self.height);
                let transaction_hash = self.tx_hash.clone();
                let sender = self.address.clone();
                proof {
                    assert(transaction_hash@ =~= self.tx_hash@);
                    assert(sender@ =~= self.address@);
                }
                self.phase = Phase::AwaitOutcome;
                Action::SendRawTransaction(
                    RawTransaction::NormalTx(
                        UnverifiedTransaction {
                            transaction,
                            transaction_hash,
                            witness: Witness { signature, sender },
                        },
                    ),
                )
            },
            (Phase::AwaitOutcome, Event::Submitted(actual)) => {
                self.observed = Ghost(self.observed@.push(actual@));
                let expected = scenario_expected(self.scenario);
                if actual == expected {
                    assert(self.observed@ =~= expected_outcomes().take(self.observed@.len() as int));
                    if self.scenario + 1 == SCENARIO_COUNT {
                        self.phase = Phase::Done;
                        Action::Finish
                    } else {
                        self.begin_scenario(self.scenario + 1)
                    }
                } else {
                    self.fail(Failure::Mismatch { scenario: self.scenario, expected, actual })
                }
            },
            _ => self.fail(Failure::UnexpectedEvent),
        }
    }
}

/// A run ends with `Finish` only after observing, scenario by scenario, exactly
/// the outcomes of the table: the empty marker, `"dup"`, then each
/// mutation's rejection. Any other outcome stops it earlier (see
/// [`Harness::step`]).
pub proof fn lemma_finished_run_matched_table(s: HarnessModel)
    requires
        consistent(s),
        s.phase == Phase::Done,
    ensures
        s.observed == expected_outcomes(),
        forall|i: int| 0 <= i < SCENARIO_COUNT ==> s.observed[i] == scenario_outcome(i),
{
    assert(expected_outcomes().take(SCENARIO_COUNT as int) =~= expected_outcomes());
}

/// The second scenario resubmits the content of the first, and only once the
/// first was accepted; a run goes past it only when the ledger answered
/// `"dup"`.
pub proof fn lemma_resubmission_follows_acceptance(s: HarnessModel)
    requires
        consistent(s),
        s.phase != Phase::Failed,
    ensures
        in_scenario(s.phase) && s.scenario == 1 ==> s.observed == seq![accepted()],
        in_scenario(s.phase) && s.scenario == 1 ==> scenario_model(1, s.height) == scenario_model(
            0,
            s.height,
        ) && encoded_transaction(scenario_model(1, s.height)) == encoded_transaction(
            scenario_model(0, s.height),
        ),
        s.observed.len() >= 2 ==> s.observed[0] == accepted() && s.observed[1] == duplicate(),
{
    if in_scenario(s.phase) && s.scenario == 1 {
        assert(s.observed =~= seq![accepted()]);
        lemma_resubmission_duplicate(s.height);
    }
    if s.observed.len() >= 2 {
        assert(s.observed[0] == expected_outcomes()[0]);
        assert(s.observed[1] == expected_outcomes()[1]);
    }
}

} // verus!
