//! One ledger's consolidation cycle as a state machine.
//!
//! The caller performs the action that is pending (a query, a signature, a
//! broadcast) and reports what came of it as an event; the machine decides
//! what happens next. A cycle starts by asking for the chain height and
//! ends, whatever happens, in `Stage::Finished`.

use crate::assemble::{assemble, assembled, inputs_for, AssembleError};
use crate::collect::{absorb_reply, contribution, reply_view};
use crate::encoding::{encodable_len, hex_lower, payload_hex};
use crate::filter::{
    eligible, filter_eligible, lemma_retained_all_eligible, lemma_retained_iff_eligible, retained,
};
use crate::sign::{attach_signature, signed_in_place, signed_input};
use crate::types::{
    LedgerConfig, SignedInput, SignedInputView, SignedTransaction, SignedTxView, TaggedOutput,
    UnsignedTransaction, UnsignedTxView, Unspent, MIN_INPUTS,
};
use vstd::prelude::*;

verus! {

/// How a cycle ended.
#[derive(Clone, Copy, Debug, PartialEq, Eq)]
pub enum Outcome {
    /// The chain height could not be obtained.
    HeightUnavailable,
    /// Fewer than `MIN_INPUTS` outputs were eligible; nothing was built.
    Skipped { available: usize },
    /// The eligible outputs did not yield a transaction worth sending.
    Rejected(AssembleError),
    /// The input at this position could not be signed; nothing was sent.
    SigningFailed { input: usize },
    /// The signed transaction was too long to be written out.
    PayloadTooLarge,
    /// The ledger did not accept the transaction.
    BroadcastFailed,
    /// The transaction was broadcast.
    Sent,
}

/// What the caller is asked to do next.
#[derive(Clone, Copy, Debug, PartialEq, Eq)]
pub enum Action {
    /// Ask the ledger for the current chain height.
    QueryHeight,
    /// Ask the ledger for the unspent outputs of the key at this position.
    QueryUnspents { key: usize },
    /// Sign the input at position `input` of the unsigned transaction with
    /// the key at position `key`.
    SignInput { input: usize, key: usize },
    /// Serialize the signed transaction.
    Serialize,
    /// Broadcast the payload.
    Broadcast,
    /// Report the outcome; the cycle is over.
    Finish(Outcome),
}

/// What came of an action. `None` and `false` stand for a failure.
#[derive(Clone, Debug, PartialEq, Eq)]
pub enum Event {
    Height(Option<u64>),
    Unspents(Option<Vec<Unspent>>),
    Signature(Option<Vec<u8>>),
    Serialized(Vec<u8>),
    Submitted(bool),
}

/// An `Event` as the contracts see it.
pub enum EventView {
    Height(Option<u64>),
    Unspents(Option<Seq<Unspent>>),
    Signature(Option<Seq<u8>>),
    Serialized(Seq<u8>),
    Submitted(bool),
}

/// Where a cycle stands, with the data gathered so far.
#[derive(Clone, Debug, PartialEq, Eq)]
pub enum Stage {
    AwaitingHeight,
    /// Waiting for the unspent outputs of key `key`.
    Collecting { height: u64, key: usize, collected: Vec<TaggedOutput> },
    /// Waiting for the signature of the input that follows those in
    /// `signed`.
    Signing {
        height: u64,
        sources: Vec<TaggedOutput>,
        unsigned: UnsignedTransaction,
        signed: Vec<SignedInput>,
    },
    Serializing { tx: SignedTransaction },
    Broadcasting { payload: String },
    Finished(Outcome),
}

/// A `Stage` as the contracts see it.
pub enum StageView {
    AwaitingHeight,
    Collecting { height: u64, key: usize, collected: Seq<TaggedOutput> },
    Signing {
        height: u64,
        sources: Seq<TaggedOutput>,
        unsigned: UnsignedTxView,
        signed: Seq<SignedInputView>,
    },
    Serializing { tx: SignedTxView },
    Broadcasting { payload: Seq<char> },
    Finished(Outcome),
}

impl View for Event {
    type V = EventView;

    open spec fn view(&self) -> EventView {
        match *self {
            Event::Height(height) => EventView::Height(height),
            Event::Unspents(reply) => EventView::Unspents(reply_view(reply)),
            Event::Signature(Some(script_sig)) => EventView::Signature(Some(script_sig@)),
            Event::Signature(None) => EventView::Signature(None),
            Event::Serialized(raw) => EventView::Serialized(raw@),
            Event::Submitted(accepted) => EventView::Submitted(accepted),
        }
    }
}

impl View for Stage {
    type V = StageView;

    open spec fn view(&self) -> StageView {
        match *self {
            Stage::AwaitingHeight => StageView::AwaitingHeight,
            Stage::Collecting { height, key, collected } => StageView::Collecting {
                height,
                key,
                collected: collected@,
            },
            Stage::Signing { height, sources, unsigned, signed } => StageView::Signing {
                height,
                sources: sources@,
                unsigned: unsigned@,
                signed: signed@.map_values(|s: SignedInput| s@),
            },
            Stage::Serializing { tx } => StageView::Serializing { tx: tx@ },
            Stage::Broadcasting { payload } => StageView::Broadcasting { payload: payload@ },
            Stage::Finished(outcome) => StageView::Finished(outcome),
        }
    }
}

/// The stage reached once every key has been asked: the cycle is skipped
/// when fewer than `MIN_INPUTS` of the collected outputs are eligible;
/// otherwise the eligible ones are assembled and signing begins, unless
/// they do not yield a transaction.
pub open spec fn after_collection(
    threshold: u64,
    destination: Seq<u8>,
    height: u64,
    collected: Seq<TaggedOutput>,
) -> StageView {
    let sources = retained(collected, height, threshold);
    if sources.len() < MIN_INPUTS {
        StageView::Finished(Outcome::Skipped { available: sources.len() as usize })
    } else {
        match assembled(sources, destination) {
            Ok(unsigned) => StageView::Signing {
                height,
                sources,
                unsigned,
                signed: Seq::empty(),
            },
            Err(reason) => StageView::Finished(Outcome::Rejected(reason)),
        }
    }
}

/// A cycle as the contracts see it.
pub struct CycleView {
    /// Number of keys in the registry.
    pub key_count: usize,
    /// Least value of an output that is consolidated.
    pub threshold: u64,
    /// Script that receives the swept amount.
    pub destination: Seq<u8>,
    pub stage: StageView,
}

impl CycleView {
    /// What holds of every cycle that was started and stepped: collected
    /// outputs are tagged with keys already asked; signing works on at
    /// least `MIN_INPUTS` eligible outputs, on the transaction assembled
    /// from exactly these, and on signed inputs that stand where their
    /// unsigned inputs stand.
    pub open spec fn wf(self) -> bool {
        match self.stage {
            StageView::Collecting { height, key, collected } => {
                &&& key < self.key_count
                &&& forall|i: int| 0 <= i < collected.len() ==> (#[trigger] collected[i]).key < key
            },
            StageView::Signing { height, sources, unsigned, signed } => {
                &&& sources.len() >= MIN_INPUTS
                &&& forall|i: int|
                    0 <= i < sources.len() ==> {
                        &&& (#[trigger] sources[i]).key < self.key_count
                        &&& eligible(sources[i].output, height, self.threshold)
                    }
                &&& assembled(sources, self.destination) == Ok::<UnsignedTxView, AssembleError>(
                    unsigned,
                )
                &&& signed.len() < sources.len()
                &&& signed_in_place(unsigned.inputs, signed)
            },
            _ => true,
        }
    }

    /// The action that the caller is asked to perform.
    pub open spec fn pending(self) -> Action {
        match self.stage {
            StageView::AwaitingHeight => Action::QueryHeight,
            StageView::Collecting { height, key, collected } => Action::QueryUnspents { key },
            StageView::Signing { height, sources, unsigned, signed } => Action::SignInput {
                input: signed.len() as usize,
                key: sources[signed.len() as int].key,
            },
            StageView::Serializing { tx } => Action::Serialize,
            StageView::Broadcasting { payload } => Action::Broadcast,
            StageView::Finished(outcome) => Action::Finish(outcome),
        }
    }

    /// The stage that follows when `event` is reported. An event that does
    /// not answer the pending action changes nothing.
    pub open spec fn next_stage(self, event: EventView) -> StageView {
        match (self.stage, event) {
            (StageView::AwaitingHeight, EventView::Height(Some(height))) => {
                if self.key_count == 0 {
                    after_collection(self.threshold, self.destination, height, Seq::empty())
                } else {
                    StageView::Collecting { height, key: 0, collected: Seq::empty() }
                }
            },
            (StageView::AwaitingHeight, EventView::Height(None)) => StageView::Finished(
                Outcome::HeightUnavailable,
            ),
            (StageView::Collecting { height, key, collected }, EventView::Unspents(reply)) => {
                let gathered = collected + contribution(reply, key);
                if key + 1 < self.key_count {
                    StageView::Collecting { height, key: (key + 1) as usize, collected: gathered }
                } else {
                    after_collection(self.threshold, self.destination, height, gathered)
                }
            },
            (
                StageView::Signing { height, sources, unsigned, signed },
                EventView::Signature(Some(script_sig)),
            ) => {
                let done = signed.push(
                    signed_input(unsigned.inputs[signed.len() as int], script_sig),
                );
                if done.len() < unsigned.inputs.len() {
                    StageView::Signing { height, sources, unsigned, signed: done }
                } else {
                    StageView::Serializing {
                        tx: SignedTxView { inputs: done, outputs: unsigned.outputs },
                    }
                }
            },
            (
                StageView::Signing { height, sources, unsigned, signed },
                EventView::Signature(None),
            ) => StageView::Finished(Outcome::SigningFailed { input: signed.len() as usize }),
            (StageView::Serializing { tx }, EventView::Serialized(raw)) => {
                if encodable_len(raw.len()) {
                    StageView::Broadcasting { payload: hex_lower(raw) }
                } else {
                    StageView::Finished(Outcome::PayloadTooLarge)
                }
            },
            (StageView::Broadcasting { payload }, EventView::Submitted(accepted)) => {
                StageView::Finished(
                    if accepted {
                        Outcome::Sent
                    } else {
                        Outcome::BroadcastFailed
                    },
                )
            },
            _ => self.stage,
        }
    }

    /// The cycle after `event` has been reported.
    pub open spec fn step(self, event: EventView) -> CycleView {
        CycleView {
            key_count: self.key_count,
            threshold: self.threshold,
            destination: self.destination,
            stage: self.next_stage(event),
        }
    }

    /// The cycle after `events` have been reported one after the other.
    pub open spec fn run(self, events: Seq<EventView>) -> CycleView
        decreases events.len(),
    {
        if events.len() == 0 {
            self
        } else {
            self.run(events.drop_last()).step(events.last())
        }
    }
}

/// Decides what follows the collection: skips, rejects, or assembles the
/// transaction and opens the signing stage.
pub fn settle(
    threshold: u64,
    destination: &Vec<u8>,
    height: u64,
    collected: &Vec<TaggedOutput>,
) -> (stage: Stage)
    ensures
        stage@ == after_collection(threshold, destination@, height, collected@),
{
    let sources = filter_eligible(collected, height, threshold);
    if sources.len() < MIN_INPUTS {
        Stage::Finished(Outcome::Skipped { available: sources.len() })
    } else {
        match assemble(&sources, destination) {
            Ok(unsigned) => {
                let signed: Vec<SignedInput> = Vec::new();
                assert(signed@.map_values(|s: SignedInput| s@) =~= Seq::<SignedInputView>::empty());
                Stage::Signing { height, sources, unsigned, signed }
            },
            Err(reason) => Stage::Finished(Outcome::Rejected(reason)),
        }
    }
}

/// The stage reached after the collection is well formed.
pub proof fn lemma_after_collection_wf(c: CycleView, height: u64, collected: Seq<TaggedOutput>)
    requires
        forall|i: int| 0 <= i < collected.len() ==> (#[trigger] collected[i]).key < c.key_count,
    ensures
        (CycleView {
            key_count: c.key_count,
            threshold: c.threshold,
            destination: c.destination,
            stage: after_collection(c.threshold, c.destination, height, collected),
        }).wf(),
{
    let sources = retained(collected, height, c.threshold);
    lemma_retained_all_eligible(collected, height, c.threshold);
    assert forall|i: int| 0 <= i < sources.len() implies (#[trigger] sources[i]).key
        < c.key_count by {
        lemma_retained_iff_eligible(collected, height, c.threshold, sources[i]);
        assert(sources.contains(sources[i]));
        let j = choose|j: int| 0 <= j < collected.len() && collected[j] == sources[i];
        assert(collected[j].key < c.key_count);
    }
}

/// Every step keeps a well-formed cycle well formed.
pub proof fn lemma_step_preserves_wf(c: CycleView, event: EventView)
    requires
        c.wf(),
    ensures
        c.step(event).wf(),
{
    match (c.stage, event) {
        (StageView::AwaitingHeight, EventView::Height(Some(height))) => {
            if c.key_count == 0 {
                lemma_after_collection_wf(c, height, Seq::empty());
            }
        },
        (StageView::Collecting { height, key, collected }, EventView::Unspents(reply)) => {
            let gathered = collected + contribution(reply, key);
            assert forall|i: int| 0 <= i < gathered.len() implies (#[trigger] gathered[i]).key
                <= key by {
                if i < collected.len() {
                    assert(gathered[i] == collected[i]);
                } else {
                    assert(gathered[i] == contribution(reply, key)[i - collected.len()]);
                }
            }
            if key + 1 >= c.key_count {
                lemma_after_collection_wf(c, height, gathered);
            }
        },
        _ => {},
    }
}

/// One ledger's consolidation cycle.
pub struct LedgerCycle {
    key_count: usize,
    threshold: u64,
    destination: Vec<u8>,
    stage: Stage,
}

impl View for LedgerCycle {
    type V = CycleView;

    closed spec fn view(&self) -> CycleView {
        CycleView {
            key_count: self.key_count,
            threshold: self.threshold,
            destination: self.destination@,
            stage: self.stage@,
        }
    }
}

impl LedgerCycle {
    #[verifier::type_invariant]
    spec fn well_formed(self) -> bool {
        self@.wf()
    }

    /// Starts a cycle for the ledger that `config` describes: `key_count`
    /// keys are asked for their outputs, outputs worth less than the
    /// ledger's threshold are left alone, and the swept amount goes to the
    /// script `destination`.
    pub fn start(config: &LedgerConfig, key_count: usize, destination: Vec<u8>) -> (cycle:
        LedgerCycle)
        ensures
            cycle@ == (CycleView {
                key_count,
                threshold: config.output_threshold,
                destination: destination@,
                stage: StageView::AwaitingHeight,
            }),
            cycle@.wf(),
    {
        LedgerCycle {
            key_count,
            threshold: config.output_threshold,
            destination,
            stage: Stage::AwaitingHeight,
        }
    }

    /// Where the cycle stands.
    pub fn stage(&self) -> (stage: &Stage)
        ensures
            stage@ == self@.stage,
            self@.wf(),
    {
        proof {
            use_type_invariant(self);
        }
        &self.stage
    }

    /// The script that receives the swept amount.
    pub fn destination(&self) -> (destination: &Vec<u8>)
        ensures
            destination@ == self@.destination,
    {
        &self.destination
    }

    /// The action that the caller is asked to perform.
    pub fn pending(&self) -> (action: Action)
        ensures
            action == self@.pending(),
    {
        proof {
            use_type_invariant(self);
        }
        match &self.stage {
            Stage::AwaitingHeight => Action::QueryHeight,
            Stage::Collecting { height, key, collected } => Action::QueryUnspents { key: *key },
            Stage::Signing { height, sources, unsigned, signed } => Action::SignInput {
                input: signed.len(),
                key: sources[signed.len()].key,
            },
            Stage::Serializing { tx } => Action::Serialize,
            Stage::Broadcasting { payload } => Action::Broadcast,
            Stage::Finished(outcome) => Action::Finish(*outcome),
        }
    }

    /// How the cycle ended, once it has.
    pub fn outcome(&self) -> (outcome: Option<Outcome>)
        ensures
            outcome == match self@.stage {
                StageView::Finished(o) => Some(o),
                _ => None,
            },
    {
        match &self.stage {
            Stage::Finished(outcome) => Some(*outcome),
            _ => None,
        }
    }

    /// Takes the report of what came of the pending action and moves on.
    pub fn step(self, event: Event) -> (next: LedgerCycle)
        ensures
            next@ == self@.step(event@),
            next@.wf(),
    {
        proof {
            use_type_invariant(&self);
            lemma_step_preserves_wf(self@, event@);
        }
        let LedgerCycle { key_count, threshold, destination, stage } = self;
        let stage: Stage = match stage {
            Stage::AwaitingHeight => match event {
                Event::Height(Some(height)) => {
                    if key_count == 0 {
                        let collected: Vec<TaggedOutput> = Vec::new();
                        settle(threshold, &destination, height, &collected)
                    } else {
                        Stage::Collecting { height, key: 0, collected: Vec::new() }
                    }
                },
                Event::Height(None) => Stage::Finished(Outcome::HeightUnavailable),
                _ => Stage::AwaitingHeight,
            },
            Stage::Collecting { height, key, collected } => match event {
                Event::Unspents(reply) => {
                    let mut collected = collected;
                    absorb_reply(&mut collected, &reply, key);
                    if key + 1 < key_count {
                        Stage::Collecting { height, key: key + 1, collected }
                    } else {
                        settle(threshold, &destination, height, &collected)
                    }
                },
                _ => Stage::Collecting { height, key, collected },
            },
            Stage::Signing { height, sources, unsigned, signed } => match event {
                Event::Signature(Some(script_sig)) => {
                    let mut signed = signed;
                    let ghost before = signed@.map_values(|s: SignedInput| s@);
                    let position: usize = signed.len();
                    assert(unsigned@.inputs =~= inputs_for(sources@));
                    let input = attach_signature(&unsigned.inputs[position], script_sig);
                    signed.push(input);
                    assert(signed@.map_values(|s: SignedInput| s@) =~= before.push(input@));
                    if signed.len() < unsigned.inputs.len() {
                        Stage::Signing { height, sources, unsigned, signed }
                    } else {
                        Stage::Serializing {
                            tx: SignedTransaction { inputs: signed, outputs: unsigned.outputs },
                        }
                    }
                },
                Event::Signature(None) => Stage::Finished(
                    Outcome::SigningFailed { input: signed.len() },
                ),
                _ => Stage::Signing { height, sources, unsigned, signed },
            },
            Stage::Serializing { tx } => match event {
                Event::Serialized(raw) => match payload_hex(&raw) {
                    Some(payload) => Stage::Broadcasting { payload },
                    None => Stage::Finished(Outcome::PayloadTooLarge),
                },
                _ => Stage::Serializing { tx },
            },
            Stage::Broadcasting { payload } => match event {
                Event::Submitted(accepted) => Stage::Finished(
                    if accepted {
                        Outcome::Sent
                    } else {
                        Outcome::BroadcastFailed
                    },
                ),
                _ => Stage::Broadcasting { payload },
            },
            Stage::Finished(outcome) => Stage::Finished(outcome),
        };
        LedgerCycle { key_count, threshold, destination, stage }
    }
}

} // verus!
