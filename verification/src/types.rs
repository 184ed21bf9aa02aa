//! The values that pass through one consolidation cycle.
//!
//! Keys never enter this crate. A key is named by its position in the
//! caller's key registry, and the claim script of an unspent output is the
//! one that belongs to the key it is tagged with.

use vstd::prelude::*;

verus! {

/// Sequence number of an input that takes no part in relative lock times.
pub const SEQUENCE_FINAL: u32 = 0xffff_ffff;

/// Fee deducted from the swept amount once for every input.
pub const FEE_PER_INPUT: u64 = 1000;

/// Fewest eligible outputs for which a consolidation is worth its fee.
pub const MIN_INPUTS: usize = 4;

/// An output is mature once the chain is more than this many blocks past
/// the block that confirmed it.
pub const CONFIRMATION_DEPTH: u64 = 100;

/// Pause between two passes over the ledgers, in seconds.
pub const SLEEP_SECONDS: u64 = 900;

/// An unspent output as a ledger server reports it.
#[derive(Clone, Copy, Debug, PartialEq, Eq)]
pub struct Unspent {
    /// Id of the transaction that created the output, in display byte order.
    pub tx_hash: [u8; 32],
    /// Position of the output within that transaction.
    pub tx_pos: u32,
    /// Value in the ledger's smallest unit.
    pub value: u64,
    /// Height of the confirming block; `None` while unconfirmed.
    pub height: Option<u64>,
}

/// An unspent output together with the registry position of the key that
/// can claim it.
#[derive(Clone, Copy, Debug, PartialEq, Eq)]
pub struct TaggedOutput {
    pub output: Unspent,
    pub key: usize,
}

/// Reference to an output of an earlier transaction.
#[derive(Clone, Copy, Debug, PartialEq, Eq)]
pub struct OutPoint {
    /// Transaction id in the byte order used inside transactions.
    pub hash: [u8; 32],
    pub index: u32,
}

/// An input that has not been signed yet. It carries the amount of the
/// output it spends, which signing and fee computation need.
#[derive(Clone, Copy, Debug, PartialEq, Eq)]
pub struct UnsignedInput {
    pub previous_output: OutPoint,
    pub sequence: u32,
    pub amount: u64,
}

/// A newly created output.
#[derive(Clone, Debug, PartialEq, Eq)]
pub struct TxOutput {
    pub value: u64,
    pub script_pubkey: Vec<u8>,
}

/// A transaction under construction.
#[derive(Clone, Debug, PartialEq, Eq)]
pub struct UnsignedTransaction {
    pub inputs: Vec<UnsignedInput>,
    pub outputs: Vec<TxOutput>,
}

/// An input with the script that satisfies the claim of the spent output.
#[derive(Clone, Debug, PartialEq, Eq)]
pub struct SignedInput {
    pub previous_output: OutPoint,
    pub script_sig: Vec<u8>,
    pub sequence: u32,
}

/// A transaction ready to be serialized and broadcast.
#[derive(Clone, Debug, PartialEq, Eq)]
pub struct SignedTransaction {
    pub inputs: Vec<SignedInput>,
    pub outputs: Vec<TxOutput>,
}

/// Static settings of one ledger.
#[derive(Clone, Debug, PartialEq, Eq)]
pub struct LedgerConfig {
    /// Name of the ledger, used to identify it in reports.
    pub ticker: String,
    /// Outputs below this value are left alone.
    pub output_threshold: u64,
}

/// An `OutPoint` as the contracts see it.
pub struct OutPointView {
    pub hash: Seq<u8>,
    pub index: u32,
}

/// An `UnsignedInput` as the contracts see it.
pub struct UnsignedInputView {
    pub previous_output: OutPointView,
    pub sequence: u32,
    pub amount: u64,
}

/// A `TxOutput` as the contracts see it.
pub struct TxOutputView {
    pub value: u64,
    pub script_pubkey: Seq<u8>,
}

/// An `UnsignedTransaction` as the contracts see it.
pub struct UnsignedTxView {
    pub inputs: Seq<UnsignedInputView>,
    pub outputs: Seq<TxOutputView>,
}

/// A `SignedInput` as the contracts see it.
pub struct SignedInputView {
    pub previous_output: OutPointView,
    pub script_sig: Seq<u8>,
    pub sequence: u32,
}

/// A `SignedTransaction` as the contracts see it.
pub struct SignedTxView {
    pub inputs: Seq<SignedInputView>,
    pub outputs: Seq<TxOutputView>,
}

impl View for OutPoint {
    type V = OutPointView;

    open spec fn view(&self) -> OutPointView {
        OutPointView { hash: self.hash@, index: self.index }
    }
}

impl View for UnsignedInput {
    type V = UnsignedInputView;

    open spec fn view(&self) -> UnsignedInputView {
        UnsignedInputView {
            previous_output: self.previous_output@,
            sequence: self.sequence,
            amount: self.amount,
        }
    }
}

impl View for TxOutput {
    type V = TxOutputView;

    open spec fn view(&self) -> TxOutputView {
        TxOutputView { value: self.value, script_pubkey: self.script_pubkey@ }
    }
}

impl View for UnsignedTransaction {
    type V = UnsignedTxView;

    open spec fn view(&self) -> UnsignedTxView {
        UnsignedTxView {
            inputs: self.inputs@.map_values(|i: UnsignedInput| i@),
            outputs: self.outputs@.map_values(|o: TxOutput| o@),
        }
    }
}

impl View for SignedInput {
    type V = SignedInputView;

    open spec fn view(&self) -> SignedInputView {
        SignedInputView {
            previous_output: self.previous_output@,
            script_sig: self.script_sig@,
            sequence: self.sequence,
        }
    }
}

impl View for SignedTransaction {
    type V = SignedTxView;

    open spec fn view(&self) -> SignedTxView {
        SignedTxView {
            inputs: self.inputs@.map_values(|i: SignedInput| i@),
            outputs: self.outputs@.map_values(|o: TxOutput| o@),
        }
    }
}

} // verus!
