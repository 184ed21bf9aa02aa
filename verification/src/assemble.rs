//! The transaction assembler: one input per eligible output, one output
//! that carries what is left after the fee.

use crate::types::{
    OutPoint, OutPointView, TaggedOutput, TxOutput, TxOutputView, UnsignedInput,
    UnsignedInputView, UnsignedTransaction, UnsignedTxView, Unspent, FEE_PER_INPUT, MIN_INPUTS,
    SEQUENCE_FINAL,
};
use vstd::prelude::*;

verus! {

/// Why no transaction was built from a set of eligible outputs.
#[derive(Clone, Copy, Debug, PartialEq, Eq)]
pub enum AssembleError {
    /// The fees consume the whole value of the inputs.
    NothingToSend,
    /// The amount to send does not fit the value field of an output.
    AmountTooLarge,
}

/// The input that spends `output`: it names the output by its transaction
/// id, turned into the byte order used inside transactions, and by its
/// position, never expires, and carries the output's value.
pub open spec fn input_for(output: Unspent) -> UnsignedInputView {
    UnsignedInputView {
        previous_output: OutPointView { hash: output.tx_hash@.reverse(), index: output.tx_pos },
        sequence: SEQUENCE_FINAL,
        amount: output.value,
    }
}

/// The inputs for a list of tagged outputs, position by position.
pub open spec fn inputs_for(sources: Seq<TaggedOutput>) -> Seq<UnsignedInputView> {
    sources.map_values(|t: TaggedOutput| input_for(t.output))
}

/// Sum of the values of `sources`.
pub open spec fn total_value(sources: Seq<TaggedOutput>) -> int
    decreases sources.len(),
{
    if sources.len() == 0 {
        0
    } else {
        total_value(sources.drop_last()) + sources.last().output.value
    }
}

/// What remains of the value of `sources` once the fee has been deducted
/// for each of them.
pub open spec fn net_value(sources: Seq<TaggedOutput>) -> int {
    total_value(sources) - FEE_PER_INPUT * sources.len()
}

/// Sum of the amounts that `inputs` carry.
pub open spec fn input_sum(inputs: Seq<UnsignedInputView>) -> int
    decreases inputs.len(),
{
    if inputs.len() == 0 {
        0
    } else {
        input_sum(inputs.drop_last()) + inputs.last().amount
    }
}

/// Sum of the values of `outputs`.
pub open spec fn output_sum(outputs: Seq<TxOutputView>) -> int
    decreases outputs.len(),
{
    if outputs.len() == 0 {
        0
    } else {
        output_sum(outputs.drop_last()) + outputs.last().value
    }
}

/// The transaction that sweeps `sources` to `destination`, or the reason
/// why there is none.
pub open spec fn assembled(sources: Seq<TaggedOutput>, destination: Seq<u8>) -> Result<
    UnsignedTxView,
    AssembleError,
> {
    let net = net_value(sources);
    if net <= 0 {
        Err(AssembleError::NothingToSend)
    } else if net > u64::MAX {
        Err(AssembleError::AmountTooLarge)
    } else {
        Ok(
            UnsignedTxView {
                inputs: inputs_for(sources),
                outputs: seq![TxOutputView { value: net as u64, script_pubkey: destination }],
            },
        )
    }
}

/// Turns a transaction id from display byte order into the byte order used
/// inside transactions, and back.
pub fn reversed(hash: &[u8; 32]) -> (out: [u8; 32])
    ensures
        out@ == hash@.reverse(),
{
    let mut out: [u8; 32] = [0u8; 32];
    let mut i: usize = 0;
    while i < 32
        invariant
            i <= 32,
            forall|j: int| 0 <= j < i ==> out@[j] == hash@[31 - j],
        decreases 32 - i,
    {
        out[i] = hash[31 - i];
        i += 1;
    }
    assert(out@ =~= hash@.reverse());
    out
}

/// Builds the input that spends an unspent output reported by a ledger
/// server.
pub fn unsigned_input_from_electrum(el: &Unspent) -> (input: UnsignedInput)
    ensures
        input@ == input_for(*el),
{
    UnsignedInput {
        previous_output: OutPoint { hash: reversed(&el.tx_hash), index: el.tx_pos },
        sequence: SEQUENCE_FINAL,
        amount: el.value,
    }
}

/// The amounts of the inputs built for `sources` add up to the value of
/// `sources`.
pub proof fn lemma_input_sum_is_total_value(sources: Seq<TaggedOutput>)
    ensures
        input_sum(inputs_for(sources)) == total_value(sources),
    decreases sources.len(),
{
    if sources.len() > 0 {
        lemma_input_sum_is_total_value(sources.drop_last());
        assert(inputs_for(sources).drop_last() =~= inputs_for(sources.drop_last()));
    }
}

/// In every assembled transaction the outputs are worth exactly the inputs
/// less one fee per input, and there is one input per source, in the order
/// of the sources.
pub proof fn lemma_assembled_balance(sources: Seq<TaggedOutput>, destination: Seq<u8>)
    ensures
        assembled(sources, destination) matches Ok(tx) ==> {
            &&& tx.inputs.len() == sources.len()
            &&& tx.outputs.len() == 1
            &&& tx.outputs[0].script_pubkey == destination
            &&& output_sum(tx.outputs) == input_sum(tx.inputs) - FEE_PER_INPUT * tx.inputs.len()
            &&& output_sum(tx.outputs) > 0
        },
{
    if let Ok(tx) = assembled(sources, destination) {
        lemma_input_sum_is_total_value(sources);
        assert(tx.outputs.drop_last() =~= Seq::<TxOutputView>::empty());
        assert(output_sum(tx.outputs) == output_sum(tx.outputs.drop_last())
            + tx.outputs.last().value);
    }
}

/// Builds the transaction that sweeps `sources` to `destination`: one input
/// per source in the given order, and a single output worth the sum of the
/// sources less `FEE_PER_INPUT` for each of them. Nothing is built when
/// that amount is not positive or does not fit an output.
pub fn assemble(sources: &Vec<TaggedOutput>, destination: &Vec<u8>) -> (built: Result<
    UnsignedTransaction,
    AssembleError,
>)
    requires
        sources.len() >= MIN_INPUTS,
    ensures
        match built {
            Ok(tx) => assembled(sources@, destination@) == Ok::<UnsignedTxView, AssembleError>(
                tx@,
            ),
            Err(e) => assembled(sources@, destination@) == Err::<UnsignedTxView, AssembleError>(e),
        },
        built matches Ok(tx) ==> output_sum(tx@.outputs) == input_sum(tx@.inputs) - FEE_PER_INPUT
            * tx@.inputs.len(),
{
    let mut inputs: Vec<UnsignedInput> = Vec::new();
    let mut total: u128 = 0;
    let mut i: usize = 0;
    proof {
        assert(sources@.take(0) =~= Seq::<TaggedOutput>::empty());
    }
    while i < sources.len()
        invariant
            i <= sources.len(),
            inputs@.len() == i,
            forall|j: int| 0 <= j < i ==> (#[trigger] inputs@[j])@ == input_for(sources@[j].output),
            total == total_value(sources@.take(i as int)),
            total <= i * u64::MAX,
        decreases sources.len() - i,
    {
        let source: TaggedOutput = sources[i];
        proof {
            assert(sources@.take(i + 1).drop_last() =~= sources@.take(i as int));
        }
        inputs.push(unsigned_input_from_electrum(&source.output));
        total = total + source.output.value as u128;
        i += 1;
    }
    proof {
        assert(sources@.take(i as int) =~= sources@);
    }
    let fees: u128 = FEE_PER_INPUT as u128 * sources.len() as u128;
    if total <= fees {
        return Err(AssembleError::NothingToSend);
    }
    let net: u128 = total - fees;
    if net > u64::MAX as u128 {
        return Err(AssembleError::AmountTooLarge);
    }
    let mut outputs: Vec<TxOutput> = Vec::new();
    outputs.push(TxOutput { value: net as u64, script_pubkey: destination.clone() });
    let tx = UnsignedTransaction { inputs, outputs };
    proof {
        assert(tx@.inputs =~= inputs_for(sources@));
        assert(tx.outputs@[0].script_pubkey@ =~= destination@);
        assert(tx@.outputs =~= seq![
            TxOutputView { value: net as u64, script_pubkey: destination@ },
        ]);
        lemma_assembled_balance(sources@, destination@);
    }
    Ok(tx)
}

} // verus!
