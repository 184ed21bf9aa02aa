//! The signer's bookkeeping: a signature never changes which output an
//! input spends, and signed inputs keep the positions of the unsigned ones.

use crate::types::{
    SignedInput, SignedInputView, SignedTxView, UnsignedInput, UnsignedInputView, UnsignedTxView,
};
use vstd::prelude::*;

verus! {

/// The unsigned `input` with `script_sig` attached.
pub open spec fn signed_input(input: UnsignedInputView, script_sig: Seq<u8>) -> SignedInputView {
    SignedInputView {
        previous_output: input.previous_output,
        script_sig,
        sequence: input.sequence,
    }
}

/// Whether the first inputs of `unsigned` have been signed as `signed`:
/// the signed input at each position spends the same output, with the same
/// sequence number, as the unsigned input at that position.
pub open spec fn signed_in_place(
    unsigned: Seq<UnsignedInputView>,
    signed: Seq<SignedInputView>,
) -> bool {
    &&& signed.len() <= unsigned.len()
    &&& forall|i: int|
        0 <= i < signed.len() ==> (#[trigger] signed[i]).previous_output
            == unsigned[i].previous_output && signed[i].sequence == unsigned[i].sequence
}

/// Whether `signed` is `unsigned` with every input signed in place and the
/// outputs untouched.
pub open spec fn is_signed_form(unsigned: UnsignedTxView, signed: SignedTxView) -> bool {
    &&& signed.inputs.len() == unsigned.inputs.len()
    &&& signed_in_place(unsigned.inputs, signed.inputs)
    &&& signed.outputs == unsigned.outputs
}

/// Attaches the script produced by the signer to the input it was made
/// for.
pub fn attach_signature(input: &UnsignedInput, script_sig: Vec<u8>) -> (signed: SignedInput)
    ensures
        signed@ == signed_input(input@, script_sig@),
{
    SignedInput { previous_output: input.previous_output, script_sig, sequence: input.sequence }
}

} // verus!
