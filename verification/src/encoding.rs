//! Hexadecimal text for script hashes and raw transactions.

use vstd::prelude::*;

verus! {

/// The sixteen lowercase hexadecimal digits, in order of their value.
pub open spec fn hex_digits() -> Seq<char> {
    seq!['0', '1', '2', '3', '4', '5', '6', '7', '8', '9', 'a', 'b', 'c', 'd', 'e', 'f']
}

/// Lowercase hexadecimal text of `bytes`: two digits per byte, the high
/// half of each byte first.
pub open spec fn hex_lower(bytes: Seq<u8>) -> Seq<char> {
    Seq::new(
        2 * bytes.len(),
        |i: int|
            if i % 2 == 0 {
                hex_digits()[bytes[i / 2] as int / 16]
            } else {
                hex_digits()[bytes[i / 2] as int % 16]
            },
    )
}

/// Whether text for `len` bytes fits in a `String`.
pub open spec fn encodable_len(len: nat) -> bool {
    2 * len <= isize::MAX
}

/// Calls `hex::encode`. The contract restates what that function documents
/// and its source shows: every byte becomes two characters taken from the
/// table `0123456789abcdef`, first the one for the byte's high four bits,
/// then the one for its low four bits. Inputs whose text would exceed the
/// largest possible allocation are left out.
#[verifier::external_body]
fn encode_lower(data: &[u8]) -> (text: String)
    requires
        encodable_len(data@.len()),
    ensures
        text@ == hex_lower(data@),
{
    hex::encode(data)
}

/// Text under which a script hash is looked up on a ledger server.
pub fn script_hash_hex(hash: &[u8; 32]) -> (text: String)
    ensures
        text@ == hex_lower(hash@),
        text@.len() == 64,
{
    encode_lower(hash.as_slice())
}

/// Text of a serialized transaction as it is handed over for broadcast, or
/// `None` when the transaction is too long to be written out.
pub fn payload_hex(raw: &Vec<u8>) -> (text: Option<String>)
    ensures
        text.is_some() <==> encodable_len(raw@.len()),
        text matches Some(t) ==> t@ == hex_lower(raw@),
{
    if raw.len() <= (isize::MAX as usize) / 2 {
        Some(encode_lower(raw.as_slice()))
    } else {
        None
    }
}

} // verus!
