//! Unpadded base64 text encoding of byte strings, the textual form used for
//! session keys, ciphertext messages, public keys and signatures.

use vstd::prelude::*;

verus! {

/// Reasons a piece of text failed to decode as unpadded base64.
#[derive(Clone, Copy, Debug, PartialEq, Eq)]
pub enum DecodeError {
    /// A byte at the given position is outside the base64 alphabet.
    InvalidByte(usize, u8),
    /// The text's length cannot be the length of a base64 encoding.
    InvalidLength,
    /// The final symbol carries trailing bits that no byte string produces.
    InvalidLastSymbol(usize, u8),
}

/// The unpadded, standard-alphabet base64 encoding of a byte string.
pub uninterp spec fn b64_of(bytes: Seq<u8>) -> Seq<char>;

/// What the base64 decoder yields for a piece of text: the decoded bytes, or
/// nothing where it rejects the text. A function of the text alone.
pub uninterp spec fn b64_decoded_of(text: Seq<char>) -> Option<Seq<u8>>;

/// Relies on `base64::encode_config` with `base64::STANDARD_NO_PAD`: the
/// result is the unpadded standard-alphabet base64 text for the input bytes —
/// four characters for every three bytes, rounded up, with no `=` padding.
#[verifier::external_body]
pub fn base64_encode(input: &[u8]) -> (r: String)
    ensures
        r@ == b64_of(input@),
        r@.len() == (input@.len() * 4 + 2) / 3,
        forall|i: int| 0 <= i < r@.len() ==> r@[i] != '=',
{
    base64::encode_config(input, base64::STANDARD_NO_PAD)
}

/// Relies on `base64::decode_config` with `base64::STANDARD_NO_PAD`: decoding
/// is a function of the text alone (named `b64_decoded_of`), and it inverts
/// encoding, so the unpadded encoding of any byte string decodes back to
/// exactly that byte string. (The decoder also tolerates some non-canonical
/// inputs, such as well-placed `=` padding; what it yields for those is
/// covered by the name, and nothing more is claimed of it.)
#[verifier::external_body]
pub fn base64_decode(input: &str) -> (r: Result<Vec<u8>, DecodeError>)
    ensures
        r matches Ok(v) ==> b64_decoded_of(input@) == Some(v@),
        r is Err <==> b64_decoded_of(input@) is None,
        r matches Ok(v) ==> (forall|b: Seq<u8>| input@ == #[trigger] b64_of(b) ==> v@ == b),
        r is Err ==> (forall|b: Seq<u8>| input@ != #[trigger] b64_of(b)),
{
    match base64::decode_config(input, base64::STANDARD_NO_PAD) {
        Ok(v) => Ok(v),
        Err(base64::DecodeError::InvalidByte(i, b)) => Err(DecodeError::InvalidByte(i, b)),
        Err(base64::DecodeError::InvalidLength) => Err(DecodeError::InvalidLength),
        Err(base64::DecodeError::InvalidLastSymbol(i, b)) => {
            Err(DecodeError::InvalidLastSymbol(i, b))
        },
    }
}


/// The text that lossy UTF-8 decoding produces from a byte string, with the
/// replacement character standing in for invalid sequences.
pub uninterp spec fn utf8_lossy_of(bytes: Seq<u8>) -> Seq<char>;

/// Relies on `String::from_utf8_lossy` (and `ToString` on the returned `Cow`):
/// the text is a function of the bytes alone; invalid sequences become the
/// replacement character instead of failing.
#[verifier::external_body]
pub fn utf8_lossy(bytes: &[u8]) -> (r: String)
    ensures
        r@ == utf8_lossy_of(bytes@),
{
    String::from_utf8_lossy(bytes).to_string()
}

} // verus!
