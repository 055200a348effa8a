//! The binary layout of one ciphertext message: a little-endian message index,
//! the ciphertext, eight MAC bytes and a 64-byte signature. The MAC protects
//! everything before it; the signature protects everything before it.

use vstd::prelude::*;
use crate::util::{
    copy_bytes_64, copy_bytes_8, copy_range, le32_of, lemma_le32_round_trip, push_bytes,
    push_u32_le, u32_from_le, u32_of_le,
};

verus! {

/// Whether a byte string is long enough to hold the message layout: four index
/// bytes, a possibly empty ciphertext, eight MAC bytes and a 64-byte signature.
pub open spec fn message_well_formed(b: Seq<u8>) -> bool {
    b.len() >= 76
}

/// The message index declared in the first four bytes, little-endian.
pub open spec fn message_index_of(b: Seq<u8>) -> u32
    recommends
        message_well_formed(b),
{
    u32_of_le(b.subrange(0, 4))
}

/// The ciphertext bytes: everything between the index and the MAC.
pub open spec fn message_ciphertext_of(b: Seq<u8>) -> Seq<u8>
    recommends
        message_well_formed(b),
{
    b.subrange(4, b.len() - 72)
}

/// The eight MAC bytes before the signature.
pub open spec fn message_mac_of(b: Seq<u8>) -> Seq<u8>
    recommends
        message_well_formed(b),
{
    b.subrange(b.len() - 72, b.len() - 64)
}

/// The trailing 64 signature bytes.
pub open spec fn message_signature_of(b: Seq<u8>) -> Seq<u8>
    recommends
        message_well_formed(b),
{
    b.subrange(b.len() - 64, b.len() as int)
}

/// The MAC-protected region: every byte before the MAC.
pub open spec fn mac_region_of(b: Seq<u8>) -> Seq<u8>
    recommends
        message_well_formed(b),
{
    b.subrange(0, b.len() - 72)
}

/// The signed region: every byte before the signature.
pub open spec fn signed_region_of(b: Seq<u8>) -> Seq<u8>
    recommends
        message_well_formed(b),
{
    b.subrange(0, b.len() - 64)
}

/// The byte string that carries the given fields in the message layout.
pub open spec fn message_encoded(
    index: u32,
    ciphertext: Seq<u8>,
    mac: Seq<u8>,
    signature: Seq<u8>,
) -> Seq<u8> {
    le32_of(index) + ciphertext + mac + signature
}

/// One ciphertext message, decoded into its fields.
pub struct MegolmMessage {
    /// The message index the sender declared.
    pub message_index: u32,
    /// The encrypted payload.
    pub ciphertext: Vec<u8>,
    /// The MAC carried on the wire.
    pub mac: [u8; 8],
    /// The signature carried on the wire.
    pub signature: [u8; 64],
}

impl MegolmMessage {
    /// Split a byte string into the message fields; fails exactly when the
    /// bytes are too short for the layout.
    pub fn decode(bytes: &[u8]) -> (r: Option<MegolmMessage>)
        ensures
            r is Some <==> message_well_formed(bytes@),
            r matches Some(m) ==> m.message_index == message_index_of(bytes@) && m.ciphertext@
                == message_ciphertext_of(bytes@) && m.mac@ == message_mac_of(bytes@) && m.signature@
                == message_signature_of(bytes@),
    {
        let len = bytes.len();
        if len < 76 {
            return None;
        }
        let message_index = u32_from_le(bytes, 0);
        let ciphertext = copy_range(bytes, 4, len - 72);
        let mac = copy_bytes_8(bytes, len - 72);
        let signature = copy_bytes_64(bytes, len - 64);
        Some(MegolmMessage { message_index, ciphertext, mac, signature })
    }

    /// Lay the message fields out as one byte string.
    pub fn encode(index: u32, ciphertext: &[u8], mac: &[u8; 8], signature: &[u8; 64]) -> (r: Vec<
        u8,
    >)
        requires
            ciphertext@.len() + 76 <= usize::MAX,
        ensures
            r@ == message_encoded(index, ciphertext@, mac@, signature@),
    {
        let mut out: Vec<u8> = Vec::new();
        push_u32_le(&mut out, index);
        push_bytes(&mut out, ciphertext);
        push_bytes(&mut out, mac.as_slice());
        push_bytes(&mut out, signature.as_slice());
        out
    }
}

/// Decoding an encoded message recovers every field, and the protected regions
/// are exactly the index-plus-ciphertext (MAC) and everything but the
/// signature (signing).
pub proof fn lemma_message_round_trip(
    index: u32,
    ciphertext: Seq<u8>,
    mac: Seq<u8>,
    signature: Seq<u8>,
)
    requires
        mac.len() == 8,
        signature.len() == 64,
    ensures
        ({
            let b = message_encoded(index, ciphertext, mac, signature);
            &&& message_well_formed(b)
            &&& message_index_of(b) == index
            &&& message_ciphertext_of(b) == ciphertext
            &&& message_mac_of(b) == mac
            &&& message_signature_of(b) == signature
            &&& mac_region_of(b) == le32_of(index) + ciphertext
            &&& signed_region_of(b) == le32_of(index) + ciphertext + mac
        }),
{
    let b = message_encoded(index, ciphertext, mac, signature);
    lemma_le32_round_trip(index);
    assert(b.subrange(0, 4) =~= le32_of(index));
    assert(message_ciphertext_of(b) =~= ciphertext);
    assert(message_mac_of(b) =~= mac);
    assert(message_signature_of(b) =~= signature);
    assert(mac_region_of(b) =~= le32_of(index) + ciphertext);
    assert(signed_region_of(b) =~= le32_of(index) + ciphertext + mac);
}

} // verus!
