//! The forward-only key-derivation chain that keys the per-message cipher.
//! The chain carries 128 bytes of state bound to a 32-bit message index; each
//! step derives the next state, and a state is never stepped backwards.
//!
//! The step function here is a simple self-contained model construction, not
//! an implementation of any published key-derivation chain: the session logic
//! above it depends only on the chain being a deterministic, forward-only
//! function of the seed and the index, which is what the contracts state.

use vstd::prelude::*;
use zeroize::Zeroize;

verus! {

/// Byte `i` of the successor state: the byte, its right neighbour (wrapping
/// around) and the position, folded into one byte.
pub open spec fn ratchet_step_byte(s: Seq<u8>, i: int) -> u8
    recommends
        s.len() == 128,
        0 <= i < 128,
{
    ((s[i] + s[(i + 1) % 128] + i) % 256) as u8
}

/// One step of the key-derivation chain.
pub open spec fn ratchet_step(s: Seq<u8>) -> Seq<u8>
    recommends
        s.len() == 128,
{
    Seq::new(128, |i: int| ratchet_step_byte(s, i))
}

/// The chain state `n` steps after `s`.
pub open spec fn ratchet_advance(s: Seq<u8>, n: nat) -> Seq<u8>
    recommends
        s.len() == 128,
    decreases n,
{
    if n == 0 {
        s
    } else {
        ratchet_step(ratchet_advance(s, (n - 1) as nat))
    }
}

/// Advancing in two legs lands on the same state as advancing once by the sum.
pub proof fn lemma_ratchet_advance_add(s: Seq<u8>, m: nat, n: nat)
    ensures
        ratchet_advance(s, m + n) == ratchet_advance(ratchet_advance(s, m), n),
    decreases n,
{
    if n != 0 {
        lemma_ratchet_advance_add(s, m, (n - 1) as nat);
    }
}

/// One step of the chain, computed in place over a fresh buffer.
fn step(bytes: &[u8; 128]) -> (r: [u8; 128])
    ensures
        r@ == ratchet_step(bytes@),
{
    let mut r = [0u8; 128];
    let mut i: usize = 0;
    while i < 128
        invariant
            i <= 128,
            bytes@.len() == 128,
            r@.len() == 128,
            forall|j: int| 0 <= j < i ==> r@[j] == ratchet_step_byte(bytes@, j),
        decreases 128 - i,
    {
        let a = bytes[i] as u16;
        let b = bytes[(i + 1) % 128] as u16;
        r[i] = ((a + b + (i as u16)) % 256) as u8;
        i = i + 1;
    }
    assert(r@ =~= ratchet_step(bytes@));
    r
}

/// A point on the key-derivation chain: 128 bytes of state and the message
/// index they belong to. The state only ever moves forward.
pub struct Ratchet {
    bytes: [u8; 128],
    index: u32,
}

impl Ratchet {
    /// The chain state bytes.
    pub closed spec fn spec_bytes(&self) -> Seq<u8> {
        self.bytes@
    }

    /// The message index the state is bound to.
    pub closed spec fn spec_index(&self) -> u32 {
        self.index
    }

    /// A ratchet's state is always exactly 128 bytes.
    pub proof fn lemma_bytes_len(&self)
        ensures
            self.spec_bytes().len() == 128,
    {
        assert(self.bytes@.len() == 128);
    }

    /// Build a chain point from raw state bytes at a given index.
    pub fn from_bytes(bytes: [u8; 128], index: u32) -> (r: Self)
        ensures
            r.spec_bytes() == bytes@,
            r.spec_index() == index,
    {
        Ratchet { bytes, index }
    }

    /// The index this ratchet currently sits at.
    pub fn index(&self) -> (r: u32)
        ensures
            r == self.spec_index(),
    {
        self.index
    }

    /// The raw state bytes, for keying the cipher.
    pub fn as_bytes(&self) -> (r: &[u8; 128])
        ensures
            r@ == self.spec_bytes(),
    {
        &self.bytes
    }

    /// An owned copy of this chain point.
    pub fn duplicate(&self) -> (r: Self)
        ensures
            r.spec_bytes() == self.spec_bytes(),
            r.spec_index() == self.spec_index(),
    {
        Ratchet { bytes: self.bytes, index: self.index }
    }

    /// Step the state forward until it sits at the requested index. The old
    /// state is overwritten; nothing below the new index can be derived from
    /// the result.
    pub fn advance_to(&mut self, index: u32)
        requires
            old(self).spec_index() <= index,
        ensures
            final(self).spec_index() == index,
            final(self).spec_bytes() == ratchet_advance(
                old(self).spec_bytes(),
                (index - old(self).spec_index()) as nat,
            ),
    {
        while self.index < index
            invariant
                old(self).spec_index() <= self.index <= index,
                self.bytes@ == ratchet_advance(
                    old(self).spec_bytes(),
                    (self.index - old(self).spec_index()) as nat,
                ),
            decreases index - self.index,
        {
            self.bytes = step(&self.bytes);
            self.index = self.index + 1;
        }
    }
}

impl Drop for Ratchet {
    /// Relies on `zeroize::Zeroize` for `[u8; 128]`: the chain state is
    /// overwritten with zeroes, through a write the compiler may not elide.
    #[verifier::external_body]
    fn drop(&mut self)
        opens_invariants none
        no_unwind
    {
        self.bytes.zeroize();
    }
}

} // verus!
