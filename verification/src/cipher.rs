//! The symmetric cipher keyed by ratchet state: a keyed MAC over the protected
//! bytes and a self-inverse keystream transform for the payload.
//!
//! Both are simple self-contained model constructions, not implementations of
//! any published MAC or cipher, and material they produce does not
//! interoperate with other schemes: the decrypt pipeline depends only on the
//! MAC being a function of the key and the protected bytes and the transform
//! being its own inverse, which is what the contracts state. Because the
//! transform is total, this cipher never rejects a ciphertext.

use vstd::prelude::*;
use crate::util::{le64_of, lemma_le64_injective, u64_to_le};

verus! {

/// The weight a byte position carries in the MAC sum.
pub open spec fn mac_weight(i: int) -> int {
    i % 0x100000000 + 1
}

/// The position-weighted sum over a byte string that feeds the MAC.
pub open spec fn mac_units(s: Seq<u8>) -> int
    decreases s.len(),
{
    if s.len() == 0 {
        0
    } else {
        mac_units(s.drop_last()) + (s.last() + 1) * mac_weight(s.len() - 1)
    }
}

/// The 64-bit MAC over a message under a key.
pub open spec fn mac_value(key: Seq<u8>, data: Seq<u8>) -> u64 {
    ((mac_units(key) + mac_units(data)) % 0x10000000000000000) as u64
}

/// The eight MAC bytes carried on the wire: the MAC value, little-endian.
pub open spec fn mac_bytes_of(key: Seq<u8>, data: Seq<u8>) -> Seq<u8> {
    le64_of(mac_value(key, data))
}

/// The keystream transform: byte `i` is XORed with key byte `i % 128`.
/// Applying it twice with one key gives the input back.
pub open spec fn xor_transform(key: Seq<u8>, data: Seq<u8>) -> Seq<u8>
    recommends
        key.len() == 128,
{
    Seq::new(data.len(), |i: int| data[i] ^ key[i % 128])
}

/// The MAC sum of a byte string is nonnegative and grows at most by a fixed
/// amount for each byte.
pub proof fn lemma_mac_units_bound(s: Seq<u8>)
    ensures
        0 <= mac_units(s) <= s.len() * 0x10000000000,
    decreases s.len(),
{
    if s.len() == 0 {
    } else {
        lemma_mac_units_bound(s.drop_last());
        assert(0 <= (s.last() + 1) * mac_weight(s.len() - 1) <= 0x10000000000) by (nonlinear_arith)
            requires
                0 <= s.last() < 256,
                1 <= mac_weight(s.len() - 1) <= 0x100000000,
        ;
        assert((s.len() - 1) * 0x10000000000 + 0x10000000000 == s.len() * 0x10000000000)
            by (nonlinear_arith);
    }
}

/// Compute the MAC sum of a byte string exactly.
fn mac_units_exec(data: &[u8]) -> (r: u128)
    ensures
        r as int == mac_units(data@),
{
    let len = data.len();
    let mut acc: u128 = 0;
    let mut i: usize = 0;
    proof {
        assert(data@.take(0) =~= Seq::<u8>::empty());
    }
    while i < len
        invariant
            i <= len,
            len == data@.len(),
            acc as int == mac_units(data@.take(i as int)),
        decreases len - i,
    {
        proof {
            lemma_mac_units_bound(data@.take(i as int));
            assert(i * 0x10000000000 <= 0xffffffffffffffff * 0x10000000000) by (nonlinear_arith)
                requires
                    0 <= i <= 0xffffffffffffffff,
            ;
        }
        let w: u64 = ((i as u64) % 0x100000000) + 1;
        proof {
            assert((data@[i as int] + 1) * (w as int) == (data@[i as int] + 1) * mac_weight(
                i as int,
            ) && 0 <= (data@[i as int] + 1) * (w as int) <= 0x10000000000) by (nonlinear_arith)
                requires
                    0 <= data@[i as int] < 256,
                    w == (i as int) % 0x100000000 + 1,
                    1 <= w <= 0x100000000,
            ;
            assert(data@.take(i + 1).drop_last() =~= data@.take(i as int));
            assert(data@.take(i + 1).last() == data@[i as int]);
        }
        let term: u128 = ((data[i] as u128) + 1) * (w as u128);
        acc = acc + term;
        i = i + 1;
    }
    proof {
        assert(data@.take(len as int) =~= data@);
    }
    acc
}

/// The symmetric cipher: 128 key bytes taken from ratchet state.
pub struct Cipher {
    key: [u8; 128],
}

impl Cipher {
    /// The key bytes this cipher was built over.
    pub closed spec fn spec_key(&self) -> Seq<u8> {
        self.key@
    }

    /// Key a cipher with ratchet state bytes.
    pub fn new_megolm(key: &[u8; 128]) -> (r: Self)
        ensures
            r.spec_key() == key@,
    {
        Cipher { key: *key }
    }

    /// The MAC bytes over a message under this cipher's key.
    pub fn compute_mac(&self, message: &[u8]) -> (r: [u8; 8])
        ensures
            r@ == mac_bytes_of(self.spec_key(), message@),
    {
        let k = mac_units_exec(self.key.as_slice());
        let mlen = message.len();
        let d = mac_units_exec(message);
        proof {
            lemma_mac_units_bound(self.key@);
            lemma_mac_units_bound(message@);
            assert(mlen * 0x10000000000 <= 0xffffffffffffffff * 0x10000000000)
                by (nonlinear_arith)
                requires
                    0 <= mlen <= 0xffffffffffffffff,
            ;
        }
        let v: u64 = ((k + d) % 0x10000000000000000) as u64;
        u64_to_le(v)
    }

    /// Check the MAC carried on the wire against the one this key produces
    /// over the message.
    pub fn verify_mac(&self, message: &[u8], mac: &[u8; 8]) -> (r: bool)
        ensures
            r == (mac@ == mac_bytes_of(self.spec_key(), message@)),
    {
        let expected = self.compute_mac(message);
        let mut i: usize = 0;
        while i < 8
            invariant
                i <= 8,
                expected@ == mac_bytes_of(self.spec_key(), message@),
                mac@.len() == 8,
                expected@.len() == 8,
                forall|j: int| 0 <= j < i ==> mac@[j] == expected@[j],
            decreases 8 - i,
        {
            if mac[i] != expected[i] {
                return false;
            }
            i = i + 1;
        }
        proof {
            assert(mac@ =~= expected@);
        }
        true
    }

    /// Apply the keystream to a plaintext, giving the ciphertext.
    pub fn encrypt(&self, plaintext: &[u8]) -> (r: Vec<u8>)
        ensures
            r@ == xor_transform(self.spec_key(), plaintext@),
    {
        self.transform(plaintext)
    }

    /// Apply the keystream to a ciphertext, giving the plaintext back. The
    /// transform is total: authenticity comes from the MAC check before it.
    pub fn decrypt(&self, ciphertext: &[u8]) -> (r: Vec<u8>)
        ensures
            r@ == xor_transform(self.spec_key(), ciphertext@),
    {
        self.transform(ciphertext)
    }

    fn transform(&self, data: &[u8]) -> (r: Vec<u8>)
        ensures
            r@ == xor_transform(self.spec_key(), data@),
    {
        let len = data.len();
        let mut out: Vec<u8> = Vec::new();
        let mut i: usize = 0;
        while i < len
            invariant
                i <= len,
                len == data@.len(),
                out@.len() == i,
                forall|j: int| 0 <= j < i ==> out@[j] == (data@[j] ^ self.spec_key()[j % 128]),
            decreases len - i,
        {
            out.push(data[i] ^ self.key[i % 128]);
            i = i + 1;
        }
        proof {
            assert(out@ =~= xor_transform(self.spec_key(), data@));
        }
        out
    }
}

/// Applying the keystream transform twice under one key gives the input back:
/// decrypting an encryption recovers the plaintext exactly.
pub proof fn lemma_xor_round_trip(key: Seq<u8>, data: Seq<u8>)
    requires
        key.len() == 128,
    ensures
        xor_transform(key, xor_transform(key, data)) == data,
{
    let once = xor_transform(key, data);
    let twice = xor_transform(key, once);
    assert forall|i: int| 0 <= i < data.len() implies twice[i] == data[i] by {
        let d = data[i];
        let k = key[i % 128];
        assert((d ^ k) ^ k == d) by (bit_vector);
    }
    assert(twice =~= data);
}


/// Two equal-length byte strings that differ in exactly one position have MAC
/// sums that differ by that byte's weighted difference.
proof fn lemma_mac_units_single_change(d1: Seq<u8>, d2: Seq<u8>, j: int)
    requires
        d1.len() == d2.len(),
        0 <= j < d1.len(),
        forall|i: int| 0 <= i < d1.len() && i != j ==> d1[i] == d2[i],
    ensures
        mac_units(d1) - mac_units(d2) == (d1[j] - d2[j]) * mac_weight(j),
    decreases d1.len(),
{
    if j == d1.len() - 1 {
        assert(d1.drop_last() =~= d2.drop_last());
        assert((d1.last() + 1) * mac_weight(j) - (d2.last() + 1) * mac_weight(j) == (d1[j] - d2[j])
            * mac_weight(j)) by (nonlinear_arith)
            requires
                d1.last() == d1[j],
                d2.last() == d2[j],
        ;
    } else {
        lemma_mac_units_single_change(d1.drop_last(), d2.drop_last(), j);
        assert(d1.drop_last()[j] == d1[j] && d2.drop_last()[j] == d2[j]);
        assert(d1.last() == d2.last());
    }
}

/// Tampering with exactly one byte of the MAC-protected bytes changes the MAC,
/// under every key: a single-byte change never passes the MAC check silently.
pub proof fn lemma_mac_detects_byte_change(key: Seq<u8>, d1: Seq<u8>, d2: Seq<u8>, j: int)
    requires
        d1.len() == d2.len(),
        0 <= j < d1.len(),
        d1[j] != d2[j],
        forall|i: int| 0 <= i < d1.len() && i != j ==> d1[i] == d2[i],
    ensures
        mac_bytes_of(key, d1) != mac_bytes_of(key, d2),
{
    lemma_mac_units_single_change(d1, d2, j);
    let diff = (d1[j] - d2[j]) * mac_weight(j);
    assert(diff != 0 && -0x10000000000 < diff < 0x10000000000) by (nonlinear_arith)
        requires
            diff == (d1[j] - d2[j]) * mac_weight(j),
            0 <= d1[j] < 256,
            0 <= d2[j] < 256,
            d1[j] != d2[j],
            1 <= mac_weight(j) <= 0x100000000,
    ;
    let m = 0x10000000000000000;
    let a = mac_units(key) + mac_units(d1);
    let b = mac_units(key) + mac_units(d2);
    assert(a - b == diff);
    if mac_value(key, d1) == mac_value(key, d2) {
        lemma_mac_units_bound(key);
        lemma_mac_units_bound(d1);
        lemma_mac_units_bound(d2);
        assert(a % m == b % m);
        vstd::arithmetic::div_mod::lemma_fundamental_div_mod(a, m);
        vstd::arithmetic::div_mod::lemma_fundamental_div_mod(b, m);
        assert(a - b == m * (a / m) - m * (b / m));
        assert(m * (a / m) - m * (b / m) == m * (a / m - b / m)) by (nonlinear_arith);
        assert(a / m - b / m != 0);
        assert(m * (a / m - b / m) >= m || m * (a / m - b / m) <= -m) by (nonlinear_arith)
            requires
                a / m - b / m != 0,
                m == 0x10000000000000000,
        ;
        assert(false);
    }
    if mac_bytes_of(key, d1) == mac_bytes_of(key, d2) {
        lemma_le64_injective(mac_value(key, d1), mac_value(key, d2));
        assert(false);
    }
}

} // verus!
