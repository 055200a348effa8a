//! Curve25519 Diffie-Hellman keypairs and public keys: generation, byte and
//! base64 round trips, and a zeroing pickle for the secret scalar.

use vstd::prelude::*;
use zeroize::Zeroize;
use crate::encoding::{b64_of, base64_decode, base64_encode, DecodeError};
use crate::util::copy_bytes_32;

verus! {

/// Why Curve25519 key material could not be turned into a key.
#[derive(Clone, Copy, Debug, PartialEq, Eq)]
pub enum Curve25519KeyError {
    /// The key text was not valid unpadded base64.
    Base64Error(DecodeError),
    /// The key does not have the expected number of bytes; carries how many
    /// bytes were found.
    InvalidKeyLength(usize),
}

/// The public point bytes that X25519 derives from a secret scalar.
pub uninterp spec fn curve25519_derived_key(secret: Seq<u8>) -> Seq<u8>;

/// Relies on `x25519_dalek::StaticSecret::random_from_rng` (keyed by
/// `rand::thread_rng`) and `StaticSecret::to_bytes`. The result is random;
/// nothing is claimed of it.
#[verifier::external_body]
fn generate_secret() -> [u8; 32] {
    x25519_dalek::StaticSecret::random_from_rng(rand::thread_rng()).to_bytes()
}

/// Relies on `x25519_dalek::StaticSecret::from` (stores the 32 bytes) and
/// `x25519_dalek::PublicKey::from(&StaticSecret)`: the public point is a
/// function of the secret bytes alone.
#[verifier::external_body]
fn derive_public(secret: &[u8; 32]) -> (r: [u8; 32])
    ensures
        r@ == curve25519_derived_key(secret@),
{
    x25519_dalek::PublicKey::from(&x25519_dalek::StaticSecret::from(*secret)).to_bytes()
}

/// A Curve25519 public key: a plain 32-byte point value.
#[derive(Clone, Copy, Debug, PartialEq, Eq, Hash)]
pub struct Curve25519PublicKey {
    bytes: [u8; 32],
}

impl View for Curve25519PublicKey {
    type V = Seq<u8>;

    closed spec fn view(&self) -> Seq<u8> {
        self.bytes@
    }
}

impl Curve25519PublicKey {
    /// Wrap 32 point bytes as a public key.
    pub fn new(public_key: [u8; 32]) -> (r: Curve25519PublicKey)
        ensures
            r@ == public_key@,
    {
        Curve25519PublicKey { bytes: public_key }
    }

    /// Convert this public key to a byte array.
    pub fn to_bytes(&self) -> (r: [u8; 32])
        ensures
            r@ == self@,
    {
        self.bytes
    }

    /// View this public key as a byte array.
    pub fn as_bytes(&self) -> (r: &[u8; 32])
        ensures
            r@ == self@,
    {
        &self.bytes
    }

    /// Build a public key from its unpadded base64 text; rejects malformed
    /// text distinctly from a wrong decoded length.
    pub fn from_base64(base64_key: &str) -> (r: Result<Curve25519PublicKey, Curve25519KeyError>)
        ensures
            forall|b: Seq<u8>|
                base64_key@ == #[trigger] b64_of(b) ==> match r {
                    Ok(k) => k@ == b && b.len() == 32,
                    Err(Curve25519KeyError::Base64Error(_)) => false,
                    Err(Curve25519KeyError::InvalidKeyLength(n)) => b.len() != 32 && n == b.len(),
                },
    {
        match base64_decode(base64_key) {
            Ok(key) => {
                let key_len = key.len();
                let r = Self::from_slice(key.as_slice());
                proof {
                    assert(key@.len() == key_len);
                }
                r
            },
            Err(e) => Err(Curve25519KeyError::Base64Error(e)),
        }
    }

    /// Try to build a public key from a slice of bytes; fails exactly on a
    /// wrong length.
    pub fn from_slice(slice: &[u8]) -> (r: Result<Curve25519PublicKey, Curve25519KeyError>)
        ensures
            r matches Ok(k) ==> k@ == slice@ && slice@.len() == 32,
            r is Err <==> slice@.len() != 32,
            r matches Err(e) ==> e == Curve25519KeyError::InvalidKeyLength(slice@.len() as usize),
    {
        let key_len = slice.len();
        if key_len == 32 {
            let bytes = copy_bytes_32(slice, 0);
            assert(bytes@ =~= slice@);
            Ok(Curve25519PublicKey { bytes })
        } else {
            Err(Curve25519KeyError::InvalidKeyLength(key_len))
        }
    }

    /// Serialize this public key to unpadded base64 text: 43 characters,
    /// no `=` padding.
    pub fn to_base64(&self) -> (r: String)
        ensures
            r@ == b64_of(self@),
            r@.len() == 43,
            forall|i: int| 0 <= i < r@.len() ==> r@[i] != '=',
    {
        base64_encode(self.bytes.as_slice())
    }
}

/// A Curve25519 keypair: a secret scalar and the public point derived from it,
/// with the public point's base64 text kept alongside.
pub struct Curve25519Keypair {
    secret: [u8; 32],
    public: [u8; 32],
    encoded_public: String,
}

impl Curve25519Keypair {
    /// The secret scalar bytes.
    pub closed spec fn spec_secret(&self) -> Seq<u8> {
        self.secret@
    }

    /// The public point bytes.
    pub closed spec fn spec_public(&self) -> Seq<u8> {
        self.public@
    }

    /// The public point is always the one derived from the secret scalar, and
    /// the cached text is always its base64 form.
    #[verifier::type_invariant]
    pub closed spec fn wf(self) -> bool {
        &&& self.public@ == curve25519_derived_key(self.secret@)
        &&& self.encoded_public@ == b64_of(self.public@)
        &&& self.encoded_public@.len() == 43
    }

    /// Create a new random keypair.
    pub fn new() -> (r: Self)
        ensures
            r.spec_public() == curve25519_derived_key(r.spec_secret()),
    {
        let secret = generate_secret();
        Self::from_secret_bytes(&secret)
    }

    /// Rebuild the keypair owning the given secret scalar.
    pub fn from_secret_bytes(bytes: &[u8; 32]) -> (r: Self)
        ensures
            r.spec_secret() == bytes@,
            r.spec_public() == curve25519_derived_key(bytes@),
    {
        let public = derive_public(bytes);
        let encoded_public = base64_encode(public.as_slice());
        Curve25519Keypair { secret: *bytes, public, encoded_public }
    }

    /// The secret scalar of this keypair.
    pub fn secret_key(&self) -> (r: &[u8; 32])
        ensures
            r@ == self.spec_secret(),
    {
        &self.secret
    }

    /// The public key of this keypair.
    pub fn public_key(&self) -> (r: Curve25519PublicKey)
        ensures
            r@ == self.spec_public(),
            r@ == curve25519_derived_key(self.spec_secret()),
    {
        proof {
            use_type_invariant(self);
        }
        Curve25519PublicKey { bytes: self.public }
    }

    /// The public key of this keypair as unpadded base64 text.
    pub fn public_key_encoded(&self) -> (r: &str)
        ensures
            r@ == b64_of(self.spec_public()),
            r@.len() == 43,
    {
        proof {
            use_type_invariant(self);
        }
        self.encoded_public.as_str()
    }

    /// Serialize the keypair into a pickle whose secret field is zeroed when
    /// it is dropped.
    pub fn pickle(&self) -> (r: Curve25519KeypairPickle)
        ensures
            r.spec_secret() == self.spec_secret(),
            r.spec_public() == self.spec_public(),
    {
        Curve25519KeypairPickle { secret: self.secret, public: self.public }
    }

    /// Rebuild the keypair that a pickle serialized. The public point is
    /// re-derived from the secret scalar, so the keypair's invariant holds
    /// whatever bytes the pickle carries.
    pub fn from_pickle(pickle: &Curve25519KeypairPickle) -> (r: Self)
        ensures
            r.spec_secret() == pickle.spec_secret(),
            r.spec_public() == curve25519_derived_key(pickle.spec_secret()),
    {
        Self::from_secret_bytes(&pickle.secret)
    }
}

impl Clone for Curve25519Keypair {
    /// An equal keypair: the public point and its cached text are rebuilt
    /// from the secret scalar, which the keypair's invariant makes equal to
    /// the originals.
    fn clone(&self) -> (r: Self)
        ensures
            r.spec_secret() == self.spec_secret(),
            r.spec_public() == self.spec_public(),
    {
        proof {
            use_type_invariant(self);
        }
        Self::from_secret_bytes(&self.secret)
    }
}

impl Drop for Curve25519Keypair {
    /// Relies on `zeroize::Zeroize` for `[u8; 32]`: the secret scalar is
    /// overwritten with zeroes, through a write the compiler may not elide.
    #[verifier::external_body]
    fn drop(&mut self)
        opens_invariants none
        no_unwind
    {
        self.secret.zeroize();
    }
}

/// The at-rest form of a Curve25519 keypair: the raw secret scalar and public
/// point. The secret field is overwritten with zeroes when the pickle is
/// dropped.
pub struct Curve25519KeypairPickle {
    secret: [u8; 32],
    public: [u8; 32],
}

impl Curve25519KeypairPickle {
    /// The pickled secret scalar bytes.
    pub closed spec fn spec_secret(&self) -> Seq<u8> {
        self.secret@
    }

    /// The pickled public point bytes.
    pub closed spec fn spec_public(&self) -> Seq<u8> {
        self.public@
    }

    /// The pickled secret scalar.
    pub fn secret_bytes(&self) -> (r: &[u8; 32])
        ensures
            r@ == self.spec_secret(),
    {
        &self.secret
    }

    /// The pickled public point.
    pub fn public_bytes(&self) -> (r: &[u8; 32])
        ensures
            r@ == self.spec_public(),
    {
        &self.public
    }
}

impl Drop for Curve25519KeypairPickle {
    /// Relies on `zeroize::Zeroize` for `[u8; 32]`: the secret field is
    /// overwritten with zeroes, through a write the compiler may not elide.
    #[verifier::external_body]
    fn drop(&mut self)
        opens_invariants none
        no_unwind
    {
        self.secret.zeroize();
    }
}


/// Reading a public key's base64 text back yields the same key.
pub fn curve25519_key_base64_round_trip(key: &Curve25519PublicKey) -> (r: Curve25519PublicKey)
    ensures
        r@ == key@,
{
    let text = key.to_base64();
    match Curve25519PublicKey::from_base64(text.as_str()) {
        Ok(k) => k,
        Err(_) => vstd::pervasive::unreached(),
    }
}

/// Serializing a keypair into a pickle and rebuilding it yields a pickle with
/// the same bytes, secret and public alike.
pub fn curve25519_pickle_round_trip(keypair: &Curve25519Keypair) -> (r: Curve25519KeypairPickle)
    ensures
        r.spec_secret() == keypair.spec_secret(),
        r.spec_public() == keypair.spec_public(),
{
    proof {
        use_type_invariant(keypair);
    }
    let pickle = keypair.pickle();
    Curve25519Keypair::from_pickle(&pickle).pickle()
}

} // verus!
