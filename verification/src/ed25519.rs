//! Ed25519 signing keypairs, public keys and signatures: generation, signing,
//! verification, byte and base64 round trips, and a zeroing pickle for the
//! secret key.

use vstd::prelude::*;
use ed25519_dalek::{Signer, Verifier};
use zeroize::Zeroize;
use crate::encoding::{b64_of, base64_decode, base64_encode, DecodeError};
use crate::util::copy_bytes_32;

verus! {

/// Why a signature operation failed.
#[derive(Clone, Copy, Debug, PartialEq, Eq)]
pub enum SignatureError {
    /// The signature text was not valid unpadded base64.
    Base64(DecodeError),
    /// The signature did not validate, or its bytes have the wrong length.
    Signature,
}

/// Why key material could not be turned into a key.
#[derive(Clone, Copy, Debug, PartialEq, Eq)]
pub enum KeyError {
    /// The key text was not valid unpadded base64.
    Base64(DecodeError),
    /// The key field does not have the expected number of bytes.
    InvalidKeyLength(usize),
    /// The bytes do not encode a valid public key.
    Signature,
}

/// The verifying-key bytes that the Ed25519 scheme derives from a secret key.
pub uninterp spec fn ed25519_derived_key(secret: Seq<u8>) -> Seq<u8>;

/// Whether 32 bytes are a well-formed Ed25519 public key.
pub uninterp spec fn ed25519_key_valid(key: Seq<u8>) -> bool;

/// The signature that the secret key produces over a message.
pub uninterp spec fn ed25519_signature_of(secret: Seq<u8>, message: Seq<u8>) -> Seq<u8>;

/// Whether a signature validates over a message under a public key.
pub uninterp spec fn ed25519_verifies(key: Seq<u8>, message: Seq<u8>, signature: Seq<u8>) -> bool;

/// Relies on `ed25519_dalek::SigningKey::generate` (keyed by `rand::thread_rng`)
/// and `SigningKey::to_bytes`. The result is random; nothing is claimed of it.
#[verifier::external_body]
fn generate_secret() -> [u8; 32] {
    ed25519_dalek::SigningKey::generate(&mut rand::thread_rng()).to_bytes()
}

/// Relies on `ed25519_dalek::SigningKey::from_bytes` (total on 32 bytes) and
/// `SigningKey::verifying_key`: the verifying key is a function of the secret
/// bytes alone, and is itself a well-formed public key.
#[verifier::external_body]
fn derive_public(secret: &[u8; 32]) -> (r: [u8; 32])
    ensures
        r@ == ed25519_derived_key(secret@),
        ed25519_key_valid(r@),
{
    ed25519_dalek::SigningKey::from_bytes(secret).verifying_key().to_bytes()
}

/// Relies on `ed25519_dalek::SigningKey::from_bytes` and `Signer::sign` for
/// `SigningKey`: Ed25519 signing is deterministic in the secret key and the
/// message (and in this version never fails), and the crate documents that the
/// produced signature verifies under the matching verifying key.
#[verifier::external_body]
fn sign_with(secret: &[u8; 32], message: &[u8]) -> (r: [u8; 64])
    ensures
        r@ == ed25519_signature_of(secret@, message@),
        ed25519_verifies(ed25519_derived_key(secret@), message@, r@),
{
    ed25519_dalek::SigningKey::from_bytes(secret).sign(message).to_bytes()
}

/// Relies on `ed25519_dalek::VerifyingKey::from_bytes`: it succeeds exactly on
/// the byte strings that encode a curve point, a function of the bytes alone.
#[verifier::external_body]
fn check_public_key(bytes: &[u8; 32]) -> (r: bool)
    ensures
        r == ed25519_key_valid(bytes@),
{
    ed25519_dalek::VerifyingKey::from_bytes(bytes).is_ok()
}

/// Relies on `ed25519_dalek::VerifyingKey::from_bytes`,
/// `ed25519_dalek::Signature::from_bytes` (total on 64 bytes) and
/// `Verifier::verify` for `VerifyingKey`: verification is a function of the
/// key, message and signature bytes alone.
#[verifier::external_body]
fn verify_with(key: &[u8; 32], message: &[u8], signature: &[u8; 64]) -> (r: bool)
    ensures
        r == (ed25519_key_valid(key@) && ed25519_verifies(key@, message@, signature@)),
{
    match ed25519_dalek::VerifyingKey::from_bytes(key) {
        Ok(k) => k.verify(message, &ed25519_dalek::Signature::from_bytes(signature)).is_ok(),
        Err(_) => false,
    }
}

/// An Ed25519 public key: 32 bytes that are known to form a valid key.
#[derive(Clone, Copy, Debug, PartialEq, Eq)]
pub struct Ed25519PublicKey {
    bytes: [u8; 32],
}

impl View for Ed25519PublicKey {
    type V = Seq<u8>;

    closed spec fn view(&self) -> Seq<u8> {
        self.bytes@
    }
}

impl Ed25519PublicKey {
    /// Every value of this type holds well-formed key bytes.
    #[verifier::type_invariant]
    pub closed spec fn wf(self) -> bool {
        ed25519_key_valid(self.bytes@)
    }

    /// Try to build a public key from 32 bytes; fails exactly when the bytes
    /// do not encode a valid key.
    pub fn from_slice(bytes: &[u8; 32]) -> (r: Result<Self, KeyError>)
        ensures
            r matches Ok(k) ==> k@ == bytes@ && ed25519_key_valid(bytes@),
            r is Err <==> !ed25519_key_valid(bytes@),
            r matches Err(e) ==> e == KeyError::Signature,
    {
        if check_public_key(bytes) {
            Ok(Ed25519PublicKey { bytes: *bytes })
        } else {
            Err(KeyError::Signature)
        }
    }

    /// View this public key as a byte array.
    pub fn as_bytes(&self) -> (r: &[u8; 32])
        ensures
            r@ == self@,
    {
        &self.bytes
    }

    /// Build a public key from its unpadded base64 text; rejects malformed
    /// text, a wrong decoded length, and bytes that are no valid key.
    pub fn from_base64(base64_key: &str) -> (r: Result<Self, KeyError>)
        ensures
            r matches Ok(k) ==> ed25519_key_valid(k@),
            forall|b: Seq<u8>|
                base64_key@ == #[trigger] b64_of(b) ==> match r {
                    Ok(k) => k@ == b && b.len() == 32 && ed25519_key_valid(b),
                    Err(KeyError::Base64(_)) => false,
                    Err(KeyError::InvalidKeyLength(_)) => b.len() != 32,
                    Err(_) => b.len() == 32 && !ed25519_key_valid(b),
                },
    {
        let key = match base64_decode(base64_key) {
            Ok(k) => k,
            Err(e) => {
                return Err(KeyError::Base64(e));
            },
        };
        if key.len() != 32 {
            return Err(KeyError::InvalidKeyLength(key.len()));
        }
        let bytes = copy_bytes_32(key.as_slice(), 0);
        assert(bytes@ =~= key@);
        Self::from_slice(&bytes)
    }

    /// Serialize this public key to unpadded base64 text: 43 characters,
    /// no `=` padding.
    pub fn to_base64(&self) -> (r: String)
        ensures
            r@ == b64_of(self@),
            r@.len() == 43,
            forall|i: int| 0 <= i < r@.len() ==> r@[i] != '=',
    {
        base64_encode(self.bytes.as_slice())
    }

    /// Check that the signature was made over the message by the secret key
    /// matching this public key.
    pub fn verify(&self, message: &[u8], signature: &Ed25519Signature) -> (r: Result<
        (),
        SignatureError,
    >)
        ensures
            r is Ok <==> ed25519_verifies(self@, message@, signature@),
    {
        proof {
            use_type_invariant(self);
        }
        if verify_with(&self.bytes, message, &signature.bytes) {
            Ok(())
        } else {
            Err(SignatureError::Signature)
        }
    }
}

/// An Ed25519 signature: a plain 64-byte value.
#[derive(Clone, Copy, Debug, PartialEq, Eq)]
pub struct Ed25519Signature {
    bytes: [u8; 64],
}

impl View for Ed25519Signature {
    type V = Seq<u8>;

    closed spec fn view(&self) -> Seq<u8> {
        self.bytes@
    }
}

impl Ed25519Signature {
    /// Try to build a signature from bytes; fails exactly on a wrong length.
    pub fn from_slice(bytes: &[u8]) -> (r: Result<Self, SignatureError>)
        ensures
            r matches Ok(s) ==> s@ == bytes@,
            r is Err <==> bytes@.len() != 64,
            r matches Err(e) ==> e == SignatureError::Signature,
    {
        if bytes.len() != 64 {
            return Err(SignatureError::Signature);
        }
        let mut sig = [0u8; 64];
        let mut i: usize = 0;
        while i < 64
            invariant
                bytes@.len() == 64,
                i <= 64,
                sig@.len() == 64,
                forall|j: int| 0 <= j < i ==> sig@[j] == bytes@[j],
            decreases 64 - i,
        {
            sig[i] = bytes[i];
            i = i + 1;
        }
        assert(sig@ =~= bytes@);
        Ok(Ed25519Signature { bytes: sig })
    }

    /// Build a signature from its unpadded base64 text.
    pub fn from_base64(signature: &str) -> (r: Result<Self, SignatureError>)
        ensures
            forall|b: Seq<u8>|
                signature@ == #[trigger] b64_of(b) ==> match r {
                    Ok(s) => s@ == b && b.len() == 64,
                    Err(SignatureError::Base64(_)) => false,
                    Err(SignatureError::Signature) => b.len() != 64,
                },
    {
        match base64_decode(signature) {
            Ok(bytes) => Self::from_slice(bytes.as_slice()),
            Err(e) => Err(SignatureError::Base64(e)),
        }
    }

    /// Serialize this signature to unpadded base64 text: 86 characters,
    /// no `=` padding.
    pub fn to_base64(&self) -> (r: String)
        ensures
            r@ == b64_of(self@),
            r@.len() == 86,
            forall|i: int| 0 <= i < r@.len() ==> r@[i] != '=',
    {
        base64_encode(self.bytes.as_slice())
    }

    /// The signature as a byte array.
    pub fn to_bytes(&self) -> (r: [u8; 64])
        ensures
            r@ == self@,
    {
        self.bytes
    }
}

/// An Ed25519 keypair: a secret key and the public key derived from it.
pub struct Ed25519Keypair {
    secret: [u8; 32],
    public: [u8; 32],
}

impl Ed25519Keypair {
    /// The secret-key bytes.
    pub closed spec fn spec_secret(&self) -> Seq<u8> {
        self.secret@
    }

    /// The public-key bytes.
    pub closed spec fn spec_public(&self) -> Seq<u8> {
        self.public@
    }

    /// The public key is always the one derived from the secret key.
    #[verifier::type_invariant]
    pub closed spec fn wf(self) -> bool {
        self.public@ == ed25519_derived_key(self.secret@) && ed25519_key_valid(self.public@)
    }

    /// Create a new random keypair.
    pub fn new() -> (r: Self)
        ensures
            r.spec_public() == ed25519_derived_key(r.spec_secret()),
    {
        let secret = generate_secret();
        let public = derive_public(&secret);
        Ed25519Keypair { secret, public }
    }

    /// Rebuild the keypair owning the given secret key.
    pub fn from_secret_key(bytes: &[u8; 32]) -> (r: Self)
        ensures
            r.spec_secret() == bytes@,
            r.spec_public() == ed25519_derived_key(bytes@),
    {
        let public = derive_public(bytes);
        Ed25519Keypair { secret: *bytes, public }
    }

    /// The public Ed25519 key of this keypair.
    pub fn public_key(&self) -> (r: Ed25519PublicKey)
        ensures
            r@ == self.spec_public(),
            r@ == ed25519_derived_key(self.spec_secret()),
            ed25519_key_valid(self.spec_public()),
    {
        proof {
            use_type_invariant(self);
        }
        Ed25519PublicKey { bytes: self.public }
    }

    /// The public key of this keypair as unpadded base64 text.
    pub fn public_key_encoded(&self) -> (r: String)
        ensures
            r@ == b64_of(self.spec_public()),
            r@.len() == 43,
    {
        base64_encode(self.public.as_slice())
    }

    /// Sign the given message with the secret key. The signature verifies
    /// under this keypair's public key.
    pub fn sign(&self, message: &[u8]) -> (r: Ed25519Signature)
        ensures
            r@ == ed25519_signature_of(self.spec_secret(), message@),
            ed25519_verifies(self.spec_public(), message@, r@),
            ed25519_key_valid(self.spec_public()),
    {
        proof {
            use_type_invariant(self);
        }
        let bytes = sign_with(&self.secret, message);
        Ed25519Signature { bytes }
    }

    /// Serialize the secret key into a pickle whose buffer is zeroed when it
    /// is dropped.
    pub fn pickle(&self) -> (r: Ed25519KeypairPickle)
        ensures
            r@ == self.spec_secret(),
    {
        Ed25519KeypairPickle { secret: self.secret }
    }

    /// Rebuild the keypair that a pickle serialized.
    pub fn from_pickle(pickle: &Ed25519KeypairPickle) -> (r: Self)
        ensures
            r.spec_secret() == pickle@,
            r.spec_public() == ed25519_derived_key(pickle@),
    {
        Self::from_secret_key(&pickle.secret)
    }
}

impl Clone for Ed25519Keypair {
    /// An equal keypair, owning its own copies of the key bytes.
    fn clone(&self) -> (r: Self)
        ensures
            r.spec_secret() == self.spec_secret(),
            r.spec_public() == self.spec_public(),
    {
        proof {
            use_type_invariant(self);
        }
        Ed25519Keypair { secret: self.secret, public: self.public }
    }
}

impl Default for Ed25519Keypair {
    /// A fresh random keypair.
    fn default() -> (r: Self)
        ensures
            r.spec_public() == ed25519_derived_key(r.spec_secret()),
    {
        Self::new()
    }
}

impl Drop for Ed25519Keypair {
    /// Relies on `zeroize::Zeroize` for `[u8; 32]`: the secret key is
    /// overwritten with zeroes, through a write the compiler may not elide.
    #[verifier::external_body]
    fn drop(&mut self)
        opens_invariants none
        no_unwind
    {
        self.secret.zeroize();
    }
}

/// The at-rest form of an Ed25519 keypair: the raw secret-key bytes. The
/// buffer is overwritten with zeroes when the pickle is dropped.
pub struct Ed25519KeypairPickle {
    secret: [u8; 32],
}

impl View for Ed25519KeypairPickle {
    type V = Seq<u8>;

    closed spec fn view(&self) -> Seq<u8> {
        self.secret@
    }
}

impl Ed25519KeypairPickle {
    /// The pickled secret-key bytes.
    pub fn as_bytes(&self) -> (r: &[u8; 32])
        ensures
            r@ == self@,
    {
        &self.secret
    }
}

impl Drop for Ed25519KeypairPickle {
    /// Relies on `zeroize::Zeroize` for `[u8; 32]`: the buffer is overwritten
    /// with zeroes, through a write the compiler may not elide.
    #[verifier::external_body]
    fn drop(&mut self)
        opens_invariants none
        no_unwind
    {
        self.secret.zeroize();
    }
}


/// Reading a public key's base64 text back yields the same key.
pub fn ed25519_key_base64_round_trip(key: &Ed25519PublicKey) -> (r: Ed25519PublicKey)
    ensures
        r@ == key@,
{
    proof {
        use_type_invariant(key);
    }
    let text = key.to_base64();
    match Ed25519PublicKey::from_base64(text.as_str()) {
        Ok(k) => k,
        Err(_) => vstd::pervasive::unreached(),
    }
}

/// Reading a signature's base64 text back yields the same signature.
pub fn ed25519_signature_base64_round_trip(signature: &Ed25519Signature) -> (r: Ed25519Signature)
    ensures
        r@ == signature@,
{
    let text = signature.to_base64();
    match Ed25519Signature::from_base64(text.as_str()) {
        Ok(s) => s,
        Err(_) => vstd::pervasive::unreached(),
    }
}

/// Serializing a keypair into a pickle and rebuilding it yields a pickle with
/// the same secret bytes.
pub fn ed25519_pickle_round_trip(keypair: &Ed25519Keypair) -> (r: Ed25519KeypairPickle)
    ensures
        r@ == keypair.spec_secret(),
{
    let pickle = keypair.pickle();
    Ed25519Keypair::from_pickle(&pickle).pickle()
}

} // verus!
