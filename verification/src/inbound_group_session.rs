//! The inbound group session: parses and validates a signed session key,
//! keeps two points on the ratchet chain (the first known and the latest
//! advanced), and runs the layered decrypt pipeline — signature, then ratchet
//! lookup, then MAC, then the cipher.

use vstd::prelude::*;
use vstd::pervasive::unreached;
use crate::cipher::{mac_bytes_of, xor_transform, Cipher};
use crate::encoding::{
    b64_decoded_of, b64_of, base64_decode, base64_encode, utf8_lossy, utf8_lossy_of, DecodeError,
};
use crate::ed25519::{
    ed25519_key_valid, ed25519_signature_of, ed25519_verifies, Ed25519Keypair, Ed25519PublicKey,
    Ed25519Signature,
};
use crate::message::{
    mac_region_of, message_ciphertext_of, message_index_of, message_mac_of, message_signature_of,
    message_well_formed, signed_region_of, MegolmMessage,
};
use crate::ratchet::{lemma_ratchet_advance_add, ratchet_advance, Ratchet};
use crate::util::{
    copy_bytes_128, copy_bytes_32, copy_bytes_64, copy_range, le32_of, push_bytes, push_u32_le,
    u32_from_le, u32_of_le,
};

verus! {

/// The single supported session-key format version.
pub const SESSION_KEY_VERSION: u8 = 1;

/// Why a session key was rejected at construction.
#[derive(Clone, Copy, Debug, PartialEq, Eq)]
pub enum SessoinCreationError {
    /// The session key declares an unsupported version: (expected, actual).
    Version(u8, u8),
    /// The session key ran out of bytes before a field was complete.
    Read,
    /// The session key text was not valid unpadded base64.
    Base64(DecodeError),
    /// The signing-key field was invalid, or the signature did not validate.
    Signature,
}

/// Why a message could not be decrypted.
#[derive(Clone, Copy, Debug, PartialEq, Eq)]
pub enum DecryptionError {
    /// The message text was not valid unpadded base64.
    Base64(DecodeError),
    /// The message's signature did not validate under the session's key.
    Signature,
    /// The MAC carried by the message does not match the protected bytes.
    InvalidMAC,
    /// The cipher rejected the ciphertext. Kept for the error taxonomy: the
    /// keystream transform used here is total, so this kind is never
    /// returned.
    InvalidCiphertext,
    /// The declared index precedes the first index this session knows:
    /// (first known index, requested index).
    UnknownMessageIndex(u32, u32),
    /// The message bytes do not fit the message layout.
    DecodeError,
}

/// A decrypted message: the recovered text and the index it was encrypted at.
pub struct DecryptedMessage {
    /// The recovered plaintext, decoded lossily as UTF-8.
    pub plaintext: String,
    /// The message index the sender declared, for replay tracking.
    pub message_index: u32,
}

/// Whether a byte string has exactly the session-key layout's size: a
/// version byte, four index bytes, 128 seed bytes, 32 key bytes and 64
/// signature bytes — 229 bytes, nothing more.
pub open spec fn session_key_well_formed(b: Seq<u8>) -> bool {
    b.len() == 229
}

/// The starting message index, read little-endian after the version byte.
pub open spec fn session_key_index_of(b: Seq<u8>) -> u32
    recommends
        session_key_well_formed(b),
{
    u32_of_le(b.subrange(1, 5))
}

/// The 128 ratchet seed bytes.
pub open spec fn session_key_seed_of(b: Seq<u8>) -> Seq<u8>
    recommends
        session_key_well_formed(b),
{
    b.subrange(5, 133)
}

/// The 32 signing public key bytes.
pub open spec fn session_key_signing_key_of(b: Seq<u8>) -> Seq<u8>
    recommends
        session_key_well_formed(b),
{
    b.subrange(133, 165)
}

/// The 64 signature bytes.
pub open spec fn session_key_signature_of(b: Seq<u8>) -> Seq<u8>
    recommends
        session_key_well_formed(b),
{
    b.subrange(165, 229)
}

/// The signed region of a session key: version, index, seed and public key,
/// exactly the bytes before the signature field.
pub open spec fn session_key_signed_region(b: Seq<u8>) -> Seq<u8>
    recommends
        session_key_well_formed(b),
{
    b.subrange(0, 165)
}

/// The byte string that carries the given fields in the session-key layout.
pub open spec fn session_key_bytes(
    index: u32,
    seed: Seq<u8>,
    key: Seq<u8>,
    signature: Seq<u8>,
) -> Seq<u8> {
    seq![SESSION_KEY_VERSION] + le32_of(index) + seed + key + signature
}

/// Whether a session key passes every construction check: well formed, the
/// supported version, a valid signing key, and a signature that validates
/// over everything before it.
pub open spec fn session_key_accepted(b: Seq<u8>) -> bool {
    &&& session_key_well_formed(b)
    &&& b[0] == SESSION_KEY_VERSION
    &&& ed25519_key_valid(session_key_signing_key_of(b))
    &&& ed25519_verifies(
        session_key_signing_key_of(b),
        session_key_signed_region(b),
        session_key_signature_of(b),
    )
}

/// An inbound group session: the ratchet at the session key's starting point
/// (never advanced), a working copy advanced lazily, and the signing key that
/// authenticates the session key and every message.
pub struct InboundGroupSession {
    initial_ratchet: Ratchet,
    latest_ratchet: Ratchet,
    signing_key: Ed25519PublicKey,
}

/// A session-key-like blob exported from a session, anchored at a chosen
/// index. It is not signed: an inbound session holds no signing secret, so
/// whatever key-management layer shares this blob decides how to
/// authenticate it.
pub struct ExportedSessionKey {
    /// The index the exported ratchet sits at.
    pub message_index: u32,
    /// The ratchet state bytes at that index.
    pub ratchet: [u8; 128],
    /// The session's signing public key.
    pub signing_key: Ed25519PublicKey,
}

impl InboundGroupSession {
    /// The index the session key declared as its starting point.
    pub closed spec fn spec_initial_index(&self) -> u32 {
        self.initial_ratchet.spec_index()
    }

    /// The index the working ratchet currently sits at.
    pub closed spec fn spec_latest_index(&self) -> u32 {
        self.latest_ratchet.spec_index()
    }

    /// The ratchet seed the session key carried.
    pub closed spec fn spec_seed(&self) -> Seq<u8> {
        self.initial_ratchet.spec_bytes()
    }

    /// The signing public key bytes the session key carried.
    pub closed spec fn spec_signing_key(&self) -> Seq<u8> {
        self.signing_key@
    }

    /// The working ratchet never falls behind the initial one, and always
    /// sits on the chain the seed started.
    #[verifier::type_invariant]
    spec fn wf(self) -> bool {
        &&& self.initial_ratchet.spec_index() <= self.latest_ratchet.spec_index()
        &&& self.latest_ratchet.spec_bytes() == ratchet_advance(
            self.initial_ratchet.spec_bytes(),
            (self.latest_ratchet.spec_index() - self.initial_ratchet.spec_index()) as nat,
        )
    }

    /// The ratchet state bytes this session derives for a given index.
    pub open spec fn key_bytes_at(self, index: u32) -> Seq<u8>
        recommends
            self.spec_initial_index() <= index,
    {
        ratchet_advance(self.spec_seed(), (index - self.spec_initial_index()) as nat)
    }

    /// The index the working ratchet sits at after a lookup of `index`: it
    /// stays put when the initial ratchet served the request, else it lands
    /// exactly on the requested index.
    pub open spec fn next_latest_index(self, index: u32) -> u32 {
        if index == self.spec_initial_index() {
            self.spec_latest_index()
        } else {
            index
        }
    }

    /// How a lookup of `index` changes the session: nothing moves but the
    /// working ratchet's position.
    pub open spec fn state_after_lookup(pre: Self, post: Self, index: u32) -> bool {
        &&& post.spec_initial_index() == pre.spec_initial_index()
        &&& post.spec_seed() == pre.spec_seed()
        &&& post.spec_signing_key() == pre.spec_signing_key()
        &&& post.spec_latest_index() == pre.next_latest_index(index)
    }

    /// What `new` returns for a session key whose decoded bytes are `b`:
    /// each rejection comes exactly on the inputs that trigger it, and a
    /// built session seeds both ratchets at the declared starting point.
    pub open spec fn session_new_matches(
        b: Seq<u8>,
        r: Result<InboundGroupSession, SessoinCreationError>,
    ) -> bool {
        match r {
            Ok(s) => {
                &&& session_key_accepted(b)
                &&& s.spec_initial_index() == session_key_index_of(b)
                &&& s.spec_latest_index() == session_key_index_of(b)
                &&& s.spec_seed() == session_key_seed_of(b)
                &&& s.spec_signing_key() == session_key_signing_key_of(b)
            },
            Err(SessoinCreationError::Base64(_)) => false,
            Err(SessoinCreationError::Version(expected, actual)) => expected
                == SESSION_KEY_VERSION && b.len() >= 1 && actual == b[0] && b[0]
                != SESSION_KEY_VERSION,
            Err(SessoinCreationError::Read) => b.len() == 0 || (b[0] == SESSION_KEY_VERSION
                && b.len() != 229),
            Err(SessoinCreationError::Signature) => {
                &&& session_key_well_formed(b)
                &&& b[0] == SESSION_KEY_VERSION
                &&& !(ed25519_key_valid(session_key_signing_key_of(b)) && ed25519_verifies(
                    session_key_signing_key_of(b),
                    session_key_signed_region(b),
                    session_key_signature_of(b),
                ))
            },
        }
    }

    /// Parse and validate a session key: base64, version, field lengths, the
    /// signing key, and the signature over everything before it, in that
    /// order. On success both ratchets sit at the declared starting index.
    pub fn new(session_key: String) -> (r: Result<Self, SessoinCreationError>)
        ensures
            forall|b: Seq<u8>|
                session_key@ == #[trigger] b64_of(b) ==> Self::session_new_matches(b, r),
            match b64_decoded_of(session_key@) {
                Some(b) => Self::session_new_matches(b, r),
                None => r matches Err(SessoinCreationError::Base64(_)),
            },
    {
        let decoded = match base64_decode(session_key.as_str()) {
            Ok(d) => d,
            Err(e) => {
                return Err(SessoinCreationError::Base64(e));
            },
        };
        let len = decoded.len();
        if len < 1 {
            return Err(SessoinCreationError::Read);
        }
        let version = decoded[0];
        if version != SESSION_KEY_VERSION {
            return Err(SessoinCreationError::Version(SESSION_KEY_VERSION, version));
        }
        if len != 229 {
            return Err(SessoinCreationError::Read);
        }
        let index = u32_from_le(decoded.as_slice(), 1);
        let seed = copy_bytes_128(decoded.as_slice(), 5);
        let public_key = copy_bytes_32(decoded.as_slice(), 133);
        let signature_bytes = copy_bytes_64(decoded.as_slice(), 165);
        let signing_key = match Ed25519PublicKey::from_slice(&public_key) {
            Ok(k) => k,
            Err(_) => {
                return Err(SessoinCreationError::Signature);
            },
        };
        let signature = match Ed25519Signature::from_slice(signature_bytes.as_slice()) {
            Ok(s) => s,
            Err(_) => unreached(),
        };
        let signed_region = copy_range(decoded.as_slice(), 0, 165);
        match signing_key.verify(signed_region.as_slice(), &signature) {
            Ok(()) => {
                let initial_ratchet = Ratchet::from_bytes(seed, index);
                let latest_ratchet = initial_ratchet.duplicate();
                Ok(InboundGroupSession { initial_ratchet, latest_ratchet, signing_key })
            },
            Err(_) => Err(SessoinCreationError::Signature),
        }
    }

    /// Select or produce the ratchet for a requested index: the initial
    /// ratchet if it matches, else the working ratchet (advanced forward, or
    /// re-seeded from the initial ratchet for an index between the two known
    /// points). An index before the first known one is unreachable and the
    /// session is left unchanged.
    fn find_ratchet(&mut self, message_index: u32) -> (r: Option<Ratchet>)
        ensures
            r is None <==> message_index < old(self).spec_initial_index(),
            r is None ==> *final(self) == *old(self),
            r matches Some(ratchet) ==> {
                &&& ratchet.spec_index() == message_index
                &&& ratchet.spec_bytes() == old(self).key_bytes_at(message_index)
                &&& Self::state_after_lookup(*old(self), *final(self), message_index)
            },
    {
        proof {
            use_type_invariant(&*self);
        }
        if self.initial_ratchet.index() == message_index {
            Some(self.initial_ratchet.duplicate())
        } else if self.latest_ratchet.index() == message_index {
            Some(self.latest_ratchet.duplicate())
        } else if self.latest_ratchet.index() < message_index {
            let mut working = self.latest_ratchet.duplicate();
            working.advance_to(message_index);
            proof {
                lemma_ratchet_advance_add(
                    self.initial_ratchet.spec_bytes(),
                    (self.latest_ratchet.spec_index() - self.initial_ratchet.spec_index()) as nat,
                    (message_index - self.latest_ratchet.spec_index()) as nat,
                );
            }
            let out = working.duplicate();
            *self = InboundGroupSession {
                initial_ratchet: self.initial_ratchet.duplicate(),
                latest_ratchet: working,
                signing_key: self.signing_key,
            };
            Some(out)
        } else if self.initial_ratchet.index() < message_index {
            let mut working = self.initial_ratchet.duplicate();
            working.advance_to(message_index);
            let out = working.duplicate();
            *self = InboundGroupSession {
                initial_ratchet: self.initial_ratchet.duplicate(),
                latest_ratchet: working,
                signing_key: self.signing_key,
            };
            Some(out)
        } else {
            None
        }
    }

    /// Whether this session accepts a message whose decoded bytes are `b`:
    /// the layout fits, the signature validates, the declared index is
    /// reachable, and the MAC matches under the key derived for that index.
    pub open spec fn decrypt_accepted(self, b: Seq<u8>) -> bool {
        &&& message_well_formed(b)
        &&& ed25519_verifies(self.spec_signing_key(), signed_region_of(b), message_signature_of(b))
        &&& message_index_of(b) >= self.spec_initial_index()
        &&& message_mac_of(b) == mac_bytes_of(
            self.key_bytes_at(message_index_of(b)),
            mac_region_of(b),
        )
    }

    /// What `decrypt` returns, and how the session moves, for a message whose
    /// decoded bytes are `b`. Each error comes exactly on the inputs that
    /// trigger it. A failed MAC check still counts the index as reached: the
    /// working ratchet keeps its advanced position, as for a success.
    pub open spec fn decrypt_matches(
        pre: Self,
        post: Self,
        b: Seq<u8>,
        r: Result<DecryptedMessage, DecryptionError>,
    ) -> bool {
        match r {
            Ok(m) => {
                &&& pre.decrypt_accepted(b)
                &&& m.message_index == message_index_of(b)
                &&& m.plaintext@ == utf8_lossy_of(
                    xor_transform(
                        pre.key_bytes_at(message_index_of(b)),
                        message_ciphertext_of(b),
                    ),
                )
                &&& Self::state_after_lookup(pre, post, message_index_of(b))
            },
            Err(DecryptionError::Base64(_)) => false,
            Err(DecryptionError::DecodeError) => !message_well_formed(b) && post == pre,
            Err(DecryptionError::Signature) => {
                &&& message_well_formed(b)
                &&& !ed25519_verifies(
                    pre.spec_signing_key(),
                    signed_region_of(b),
                    message_signature_of(b),
                )
                &&& post == pre
            },
            Err(DecryptionError::UnknownMessageIndex(first, requested)) => {
                &&& message_well_formed(b)
                &&& ed25519_verifies(
                    pre.spec_signing_key(),
                    signed_region_of(b),
                    message_signature_of(b),
                )
                &&& message_index_of(b) < pre.spec_initial_index()
                &&& first == pre.spec_initial_index()
                &&& requested == message_index_of(b)
                &&& post == pre
            },
            Err(DecryptionError::InvalidMAC) => {
                &&& message_well_formed(b)
                &&& ed25519_verifies(
                    pre.spec_signing_key(),
                    signed_region_of(b),
                    message_signature_of(b),
                )
                &&& message_index_of(b) >= pre.spec_initial_index()
                &&& message_mac_of(b) != mac_bytes_of(
                    pre.key_bytes_at(message_index_of(b)),
                    mac_region_of(b),
                )
                &&& Self::state_after_lookup(pre, post, message_index_of(b))
            },
            Err(DecryptionError::InvalidCiphertext) => false,
        }
    }

    /// Decrypt one base64 message: decode it, check its signature, resolve
    /// the ratchet for its declared index, check the MAC, then undo the
    /// keystream and decode the plaintext lossily as UTF-8. The only state
    /// the call may move is the working ratchet's position.
    pub fn decrypt(&mut self, message: &str) -> (r: Result<DecryptedMessage, DecryptionError>)
        ensures
            forall|b: Seq<u8>|
                message@ == #[trigger] b64_of(b) ==> Self::decrypt_matches(
                    *old(self),
                    *final(self),
                    b,
                    r,
                ),
            match b64_decoded_of(message@) {
                Some(b) => Self::decrypt_matches(*old(self), *final(self), b, r),
                None => (r matches Err(DecryptionError::Base64(_))) && *final(self) == *old(
                    self,
                ),
            },
            r matches Ok(m) ==> final(self).spec_latest_index() >= m.message_index,
            r matches Err(DecryptionError::UnknownMessageIndex(first, requested)) ==> *final(self)
                == *old(self) && first == old(self).spec_initial_index() && requested < first,
    {
        proof {
            use_type_invariant(&*self);
        }
        let decoded = match base64_decode(message) {
            Ok(d) => d,
            Err(e) => {
                return Err(DecryptionError::Base64(e));
            },
        };
        let msg = match MegolmMessage::decode(decoded.as_slice()) {
            Some(m) => m,
            None => {
                return Err(DecryptionError::DecodeError);
            },
        };
        let len = decoded.len();
        let signed_region = copy_range(decoded.as_slice(), 0, len - 64);
        let signature = match Ed25519Signature::from_slice(msg.signature.as_slice()) {
            Ok(s) => s,
            Err(_) => unreached(),
        };
        if self.signing_key.verify(signed_region.as_slice(), &signature).is_err() {
            return Err(DecryptionError::Signature);
        }
        let ratchet = match self.find_ratchet(msg.message_index) {
            Some(rt) => rt,
            None => {
                return Err(
                    DecryptionError::UnknownMessageIndex(
                        self.initial_ratchet.index(),
                        msg.message_index,
                    ),
                );
            },
        };
        let cipher = Cipher::new_megolm(ratchet.as_bytes());
        let mac_region = copy_range(decoded.as_slice(), 0, len - 72);
        if !cipher.verify_mac(mac_region.as_slice(), &msg.mac) {
            return Err(DecryptionError::InvalidMAC);
        }
        let plaintext_bytes = cipher.decrypt(msg.ciphertext.as_slice());
        let plaintext = utf8_lossy(plaintext_bytes.as_slice());
        Ok(DecryptedMessage { plaintext, message_index: msg.message_index })
    }

    /// Export a session-key-like blob anchored at the given index, resolving
    /// the ratchet exactly as decryption would. Fails only for an index
    /// before the first known one. The blob is unsigned (see
    /// [`ExportedSessionKey`]).
    pub fn export_at(&mut self, index: u32) -> (r: Option<ExportedSessionKey>)
        ensures
            r is None <==> index < old(self).spec_initial_index(),
            r is None ==> *final(self) == *old(self),
            r matches Some(e) ==> {
                &&& e.message_index == index
                &&& e.ratchet@ == old(self).key_bytes_at(index)
                &&& e.signing_key@ == old(self).spec_signing_key()
                &&& Self::state_after_lookup(*old(self), *final(self), index)
            },
    {
        match self.find_ratchet(index) {
            Some(ratchet) => Some(
                ExportedSessionKey {
                    message_index: index,
                    ratchet: *ratchet.as_bytes(),
                    signing_key: self.signing_key,
                },
            ),
            None => None,
        }
    }

    /// The first message index this session can ever decrypt. It never
    /// exceeds the working ratchet's position.
    pub fn first_known_index(&self) -> (r: u32)
        ensures
            r == self.spec_initial_index(),
            r <= self.spec_latest_index(),
    {
        proof {
            use_type_invariant(&*self);
        }
        self.initial_ratchet.index()
    }
}

/// Lay out and sign a session-key blob: version, starting index, seed, the
/// keypair's public key, and the keypair's signature over those bytes, all
/// base64-encoded. This is the outbound dual that `new` parses.
pub fn serialize_session_key(index: u32, seed: &[u8; 128], keypair: &Ed25519Keypair) -> (r: String)
    ensures
        r@ == b64_of(
            session_key_bytes(
                index,
                seed@,
                keypair.spec_public(),
                ed25519_signature_of(
                    keypair.spec_secret(),
                    seq![SESSION_KEY_VERSION] + le32_of(index) + seed@ + keypair.spec_public(),
                ),
            ),
        ),
        ed25519_key_valid(keypair.spec_public()),
        keypair.spec_public().len() == 32,
        ed25519_signature_of(
            keypair.spec_secret(),
            seq![SESSION_KEY_VERSION] + le32_of(index) + seed@ + keypair.spec_public(),
        ).len() == 64,
        ed25519_verifies(
            keypair.spec_public(),
            seq![SESSION_KEY_VERSION] + le32_of(index) + seed@ + keypair.spec_public(),
            ed25519_signature_of(
                keypair.spec_secret(),
                seq![SESSION_KEY_VERSION] + le32_of(index) + seed@ + keypair.spec_public(),
            ),
        ),
{
    let mut body: Vec<u8> = Vec::new();
    body.push(SESSION_KEY_VERSION);
    push_u32_le(&mut body, index);
    push_bytes(&mut body, seed.as_slice());
    let public = keypair.public_key();
    push_bytes(&mut body, public.as_bytes().as_slice());
    proof {
        assert(body@ =~= seq![SESSION_KEY_VERSION] + le32_of(index) + seed@
            + keypair.spec_public());
    }
    let signature = keypair.sign(body.as_slice());
    let signature_bytes = signature.to_bytes();
    push_bytes(&mut body, signature_bytes.as_slice());
    proof {
        assert(body@ =~= session_key_bytes(
            index,
            seed@,
            keypair.spec_public(),
            ed25519_signature_of(
                keypair.spec_secret(),
                seq![SESSION_KEY_VERSION] + le32_of(index) + seed@ + keypair.spec_public(),
            ),
        ));
    }
    base64_encode(body.as_slice())
}

/// Reading the session-key layout back recovers every field: the starting
/// index and seed round-trip exactly, and the signed region is precisely the
/// bytes before the signature.
pub proof fn lemma_session_key_round_trip(
    index: u32,
    seed: Seq<u8>,
    key: Seq<u8>,
    signature: Seq<u8>,
)
    requires
        seed.len() == 128,
        key.len() == 32,
        signature.len() == 64,
    ensures
        ({
            let b = session_key_bytes(index, seed, key, signature);
            &&& b.len() == 229
            &&& b[0] == SESSION_KEY_VERSION
            &&& session_key_index_of(b) == index
            &&& session_key_seed_of(b) == seed
            &&& session_key_signing_key_of(b) == key
            &&& session_key_signature_of(b) == signature
            &&& session_key_signed_region(b) == seq![SESSION_KEY_VERSION] + le32_of(index) + seed
                + key
        }),
{
    let b = session_key_bytes(index, seed, key, signature);
    crate::util::lemma_le32_round_trip(index);
    assert(b.subrange(1, 5) =~= le32_of(index));
    assert(session_key_seed_of(b) =~= seed);
    assert(session_key_signing_key_of(b) =~= key);
    assert(session_key_signature_of(b) =~= signature);
    assert(session_key_signed_region(b) =~= seq![SESSION_KEY_VERSION] + le32_of(index) + seed
        + key);
}

/// Parsing a serialized session key always succeeds and recovers the starting
/// index and ratchet seed exactly — the round trip, executed.
pub fn session_key_round_trip(index: u32, seed: &[u8; 128], keypair: &Ed25519Keypair) -> (r:
    InboundGroupSession)
    ensures
        r.spec_initial_index() == index,
        r.spec_latest_index() == index,
        r.spec_seed() == seed@,
        r.spec_signing_key() == keypair.spec_public(),
{
    let text = serialize_session_key(index, seed, keypair);
    let ghost body = seq![SESSION_KEY_VERSION] + le32_of(index) + seed@ + keypair.spec_public();
    let ghost signature = ed25519_signature_of(keypair.spec_secret(), body);
    proof {
        lemma_session_key_round_trip(index, seed@, keypair.spec_public(), signature);
    }
    match InboundGroupSession::new(text) {
        Ok(session) => session,
        Err(_) => unreached(),
    }
}


/// The signed part of a sealed message for the given index, cipher key and
/// plaintext: the index, the keystream-encrypted payload, and the MAC over
/// both.
pub open spec fn sealed_unsigned(index: u32, key: Seq<u8>, plaintext: Seq<u8>) -> Seq<u8> {
    le32_of(index) + xor_transform(key, plaintext) + mac_bytes_of(
        key,
        le32_of(index) + xor_transform(key, plaintext),
    )
}

/// A whole sealed message: the signed part followed by its signature.
pub open spec fn sealed_body(
    secret: Seq<u8>,
    index: u32,
    key: Seq<u8>,
    plaintext: Seq<u8>,
) -> Seq<u8> {
    sealed_unsigned(index, key, plaintext) + ed25519_signature_of(
        secret,
        sealed_unsigned(index, key, plaintext),
    )
}

/// Encrypt, MAC and sign one message at the ratchet's index: the outbound
/// dual of `decrypt`.
pub fn seal_message(keypair: &Ed25519Keypair, ratchet: &Ratchet, plaintext: &[u8]) -> (r: String)
    ensures
        r@ == b64_of(
            sealed_body(
                keypair.spec_secret(),
                ratchet.spec_index(),
                ratchet.spec_bytes(),
                plaintext@,
            ),
        ),
        ed25519_verifies(
            keypair.spec_public(),
            sealed_unsigned(ratchet.spec_index(), ratchet.spec_bytes(), plaintext@),
            ed25519_signature_of(
                keypair.spec_secret(),
                sealed_unsigned(ratchet.spec_index(), ratchet.spec_bytes(), plaintext@),
            ),
        ),
        ed25519_signature_of(
            keypair.spec_secret(),
            sealed_unsigned(ratchet.spec_index(), ratchet.spec_bytes(), plaintext@),
        ).len() == 64,
{
    let cipher = Cipher::new_megolm(ratchet.as_bytes());
    let ciphertext = cipher.encrypt(plaintext);
    let mut body: Vec<u8> = Vec::new();
    push_u32_le(&mut body, ratchet.index());
    push_bytes(&mut body, ciphertext.as_slice());
    let mac = cipher.compute_mac(body.as_slice());
    push_bytes(&mut body, mac.as_slice());
    proof {
        assert(body@ =~= sealed_unsigned(
            ratchet.spec_index(),
            ratchet.spec_bytes(),
            plaintext@,
        ));
    }
    let signature = keypair.sign(body.as_slice());
    let signature_bytes = signature.to_bytes();
    push_bytes(&mut body, signature_bytes.as_slice());
    proof {
        assert(body@ =~= sealed_body(
            keypair.spec_secret(),
            ratchet.spec_index(),
            ratchet.spec_bytes(),
            plaintext@,
        ));
    }
    base64_encode(body.as_slice())
}

/// Decrypting a just-sealed message always succeeds and recovers the
/// plaintext and its index exactly — the whole pipeline, round-tripped: any
/// index at or above the session's first known one stays decryptable,
/// whatever the working ratchet's position.
#[verifier::rlimit(50)]
pub fn seal_then_decrypt_round_trip(
    session: &mut InboundGroupSession,
    keypair: &Ed25519Keypair,
    ratchet: &Ratchet,
    plaintext: &[u8],
) -> (r: DecryptedMessage)
    requires
        old(session).spec_signing_key() == keypair.spec_public(),
        old(session).spec_initial_index() <= ratchet.spec_index(),
        ratchet.spec_bytes() == old(session).key_bytes_at(ratchet.spec_index()),
    ensures
        r.message_index == ratchet.spec_index(),
        r.plaintext@ == utf8_lossy_of(plaintext@),
        final(session).spec_latest_index() >= ratchet.spec_index(),
{
    let text = seal_message(keypair, ratchet, plaintext);
    let ghost index = ratchet.spec_index();
    let ghost key = ratchet.spec_bytes();
    let ghost unsigned = sealed_unsigned(index, key, plaintext@);
    let ghost b = sealed_body(keypair.spec_secret(), index, key, plaintext@);
    proof {
        ratchet.lemma_bytes_len();
        crate::message::lemma_message_round_trip(
            index,
            xor_transform(key, plaintext@),
            mac_bytes_of(key, le32_of(index) + xor_transform(key, plaintext@)),
            ed25519_signature_of(keypair.spec_secret(), unsigned),
        );
        crate::cipher::lemma_xor_round_trip(key, plaintext@);
        assert(signed_region_of(b) =~= unsigned);
        assert(mac_region_of(b) =~= le32_of(index) + xor_transform(key, plaintext@));
    }
    match session.decrypt(text.as_str()) {
        Ok(m) => m,
        Err(_) => unreached(),
    }
}

} // verus!

