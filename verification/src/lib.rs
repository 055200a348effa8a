//! Inbound half of a group-ratchet encryption scheme: parsing and validating
//! signed session keys, maintaining forward-only ratchet state, and the
//! layered decrypt pipeline (signature, then MAC, then cipher), together with
//! the Ed25519 and Curve25519 key primitives the scheme authenticates against.

pub mod encoding;
pub mod util;
pub mod ed25519;
pub mod curve25519;
pub mod key_id;
pub mod ratchet;
pub mod cipher;
pub mod message;
pub mod inbound_group_session;

pub use curve25519::{Curve25519KeyError, Curve25519Keypair, Curve25519KeypairPickle,
    Curve25519PublicKey};
pub use ed25519::{Ed25519Keypair, Ed25519KeypairPickle, Ed25519PublicKey, Ed25519Signature,
    KeyError, SignatureError};
pub use encoding::DecodeError;
pub use inbound_group_session::{DecryptedMessage, DecryptionError, ExportedSessionKey,
    InboundGroupSession, SessoinCreationError};
pub use key_id::KeyId;
