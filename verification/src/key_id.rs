//! Numeric key identifiers and their stable text form.

use vstd::prelude::*;
use crate::encoding::{b64_of, base64_encode};
use crate::util::{le64_of, u64_to_le};

verus! {

/// A numeric identifier for a key, rendered in text as the unpadded base64 of
/// its little-endian bytes.
#[derive(Clone, Copy, Debug, Hash, PartialEq, Eq)]
pub struct KeyId(pub u64);

impl KeyId {
    /// The identifier's text form: base64 of the eight little-endian bytes.
    pub fn to_base64(&self) -> (r: String)
        ensures
            r@ == b64_of(le64_of(self.0)),
    {
        let bytes = u64_to_le(self.0);
        base64_encode(bytes.as_slice())
    }
}

} // verus!
