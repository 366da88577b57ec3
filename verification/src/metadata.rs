//! The token metadata record: a single optional structured description of
//! the token, replaced wholesale, never partially patched.

use vstd::prelude::*;

verus! {

/// The structured description of the token.
pub struct TokenMetadata {
    /// Version tag of the metadata schema the record follows.
    pub spec_version: String,
    pub name: String,
    pub symbol: String,
    pub icon: Option<String>,
    /// Pointer to an off-process resource with more data about the token.
    pub reference: Option<String>,
    /// Integrity hash of the referenced resource; present exactly when
    /// `reference` is.
    pub reference_hash: Option<Vec<u8>>,
    pub decimals: u8,
}

impl TokenMetadata {
    /// Structural validity: non-empty name and symbol, and the reference
    /// pointer and its integrity hash present together or both absent, the
    /// hash 32 bytes long. The decimal precision is bounded by its own
    /// 8-bit type.
    pub open spec fn valid(self) -> bool {
        &&& self.name@.len() > 0
        &&& self.symbol@.len() > 0
        &&& (self.reference is Some <==> self.reference_hash is Some)
        &&& (self.reference_hash matches Some(h) ==> h@.len() == 32)
    }

    /// Executable validity check, equal to `valid`.
    pub fn is_valid(&self) -> (b: bool)
        ensures
            b == self.valid(),
    {
        let name_ok = self.name.as_str().unicode_len() > 0;
        let symbol_ok = self.symbol.as_str().unicode_len() > 0;
        let refs_ok = match (&self.reference, &self.reference_hash) {
            (Some(_), Some(h)) => h.len() == 32,
            (None, None) => true,
            _ => false,
        };
        name_ok && symbol_ok && refs_ok
    }
}

} // verus!
