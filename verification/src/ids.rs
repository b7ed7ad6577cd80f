//! Opaque 32-byte identifiers for accounts, mints and pots.
//!
//! The core never interprets an identifier; it only compares them for
//! equality (to match a reward by its mint). The 32 bytes are held as four
//! 64-bit words so that equality is plain field equality.

use vstd::prelude::*;

verus! {

/// A 32-byte account address, opaque to the core.
#[derive(Clone, Copy, Debug, PartialEq, Eq, Structural)]
pub struct Pubkey {
    pub word0: u64,
    pub word1: u64,
    pub word2: u64,
    pub word3: u64,
}

impl Pubkey {
    /// Builds an identifier from its four 64-bit words.
    pub fn new(word0: u64, word1: u64, word2: u64, word3: u64) -> (r: Pubkey)
        ensures
            r == (Pubkey { word0, word1, word2, word3 }),
    {
        Pubkey { word0, word1, word2, word3 }
    }
}

impl Default for Pubkey {
    /// The all-zero identifier.
    fn default() -> (r: Pubkey)
        ensures
            r == (Pubkey { word0: 0u64, word1: 0u64, word2: 0u64, word3: 0u64 }),
    {
        Pubkey { word0: 0, word1: 0, word2: 0, word3: 0 }
    }
}

} // verus!
