use vstd::prelude::*;

verus! {

/// An opaque 32-byte identity (an account, an asset or a signer), held as
/// four little-endian 64-bit words.
#[derive(Clone, Copy, Debug, PartialEq, Eq, Structural)]
pub struct Pubkey {
    pub w0: u64,
    pub w1: u64,
    pub w2: u64,
    pub w3: u64,
}

impl Pubkey {
    pub fn new(w0: u64, w1: u64, w2: u64, w3: u64) -> (r: Pubkey)
        ensures
            r == (Pubkey { w0, w1, w2, w3 }),
    {
        Pubkey { w0, w1, w2, w3 }
    }
}

} // verus!
