//! The identities and errors that every component speaks of.

use vstd::prelude::*;

verus! {

/// A fixed-width (256-bit) account identity on the host ledger, held as four
/// 64-bit words. Identities are only ever compared for equality.
#[derive(Clone, Copy, Debug, PartialEq, Eq, Structural)]
pub struct Pubkey {
    pub w0: u64,
    pub w1: u64,
    pub w2: u64,
    pub w3: u64,
}

impl Pubkey {
    /// Builds an identity from four 64-bit words.
    pub fn new(w0: u64, w1: u64, w2: u64, w3: u64) -> (r: Pubkey)
        ensures
            r == (Pubkey { w0, w1, w2, w3 }),
    {
        Pubkey { w0, w1, w2, w3 }
    }
}

/// Every way a request can be refused. Each settlement path reports the first
/// failing check and leaves every balance as it was.
#[derive(Clone, Copy, Debug, PartialEq, Eq, Structural)]
pub enum PaymasterError {
    /// The payer's balance does not cover the computed total.
    InsufficientFunds,
    /// The requested token is not in the configured supported set.
    UnsupportedToken,
    /// The supplied authority is not the configured one.
    InvalidAuthority,
    /// No configuration exists yet at the deployment's derived address.
    ConfigNotInitialized,
    /// A configuration already exists at the deployment's derived address.
    AlreadyInitialized,
    /// More supported tokens were supplied than the store's fixed capacity.
    CapacityExceeded,
    /// A fee computation left the representable range instead of wrapping.
    ArithmeticOverflow,
}

} // verus!
