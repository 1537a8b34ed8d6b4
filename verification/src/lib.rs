//! A fee-sponsorship ("paymaster") settlement engine.
//!
//! An authority configures a service that lets end users pay a ledger's usage
//! fee either in the ledger's native currency or in an approved fungible
//! token, with the sponsor collecting a basis-point markup. The crate holds
//! the fee computation, the authorization check and the settlement-path
//! logic; the host ledger's account plumbing and its two value-transfer
//! primitives are modelled as plain balances that the settlement paths move.

pub mod config;
pub mod fees;
pub mod laws;
pub mod pay;
pub mod types;
