//! Construction, pricing, and validation of binary instructions for a
//! bonding-curve token program.
//!
//! The crate derives deterministic program addresses, encodes the byte-exact
//! payloads the on-chain program expects for its create, buy and sell calls,
//! prices trades against virtual reserves, applies slippage tolerances, and
//! assembles ordered instruction lists ready for external signing and
//! submission. Network transport, signing and configuration loading are left
//! to the caller.

use vstd::prelude::*;

pub mod address;
pub mod assemble;
pub mod encode;
pub mod instruction;
pub mod pricing;
pub mod slippage;

verus! {

/// Everything that validation, address derivation or assembly can reject.
#[derive(Clone, Copy, Debug, PartialEq, Eq)]
pub enum PumpError {
    /// A required text field of a creation request is empty.
    InvalidCreationRequest,
    /// A trade or purchase amount is zero.
    InvalidAmount,
    /// A text field does not fit behind a 32-bit length prefix.
    FieldTooLong,
    /// The bounded bump search of the address derivation found no address.
    DerivationExhausted,
    /// The queried token balance is zero, so there is nothing to sell.
    NothingToSell,
}

} // verus!
