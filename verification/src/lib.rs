//! One-shot fixed-supply token issuance.
//!
//! Given a freshly initialized mint with no supply and an empty
//! destination account, the controller mints a fixed, pre-determined
//! supply and then permanently revokes the authority that could mint
//! more, so that any observer can conclude from final account state
//! alone that the supply is fixed forever.

use vstd::prelude::*;

pub mod accounts;
pub mod controller;
pub mod error;
pub mod laws;
pub mod ledger;
pub mod state;

verus! {

/// Total supply of the token, before decimal scaling.
pub const TOTAL_SUPPLY: u64 = 500_000_000;

/// Number of decimal places the token carries.
pub const DECIMALS: u8 = 9;

/// 10 raised to `n`, as a mathematical integer.
pub open spec fn pow10(n: nat) -> nat
    decreases n,
{
    if n == 0 {
        1
    } else {
        10 * pow10((n - 1) as nat)
    }
}

/// The full scaled supply the protocol issues, as a mathematical integer.
pub open spec fn total_supply_scaled() -> int {
    TOTAL_SUPPLY * pow10(DECIMALS as nat)
}

} // verus!
