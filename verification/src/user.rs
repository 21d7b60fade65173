//! The per-owner position ("user"): recorded deposits and borrows, and
//! the shares held against each of the two supported assets.

use vstd::prelude::*;

verus! {

/// One per owner: per-asset deposited and borrowed amounts together
/// with the shares backing them. The two supported assets are the
/// native asset and the quote asset; a pool is matched to a side by
/// comparing its asset id with `usdc_address`.
#[derive(Clone, Copy, Debug, PartialEq, Eq, Structural)]
pub struct User {
    /// Account that owns this position.
    pub owner: u64,
    /// Deposit shares held in the native-asset pool.
    pub deposited_sol_shares: u64,
    /// Recorded native-asset deposit amount.
    pub deposited_sol: u64,
    /// Recorded native-asset borrowed amount.
    pub borrowed_sol: u64,
    /// Borrow shares owed to the native-asset pool.
    pub borrowed_sol_shares: u64,
    /// Recorded quote-asset deposit amount.
    pub deposited_usdc: u64,
    /// Deposit shares held in the quote-asset pool.
    pub deposited_usdc_shares: u64,
    /// Recorded quote-asset borrowed amount.
    pub borrowed_usdc: u64,
    /// Borrow shares owed to the quote-asset pool.
    pub borrowed_usdc_shares: u64,
    /// Identifier of the quote asset.
    pub usdc_address: u64,
    /// Unix timestamp of the last deposit-side change.
    pub last_updated: i64,
    /// Unix timestamp of the last borrow-side change.
    pub last_updated_borrow: i64,
}

impl User {
    /// The recorded deposit amount on the given side.
    pub open spec fn spec_deposited(self, is_usdc: bool) -> u64 {
        if is_usdc {
            self.deposited_usdc
        } else {
            self.deposited_sol
        }
    }

    /// The deposit shares held on the given side.
    pub open spec fn spec_deposited_shares(self, is_usdc: bool) -> u64 {
        if is_usdc {
            self.deposited_usdc_shares
        } else {
            self.deposited_sol_shares
        }
    }

    /// The recorded borrowed amount on the given side.
    pub open spec fn spec_borrowed(self, is_usdc: bool) -> u64 {
        if is_usdc {
            self.borrowed_usdc
        } else {
            self.borrowed_sol
        }
    }

    /// The borrow shares owed on the given side.
    pub open spec fn spec_borrowed_shares(self, is_usdc: bool) -> u64 {
        if is_usdc {
            self.borrowed_usdc_shares
        } else {
            self.borrowed_sol_shares
        }
    }
}

} // verus!
