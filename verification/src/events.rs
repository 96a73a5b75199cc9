//! The notifications the engine produces, one for each operation that succeeds.

use vstd::prelude::*;
use crate::pubkey::Pubkey;

verus! {

/// A pool was set up.
#[derive(Clone, Debug, PartialEq, Eq)]
pub struct PoolInitialized {
    pub pool: Pubkey,
    pub merchant: Pubkey,
    pub pool_id: String,
    pub commission_rate: u16,
    pub initial_deposit: u64,
    pub timestamp: i64,
}

/// A pool's commission rate was replaced.
#[derive(Clone, Debug, PartialEq, Eq)]
pub struct PoolCommissionUpdated {
    pub pool: Pubkey,
    pub merchant: Pubkey,
    pub pool_id: String,
    pub old_rate: u16,
    pub new_rate: u16,
    pub timestamp: i64,
}

/// A pool was deactivated.
#[derive(Clone, Debug, PartialEq, Eq)]
pub struct PoolDeactivated {
    pub pool: Pubkey,
    pub merchant: Pubkey,
    pub pool_id: String,
    pub timestamp: i64,
}

/// An affiliate was added to a pool.
#[derive(Clone, Debug, PartialEq, Eq)]
pub struct AffiliateAdded {
    pub pool: Pubkey,
    pub pool_id: String,
    pub affiliate: Pubkey,
    pub wallet: Pubkey,
    pub ref_id: String,
    pub timestamp: i64,
}

/// A sale was recorded and its commission paid.
#[derive(Clone, Debug, PartialEq, Eq)]
pub struct SaleProcessed {
    pub pool: Pubkey,
    pub pool_id: String,
    pub affiliate: Pubkey,
    pub affiliate_wallet: Pubkey,
    pub sale_amount: u64,
    pub commission: u64,
    pub timestamp: i64,
}

/// An affiliate was removed from a pool.
#[derive(Clone, Debug, PartialEq, Eq)]
pub struct AffiliateRemoved {
    pub pool: Pubkey,
    pub pool_id: String,
    pub affiliate: Pubkey,
    pub wallet: Pubkey,
    pub timestamp: i64,
}

/// The merchant added funds to the escrow.
#[derive(Clone, Debug, PartialEq, Eq)]
pub struct EscrowDeposited {
    pub pool: Pubkey,
    pub pool_id: String,
    pub amount: u64,
    pub timestamp: i64,
}

/// The merchant took funds back from the escrow.
#[derive(Clone, Debug, PartialEq, Eq)]
pub struct EscrowWithdrawn {
    pub pool: Pubkey,
    pub pool_id: String,
    pub amount: u64,
    pub timestamp: i64,
}

} // verus!
