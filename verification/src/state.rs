//! The two kinds of record the engine keeps: merchant pools and affiliates.

use vstd::prelude::*;
use vstd::utf8::encode_utf8;
use crate::pubkey::Pubkey;

verus! {

/// Longest identifier accepted, in bytes.
pub const MAX_ID_BYTES: usize = 32;

/// Whether a pool or reference identifier has between one and thirty-two bytes.
pub open spec fn id_length_ok(id: Seq<char>) -> bool {
    1 <= encode_utf8(id).len() <= 32
}

/// Whether an identifier has between one and thirty-two bytes.
pub fn check_id_length(id: &str) -> (ok: bool)
    ensures
        ok == id_length_ok(id@),
{
    let n: usize = id.as_bytes().len();
    n > 0 && n <= MAX_ID_BYTES
}

/// A record together with the identity under which it is stored.
#[derive(Clone, Debug, PartialEq, Eq)]
pub struct Account<T> {
    pub key: Pubkey,
    pub data: T,
}

/// A balance of the pool's currency held by the outside ledger, as last read.
#[derive(Clone, Copy, Debug, PartialEq, Eq)]
pub struct TokenAccount {
    pub key: Pubkey,
    pub amount: u64,
}

/// The currency a pool pays in.
#[derive(Clone, Copy, Debug, PartialEq, Eq)]
pub struct Mint {
    pub key: Pubkey,
    pub decimals: u8,
}

/// A merchant's pool: its rate, its lifetime counters and whether it still takes sales.
#[derive(Clone, Debug, PartialEq, Eq)]
pub struct MerchantPool {
    pub merchant: Pubkey,
    pub pool_id: String,
    pub usdc_mint: Pubkey,
    pub commission_rate: u16,
    pub total_volume: u64,
    pub total_commissions_paid: u64,
    pub is_active: bool,
    pub bump: u8,
    pub escrow_bump: u8,
    pub created_at: i64,
}

/// An affiliate of one pool: where it is paid and what it has earned.
#[derive(Clone, Debug, PartialEq, Eq)]
pub struct AffiliateAccount {
    pub pool: Pubkey,
    pub wallet: Pubkey,
    pub ref_id: String,
    pub total_earned: u64,
    pub sales_count: u64,
    pub is_active: bool,
    pub bump: u8,
    pub created_at: i64,
}

impl MerchantPool {
    /// A pool record is well formed when its rate is at most one hundred
    /// percent, its identifier has an accepted length, and it has paid out no
    /// more in commissions than it has seen in sales.
    pub open spec fn well_formed(&self) -> bool {
        &&& self.commission_rate <= 10000
        &&& id_length_ok(self.pool_id@)
        &&& self.total_commissions_paid <= self.total_volume
    }

    /// A record with nothing in it yet, as storage hands it out before a pool is set up.
    pub fn blank() -> (pool: MerchantPool)
        ensures
            pool.merchant.is_zero(),
            pool.pool_id@ == Seq::<char>::empty(),
            pool.usdc_mint.is_zero(),
            pool.commission_rate == 0,
            pool.total_volume == 0,
            pool.total_commissions_paid == 0,
            !pool.is_active,
            pool.bump == 0,
            pool.escrow_bump == 0,
            pool.created_at == 0,
    {
        MerchantPool {
            merchant: Pubkey::zero(),
            pool_id: String::new(),
            usdc_mint: Pubkey::zero(),
            commission_rate: 0,
            total_volume: 0,
            total_commissions_paid: 0,
            is_active: false,
            bump: 0,
            escrow_bump: 0,
            created_at: 0,
        }
    }
}

impl AffiliateAccount {
    /// An affiliate record is well formed when its reference identifier has an accepted length.
    pub open spec fn well_formed(&self) -> bool {
        id_length_ok(self.ref_id@)
    }

    /// A record with nothing in it yet, as storage hands it out before an affiliate is added.
    pub fn blank() -> (affiliate: AffiliateAccount)
        ensures
            affiliate.pool.is_zero(),
            affiliate.wallet.is_zero(),
            affiliate.ref_id@ == Seq::<char>::empty(),
            affiliate.total_earned == 0,
            affiliate.sales_count == 0,
            !affiliate.is_active,
            affiliate.bump == 0,
            affiliate.created_at == 0,
    {
        AffiliateAccount {
            pool: Pubkey::zero(),
            wallet: Pubkey::zero(),
            ref_id: String::new(),
            total_earned: 0,
            sales_count: 0,
            is_active: false,
            bump: 0,
            created_at: 0,
        }
    }
}

} // verus!
