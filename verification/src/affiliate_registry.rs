//! The affiliate registry: adding an affiliate to a pool and removing one.

use vstd::prelude::*;
use crate::accounts::{AddAffiliate, RemoveAffiliate};
use crate::errors::ErrorCode;
use crate::events::{AffiliateAdded, AffiliateRemoved};
use crate::state::{check_id_length, id_length_ok, Account, AffiliateAccount};

verus! {

/// Why adding an affiliate is refused, if it is: a caller who is not the
/// pool's merchant, then a reference identifier that is empty or too long,
/// then a pool that is inactive.
pub open spec fn add_refusal(ctx: AddAffiliate, ref_id: Seq<char>) -> Option<ErrorCode> {
    if ctx.merchant_pool.data.merchant != ctx.merchant {
        Some(ErrorCode::Unauthorized)
    } else if !id_length_ok(ref_id) {
        Some(ErrorCode::InvalidRefId)
    } else if !ctx.merchant_pool.data.is_active {
        Some(ErrorCode::PoolInactive)
    } else {
        None
    }
}

/// The record of an affiliate just added under `ctx`.
pub open spec fn new_affiliate(ctx: AddAffiliate, ref_id: String) -> AffiliateAccount {
    AffiliateAccount {
        pool: ctx.merchant_pool.key,
        wallet: ctx.affiliate_wallet,
        ref_id,
        total_earned: 0,
        sales_count: 0,
        is_active: true,
        bump: ctx.affiliate_account_bump,
        created_at: ctx.unix_timestamp,
    }
}

/// Adds the wallet named in `ctx` as an affiliate of the pool.
///
/// Refused, with nothing changed, for the reason that `add_refusal` gives.
/// Otherwise the blank record is filled: the affiliate belongs to the pool,
/// is active, and has earned nothing yet.
pub fn add_affiliate(ctx: &mut AddAffiliate, ref_id: String) -> (result: Result<AffiliateAdded, ErrorCode>)
    ensures
        match result {
            Ok(event) => {
                &&& add_refusal(*old(ctx), ref_id@) is None
                &&& *final(ctx) == (AddAffiliate {
                    affiliate_account: Account {
                        key: old(ctx).affiliate_account.key,
                        data: new_affiliate(*old(ctx), ref_id),
                    },
                    ..*old(ctx)
                })
                &&& final(ctx).affiliate_account.data.well_formed()
                &&& event == (AffiliateAdded {
                    pool: old(ctx).merchant_pool.key,
                    pool_id: old(ctx).merchant_pool.data.pool_id,
                    affiliate: old(ctx).affiliate_account.key,
                    wallet: old(ctx).affiliate_wallet,
                    ref_id,
                    timestamp: old(ctx).unix_timestamp,
                })
            },
            Err(e) => add_refusal(*old(ctx), ref_id@) == Some(e) && *final(ctx) == *old(ctx),
        },
{
    if !ctx.merchant_pool.data.merchant.same(&ctx.merchant) {
        return Err(ErrorCode::Unauthorized);
    }
    if !check_id_length(ref_id.as_str()) {
        return Err(ErrorCode::InvalidRefId);
    }
    if !ctx.merchant_pool.data.is_active {
        return Err(ErrorCode::PoolInactive);
    }
    ctx.affiliate_account.data = AffiliateAccount {
        pool: ctx.merchant_pool.key,
        wallet: ctx.affiliate_wallet,
        ref_id: ref_id.clone(),
        total_earned: 0,
        sales_count: 0,
        is_active: true,
        bump: ctx.affiliate_account_bump,
        created_at: ctx.unix_timestamp,
    };
    Ok(
        AffiliateAdded {
            pool: ctx.merchant_pool.key,
            pool_id: ctx.merchant_pool.data.pool_id.clone(),
            affiliate: ctx.affiliate_account.key,
            wallet: ctx.affiliate_wallet,
            ref_id,
            timestamp: ctx.unix_timestamp,
        },
    )
}

/// The affiliate record once it has been removed from its pool.
pub open spec fn removed(affiliate: AffiliateAccount) -> AffiliateAccount {
    AffiliateAccount { is_active: false, ..affiliate }
}

/// Why removing an affiliate is refused, if it is: a caller who is not the
/// pool's merchant, then an affiliate that belongs to another pool.
pub open spec fn remove_refusal(ctx: RemoveAffiliate) -> Option<ErrorCode> {
    if ctx.merchant_pool.data.merchant != ctx.merchant {
        Some(ErrorCode::Unauthorized)
    } else if ctx.affiliate_account.data.pool != ctx.merchant_pool.key {
        Some(ErrorCode::InvalidAffiliate)
    } else {
        None
    }
}

/// Removes an affiliate from its pool: no more sales can be attributed to
/// it. What it has earned stays on record. Removing an affiliate that is
/// inactive already succeeds and changes nothing more.
///
/// Refused, with nothing changed, for the reason that `remove_refusal` gives.
pub fn remove_affiliate(ctx: &mut RemoveAffiliate) -> (result: Result<AffiliateRemoved, ErrorCode>)
    ensures
        match result {
            Ok(event) => {
                &&& remove_refusal(*old(ctx)) is None
                &&& *final(ctx) == (RemoveAffiliate {
                    affiliate_account: Account {
                        key: old(ctx).affiliate_account.key,
                        data: removed(old(ctx).affiliate_account.data),
                    },
                    ..*old(ctx)
                })
                &&& event == (AffiliateRemoved {
                    pool: old(ctx).merchant_pool.key,
                    pool_id: old(ctx).merchant_pool.data.pool_id,
                    affiliate: old(ctx).affiliate_account.key,
                    wallet: old(ctx).affiliate_account.data.wallet,
                    timestamp: old(ctx).unix_timestamp,
                })
                &&& old(ctx).affiliate_account.data.well_formed() ==> final(ctx).affiliate_account.data.well_formed()
            },
            Err(e) => remove_refusal(*old(ctx)) == Some(e) && *final(ctx) == *old(ctx),
        },
{
    if !ctx.merchant_pool.data.merchant.same(&ctx.merchant) {
        return Err(ErrorCode::Unauthorized);
    }
    if !ctx.affiliate_account.data.pool.same(&ctx.merchant_pool.key) {
        return Err(ErrorCode::InvalidAffiliate);
    }
    ctx.affiliate_account.data.is_active = false;
    Ok(
        AffiliateRemoved {
            pool: ctx.merchant_pool.key,
            pool_id: ctx.merchant_pool.data.pool_id.clone(),
            affiliate: ctx.affiliate_account.key,
            wallet: ctx.affiliate_account.data.wallet,
            timestamp: ctx.unix_timestamp,
        },
    )
}

} // verus!
