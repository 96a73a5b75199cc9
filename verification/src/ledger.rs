//! The commission ledger: recording a sale, paying its commission out of
//! escrow and advancing the lifetime counters of pool and affiliate.

use vstd::prelude::*;
use crate::accounts::{ProcessSale, TransferChecked};
use crate::address::{escrow_signer_seeds, escrow_signer_seeds_of, seed_bytes};
use crate::commission::{commission, commission_at_most_sale, commission_result};
use crate::errors::ErrorCode;
use crate::events::SaleProcessed;
use crate::state::{AffiliateAccount, MerchantPool};

verus! {

/// What a recorded sale hands back: the transfer to ask of the ledger, what
/// the escrow holds once that transfer has debited it, and the notification.
#[derive(Clone, Debug, PartialEq, Eq)]
pub struct SaleSettlement {
    pub transfer: TransferChecked,
    pub escrow_remaining: u64,
    pub event: SaleProcessed,
}

/// Whether the four lifetime counters can take one more sale without overflow.
pub open spec fn counters_have_room(
    pool: MerchantPool,
    affiliate: AffiliateAccount,
    sale_amount: u64,
    commission: u64,
) -> bool {
    &&& affiliate.total_earned + commission <= u64::MAX
    &&& affiliate.sales_count + 1 <= u64::MAX
    &&& pool.total_volume + sale_amount <= u64::MAX
    &&& pool.total_commissions_paid + commission <= u64::MAX
}

/// The pool record once a sale and its commission have been counted.
pub open spec fn pool_after_sale(pool: MerchantPool, sale_amount: u64, commission: u64) -> MerchantPool {
    MerchantPool {
        total_volume: (pool.total_volume + sale_amount) as u64,
        total_commissions_paid: (pool.total_commissions_paid + commission) as u64,
        ..pool
    }
}

/// The affiliate record once a sale and its commission have been counted.
pub open spec fn affiliate_after_sale(affiliate: AffiliateAccount, commission: u64) -> AffiliateAccount {
    AffiliateAccount {
        total_earned: (affiliate.total_earned + commission) as u64,
        sales_count: (affiliate.sales_count + 1) as u64,
        ..affiliate
    }
}

/// What a sale owes before the escrow is looked at: the commission, or why
/// the sale is refused. The tests are made in this order: the affiliate
/// belongs to the pool; the amount is not zero; the pool is active; the
/// affiliate is active; the commission can be computed and is not zero.
pub open spec fn sale_commission_result(ctx: ProcessSale, sale_amount: u64) -> Result<u64, ErrorCode> {
    let pool = ctx.merchant_pool.data;
    let affiliate = ctx.affiliate_account.data;
    if affiliate.pool != ctx.merchant_pool.key {
        Err(ErrorCode::InvalidAffiliate)
    } else if sale_amount == 0 {
        Err(ErrorCode::InvalidAmount)
    } else if !pool.is_active {
        Err(ErrorCode::PoolInactive)
    } else if !affiliate.is_active {
        Err(ErrorCode::AffiliateInactive)
    } else {
        commission_result(sale_amount, pool.commission_rate)
    }
}

/// Why a sale is refused, if it is: for the reason that
/// `sale_commission_result` gives; then because the escrow holds less than
/// the commission; then because a counter has no room.
pub open spec fn sale_refusal(ctx: ProcessSale, sale_amount: u64) -> Option<ErrorCode> {
    match sale_commission_result(ctx, sale_amount) {
        Err(e) => Some(e),
        Ok(owed) => if ctx.escrow_usdc.amount < owed {
            Some(ErrorCode::InsufficientEscrowBalance)
        } else if !counters_have_room(ctx.merchant_pool.data, ctx.affiliate_account.data, sale_amount, owed) {
            Some(ErrorCode::ArithmeticOverflow)
        } else {
            None
        },
    }
}

/// Whether `transfer` moves `amount` out of the escrow named in `ctx` to the
/// affiliate's balance, signed for by the pool's escrow authority.
pub open spec fn is_payout(ctx: ProcessSale, amount: u64, transfer: TransferChecked) -> bool {
    &&& transfer.from == ctx.escrow_usdc.key
    &&& transfer.mint == ctx.usdc_mint.key
    &&& transfer.to == ctx.affiliate_usdc.key
    &&& transfer.authority == ctx.escrow_authority
    &&& transfer.amount == amount
    &&& transfer.decimals == ctx.usdc_mint.decimals
    &&& seed_bytes(&transfer.signer_seeds) == escrow_signer_seeds_of(
        ctx.merchant_pool.key@,
        ctx.merchant_pool.data.escrow_bump,
    )
}

/// The notification of a sale recorded under `ctx`.
pub open spec fn sale_event(ctx: ProcessSale, sale_amount: u64, commission: u64) -> SaleProcessed {
    SaleProcessed {
        pool: ctx.merchant_pool.key,
        pool_id: ctx.merchant_pool.data.pool_id,
        affiliate: ctx.affiliate_account.key,
        affiliate_wallet: ctx.affiliate_account.data.wallet,
        sale_amount,
        commission,
        timestamp: ctx.unix_timestamp,
    }
}

/// The state after a sale with the given commission has been recorded: the
/// counters of pool and affiliate advanced, all else as before.
pub open spec fn after_sale(ctx: ProcessSale, sale_amount: u64, commission: u64) -> ProcessSale {
    ProcessSale {
        merchant_pool: crate::state::Account {
            key: ctx.merchant_pool.key,
            data: pool_after_sale(ctx.merchant_pool.data, sale_amount, commission),
        },
        affiliate_account: crate::state::Account {
            key: ctx.affiliate_account.key,
            data: affiliate_after_sale(ctx.affiliate_account.data, commission),
        },
        ..ctx
    }
}

/// Makes the tests on a sale that need no look at the escrow, and computes
/// its commission. The escrow balance in `ctx` is not read, so this can be
/// asked before the balance is read afresh.
pub fn sale_commission(ctx: &ProcessSale, sale_amount: u64) -> (result: Result<u64, ErrorCode>)
    ensures
        result == sale_commission_result(*ctx, sale_amount),
{
    if !ctx.affiliate_account.data.pool.same(&ctx.merchant_pool.key) {
        return Err(ErrorCode::InvalidAffiliate);
    }
    if sale_amount == 0 {
        return Err(ErrorCode::InvalidAmount);
    }
    if !ctx.merchant_pool.data.is_active {
        return Err(ErrorCode::PoolInactive);
    }
    if !ctx.affiliate_account.data.is_active {
        return Err(ErrorCode::AffiliateInactive);
    }
    commission(sale_amount, ctx.merchant_pool.data.commission_rate)
}

/// Records a sale against a pool and one of its affiliates.
///
/// The sale is refused, with nothing changed, for the first reason that
/// `sale_refusal` finds. Otherwise the commission is the sale amount times
/// the pool's rate over ten thousand, rounded down; the result asks for a
/// transfer of exactly that amount from escrow to the affiliate, and the
/// counters of pool and affiliate are advanced by the sale.
pub fn process_sale(ctx: &mut ProcessSale, sale_amount: u64) -> (result: Result<SaleSettlement, ErrorCode>)
    ensures
        match result {
            Ok(settled) => {
                &&& sale_refusal(*old(ctx), sale_amount) is None
                &&& commission_result(sale_amount, old(ctx).merchant_pool.data.commission_rate)
                    == Ok::<u64, ErrorCode>(settled.event.commission)
                &&& *final(ctx) == after_sale(*old(ctx), sale_amount, settled.event.commission)
                &&& is_payout(*old(ctx), settled.event.commission, settled.transfer)
                &&& settled.escrow_remaining == old(ctx).escrow_usdc.amount - settled.event.commission
                &&& settled.event == sale_event(*old(ctx), sale_amount, settled.event.commission)
                &&& old(ctx).merchant_pool.data.well_formed() ==> final(ctx).merchant_pool.data.well_formed()
                &&& old(ctx).affiliate_account.data.well_formed() ==> final(ctx).affiliate_account.data.well_formed()
            },
            Err(e) => sale_refusal(*old(ctx), sale_amount) == Some(e) && *final(ctx) == *old(ctx),
        },
{
    let owed: u64 = match sale_commission(ctx, sale_amount) {
        Ok(owed) => owed,
        Err(e) => {
            return Err(e);
        },
    };
    if ctx.escrow_usdc.amount < owed {
        return Err(ErrorCode::InsufficientEscrowBalance);
    }
    let total_earned: u64 = match ctx.affiliate_account.data.total_earned.checked_add(owed) {
        Some(sum) => sum,
        None => {
            return Err(ErrorCode::ArithmeticOverflow);
        },
    };
    let sales_count: u64 = match ctx.affiliate_account.data.sales_count.checked_add(1) {
        Some(sum) => sum,
        None => {
            return Err(ErrorCode::ArithmeticOverflow);
        },
    };
    let total_volume: u64 = match ctx.merchant_pool.data.total_volume.checked_add(sale_amount) {
        Some(sum) => sum,
        None => {
            return Err(ErrorCode::ArithmeticOverflow);
        },
    };
    let total_commissions_paid: u64 = match ctx.merchant_pool.data.total_commissions_paid.checked_add(owed) {
        Some(sum) => sum,
        None => {
            return Err(ErrorCode::ArithmeticOverflow);
        },
    };
    let transfer = TransferChecked {
        from: ctx.escrow_usdc.key,
        mint: ctx.usdc_mint.key,
        to: ctx.affiliate_usdc.key,
        authority: ctx.escrow_authority,
        amount: owed,
        decimals: ctx.usdc_mint.decimals,
        signer_seeds: escrow_signer_seeds(&ctx.merchant_pool.key, ctx.merchant_pool.data.escrow_bump),
    };
    let event = SaleProcessed {
        pool: ctx.merchant_pool.key,
        pool_id: ctx.merchant_pool.data.pool_id.clone(),
        affiliate: ctx.affiliate_account.key,
        affiliate_wallet: ctx.affiliate_account.data.wallet,
        sale_amount,
        commission: owed,
        timestamp: ctx.unix_timestamp,
    };
    let escrow_remaining: u64 = ctx.escrow_usdc.amount - owed;
    proof {
        if ctx.merchant_pool.data.commission_rate <= 10000 {
            commission_at_most_sale(sale_amount, ctx.merchant_pool.data.commission_rate);
        }
    }
    ctx.affiliate_account.data.total_earned = total_earned;
    ctx.affiliate_account.data.sales_count = sales_count;
    ctx.merchant_pool.data.total_volume = total_volume;
    ctx.merchant_pool.data.total_commissions_paid = total_commissions_paid;
    Ok(SaleSettlement { transfer, escrow_remaining, event })
}

} // verus!
