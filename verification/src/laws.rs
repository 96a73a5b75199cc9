//! What holds of the engine as a whole: which refusal wins, what decides a
//! payout, and how the lifetime counters add up over a run of sales.

use vstd::prelude::*;
use crate::accounts::{ProcessSale, WithdrawEscrow};
use crate::commission::commission_result;
use crate::errors::ErrorCode;
use crate::affiliate_registry::removed;
use crate::ledger::{affiliate_after_sale, counters_have_room, pool_after_sale, sale_commission_result, sale_refusal};
use crate::pool_registry::{deactivated, with_rate, withdraw_refusal, withdraw_request_refusal};
use crate::state::{Account, AffiliateAccount, MerchantPool, TokenAccount};

verus! {

/// A sale against an inactive pool, by an affiliate of that pool and for an
/// amount that is not zero, is refused because the pool is inactive.
pub proof fn inactive_pool_refuses_sale(ctx: ProcessSale, sale_amount: u64)
    requires
        !ctx.merchant_pool.data.is_active,
        ctx.affiliate_account.data.pool == ctx.merchant_pool.key,
        sale_amount > 0,
    ensures
        sale_refusal(ctx, sale_amount) == Some(ErrorCode::PoolInactive),
{
}

/// A sale attributed to an affiliate of another pool is refused as such,
/// whatever else holds of the pool, the affiliate, the amount or the escrow.
pub proof fn foreign_affiliate_refuses_sale(ctx: ProcessSale, sale_amount: u64)
    requires
        ctx.affiliate_account.data.pool != ctx.merchant_pool.key,
    ensures
        sale_refusal(ctx, sale_amount) == Some(ErrorCode::InvalidAffiliate),
{
}

/// The tests on a sale that come before the look at the escrow do not
/// depend on what the escrow holds, and neither do those on a withdrawal: a
/// balance read afresh after them changes nothing of their outcome.
pub proof fn early_tests_ignore_escrow(sale: ProcessSale, sale_amount: u64, withdrawal: WithdrawEscrow, amount: u64, balance: u64)
    ensures
        sale_commission_result(
            ProcessSale { escrow_usdc: TokenAccount { key: sale.escrow_usdc.key, amount: balance }, ..sale },
            sale_amount,
        ) == sale_commission_result(sale, sale_amount),
        withdraw_request_refusal(
            WithdrawEscrow {
                escrow_usdc: TokenAccount { key: withdrawal.escrow_usdc.key, amount: balance },
                ..withdrawal
            },
            amount,
        ) == withdraw_request_refusal(withdrawal, amount),
{
}

/// Once a sale is otherwise in order and its commission is `owed`, the
/// escrow balance alone decides: the sale is refused for want of escrow
/// exactly when the commission exceeds the balance, and goes through
/// exactly when it does not.
pub proof fn escrow_decides_sale(ctx: ProcessSale, sale_amount: u64, owed: u64)
    requires
        ctx.affiliate_account.data.pool == ctx.merchant_pool.key,
        sale_amount > 0,
        ctx.merchant_pool.data.is_active,
        ctx.affiliate_account.data.is_active,
        commission_result(sale_amount, ctx.merchant_pool.data.commission_rate) == Ok::<u64, ErrorCode>(owed),
        counters_have_room(ctx.merchant_pool.data, ctx.affiliate_account.data, sale_amount, owed),
    ensures
        owed > ctx.escrow_usdc.amount <==> sale_refusal(ctx, sale_amount) == Some(
            ErrorCode::InsufficientEscrowBalance,
        ),
        owed <= ctx.escrow_usdc.amount <==> sale_refusal(ctx, sale_amount) is None,
{
}

/// A withdrawal by the pool's merchant of an amount that is not zero goes
/// through exactly when the escrow holds at least that amount, and is
/// refused for want of escrow otherwise, whether the pool is active or not.
pub proof fn merchant_withdraws_what_escrow_holds(ctx: WithdrawEscrow, amount: u64)
    requires
        ctx.merchant_pool.data.merchant == ctx.merchant,
        amount > 0,
    ensures
        amount <= ctx.escrow_usdc.amount <==> withdraw_refusal(ctx, amount) is None,
        amount > ctx.escrow_usdc.amount <==> withdraw_refusal(ctx, amount) == Some(
            ErrorCode::InsufficientEscrowBalance,
        ),
{
}

/// Whether a pool is active plays no part in a withdrawal.
pub proof fn withdrawal_ignores_activity(ctx: WithdrawEscrow, amount: u64, is_active: bool)
    ensures
        withdraw_refusal(
            WithdrawEscrow {
                merchant_pool: Account {
                    key: ctx.merchant_pool.key,
                    data: MerchantPool { is_active, ..ctx.merchant_pool.data },
                },
                ..ctx
            },
            amount,
        ) == withdraw_refusal(ctx, amount),
{
}

/// A sale that goes through found its commission computed, the escrow
/// sufficient and room in every counter.
pub proof fn accepted_sale_is_covered(ctx: ProcessSale, sale_amount: u64)
    requires
        sale_refusal(ctx, sale_amount) is None,
    ensures
        sale_commission_result(ctx, sale_amount) matches Ok(owed) && {
            &&& commission_result(sale_amount, ctx.merchant_pool.data.commission_rate) == Ok::<u64, ErrorCode>(owed)
            &&& 0 < owed <= ctx.escrow_usdc.amount
            &&& counters_have_room(ctx.merchant_pool.data, ctx.affiliate_account.data, sale_amount, owed)
        },
{
}

/// Deactivating a pool twice is the same as deactivating it once, and a
/// deactivated pool is inactive.
pub proof fn deactivation_is_idempotent(pool: MerchantPool)
    ensures
        !deactivated(pool).is_active,
        deactivated(deactivated(pool)) == deactivated(pool),
{
}

/// Removing an affiliate twice is the same as removing it once, and a
/// removed affiliate is inactive.
pub proof fn removal_is_idempotent(affiliate: AffiliateAccount)
    ensures
        !removed(affiliate).is_active,
        removed(removed(affiliate)) == removed(affiliate),
{
}

/// Nothing the engine does to the record of a pool that exists makes an
/// inactive pool active again: not a change of rate, not a deactivation,
/// not a sale. Only setting up a pool makes a record active, and that
/// fills a record that held no pool before.
pub proof fn pool_stays_inactive(pool: MerchantPool, commission_rate: u16, sale_amount: u64, commission: u64)
    requires
        !pool.is_active,
    ensures
        !with_rate(pool, commission_rate).is_active,
        !deactivated(pool).is_active,
        !pool_after_sale(pool, sale_amount, commission).is_active,
{
}

/// Nothing the engine does to the record of an affiliate that exists makes
/// an inactive affiliate active again: not a removal, not a sale. Only
/// adding an affiliate makes a record active, and that fills a record that
/// held no affiliate before.
pub proof fn affiliate_stays_inactive(affiliate: AffiliateAccount, commission: u64)
    requires
        !affiliate.is_active,
    ensures
        !removed(affiliate).is_active,
        !affiliate_after_sale(affiliate, commission).is_active,
{
}

/// A well-formed pool record stays well formed under a change to a rate
/// within range, under deactivation, and under a sale whose commission is
/// at most its amount and whose amount the volume counter has room for.
pub proof fn pool_stays_well_formed(pool: MerchantPool, commission_rate: u16, sale_amount: u64, commission: u64)
    requires
        pool.well_formed(),
        commission_rate <= 10000,
        commission <= sale_amount,
        pool.total_volume + sale_amount <= u64::MAX,
    ensures
        with_rate(pool, commission_rate).well_formed(),
        deactivated(pool).well_formed(),
        pool_after_sale(pool, sale_amount, commission).well_formed(),
{
}

/// A well-formed affiliate record stays well formed under removal and under a sale.
pub proof fn affiliate_stays_well_formed(affiliate: AffiliateAccount, commission: u64)
    requires
        affiliate.well_formed(),
    ensures
        removed(affiliate).well_formed(),
        affiliate_after_sale(affiliate, commission).well_formed(),
{
}

/// A change of rate touches nothing that was recorded before: the lifetime
/// counters, the owner, the identifier, the currency and the time of
/// creation stay as they were.
pub proof fn rate_change_is_not_retroactive(pool: MerchantPool, commission_rate: u16)
    ensures
        with_rate(pool, commission_rate).commission_rate == commission_rate,
        with_rate(pool, commission_rate).total_volume == pool.total_volume,
        with_rate(pool, commission_rate).total_commissions_paid == pool.total_commissions_paid,
        with_rate(pool, commission_rate).is_active == pool.is_active,
        with_rate(pool, commission_rate).merchant == pool.merchant,
        with_rate(pool, commission_rate).pool_id == pool.pool_id,
        with_rate(pool, commission_rate).usdc_mint == pool.usdc_mint,
        with_rate(pool, commission_rate).created_at == pool.created_at,
{
}

/// The sale amounts of a run of sales, added up. Each sale is a pair of its
/// amount and its commission.
pub open spec fn total_sale_amounts(sales: Seq<(u64, u64)>) -> int
    decreases sales.len(),
{
    if sales.len() == 0 {
        0
    } else {
        total_sale_amounts(sales.drop_last()) + sales.last().0
    }
}

/// The commissions of a run of sales, added up.
pub open spec fn total_commissions(sales: Seq<(u64, u64)>) -> int
    decreases sales.len(),
{
    if sales.len() == 0 {
        0
    } else {
        total_commissions(sales.drop_last()) + sales.last().1
    }
}

/// The pool record after a run of sales has been counted, one after another.
pub open spec fn pool_after_sales(pool: MerchantPool, sales: Seq<(u64, u64)>) -> MerchantPool
    decreases sales.len(),
{
    if sales.len() == 0 {
        pool
    } else {
        pool_after_sale(pool_after_sales(pool, sales.drop_last()), sales.last().0, sales.last().1)
    }
}

/// The affiliate record after a run of sales has been counted, one after another.
pub open spec fn affiliate_after_sales(affiliate: AffiliateAccount, sales: Seq<(u64, u64)>) -> AffiliateAccount
    decreases sales.len(),
{
    if sales.len() == 0 {
        affiliate
    } else {
        affiliate_after_sale(affiliate_after_sales(affiliate, sales.drop_last()), sales.last().1)
    }
}

/// Whether every sale of a run went through as far as the counters go: each
/// found room in the counters as the sales before it had left them.
pub open spec fn all_counted(pool: MerchantPool, affiliate: AffiliateAccount, sales: Seq<(u64, u64)>) -> bool
    decreases sales.len(),
{
    sales.len() == 0 || {
        &&& all_counted(pool, affiliate, sales.drop_last())
        &&& counters_have_room(
            pool_after_sales(pool, sales.drop_last()),
            affiliate_after_sales(affiliate, sales.drop_last()),
            sales.last().0,
            sales.last().1,
        )
    }
}

/// After a run of sales that all went through, the affiliate has earned the
/// sum of their commissions more and counts one sale more for each; the
/// pool has paid the sum of their commissions more and seen the sum of
/// their amounts more. Nothing else in either record has changed.
pub proof fn counters_add_up(pool: MerchantPool, affiliate: AffiliateAccount, sales: Seq<(u64, u64)>)
    requires
        all_counted(pool, affiliate, sales),
    ensures
        affiliate_after_sales(affiliate, sales).total_earned == affiliate.total_earned + total_commissions(sales),
        affiliate_after_sales(affiliate, sales).sales_count == affiliate.sales_count + sales.len(),
        pool_after_sales(pool, sales).total_commissions_paid == pool.total_commissions_paid + total_commissions(
            sales,
        ),
        pool_after_sales(pool, sales).total_volume == pool.total_volume + total_sale_amounts(sales),
        pool_after_sales(pool, sales) == (MerchantPool {
            total_volume: pool_after_sales(pool, sales).total_volume,
            total_commissions_paid: pool_after_sales(pool, sales).total_commissions_paid,
            ..pool
        }),
        affiliate_after_sales(affiliate, sales) == (AffiliateAccount {
            total_earned: affiliate_after_sales(affiliate, sales).total_earned,
            sales_count: affiliate_after_sales(affiliate, sales).sales_count,
            ..affiliate
        }),
    decreases sales.len(),
{
    if sales.len() > 0 {
        counters_add_up(pool, affiliate, sales.drop_last());
    }
}

/// The lifetime counters never go down over a run of sales that all went through.
pub proof fn counters_never_decrease(pool: MerchantPool, affiliate: AffiliateAccount, sales: Seq<(u64, u64)>)
    requires
        all_counted(pool, affiliate, sales),
    ensures
        affiliate_after_sales(affiliate, sales).total_earned >= affiliate.total_earned,
        affiliate_after_sales(affiliate, sales).sales_count >= affiliate.sales_count,
        pool_after_sales(pool, sales).total_commissions_paid >= pool.total_commissions_paid,
        pool_after_sales(pool, sales).total_volume >= pool.total_volume,
    decreases sales.len(),
{
    if sales.len() > 0 {
        counters_never_decrease(pool, affiliate, sales.drop_last());
    }
}

} // verus!
