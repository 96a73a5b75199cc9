//! The pool registry: setting up a pool, replacing its rate, deactivating
//! it, and moving funds between the merchant and the pool's escrow.

use vstd::prelude::*;
use crate::accounts::{DeactivatePool, DepositEscrow, InitializePool, TransferChecked, UpdatePoolCommission, WithdrawEscrow};
use crate::address::{escrow_signer_seeds, escrow_signer_seeds_of, seed_bytes};
use crate::commission::rate_in_range;
use crate::errors::ErrorCode;
use crate::events::{EscrowDeposited, EscrowWithdrawn, PoolCommissionUpdated, PoolDeactivated, PoolInitialized};
use crate::pubkey::Pubkey;
use crate::state::{check_id_length, id_length_ok, Account, MerchantPool, Mint, TokenAccount};

verus! {

/// What setting up a pool hands back: the first deposit to ask of the
/// ledger, if there is one, and the notification.
#[derive(Clone, Debug, PartialEq, Eq)]
pub struct PoolCreation {
    pub transfer: Option<TransferChecked>,
    pub event: PoolInitialized,
}

/// What a deposit hands back: the transfer to ask of the ledger, and the notification.
#[derive(Clone, Debug, PartialEq, Eq)]
pub struct EscrowDeposit {
    pub transfer: TransferChecked,
    pub event: EscrowDeposited,
}

/// What a withdrawal hands back: the transfer to ask of the ledger, what the
/// escrow holds once that transfer has debited it, and the notification.
#[derive(Clone, Debug, PartialEq, Eq)]
pub struct EscrowWithdrawal {
    pub transfer: TransferChecked,
    pub escrow_remaining: u64,
    pub event: EscrowWithdrawn,
}

/// Whether `transfer` moves `amount` from the merchant's balance into the
/// escrow, on the merchant's own signature.
pub open spec fn is_funding(
    merchant: Pubkey,
    merchant_usdc: TokenAccount,
    escrow_usdc: TokenAccount,
    usdc_mint: Mint,
    amount: u64,
    transfer: TransferChecked,
) -> bool {
    &&& transfer.from == merchant_usdc.key
    &&& transfer.mint == usdc_mint.key
    &&& transfer.to == escrow_usdc.key
    &&& transfer.authority == merchant
    &&& transfer.amount == amount
    &&& transfer.decimals == usdc_mint.decimals
    &&& transfer.signer_seeds@.len() == 0
}

/// Why setting up a pool is refused, if it is: a pool identifier that is
/// empty or too long, then a rate above one hundred percent. The first
/// deposit plays no part: a pool may be set up with none.
pub open spec fn initialize_refusal(pool_id: Seq<char>, commission_rate: u16) -> Option<ErrorCode> {
    if !id_length_ok(pool_id) {
        Some(ErrorCode::InvalidPoolId)
    } else if commission_rate > 10000 {
        Some(ErrorCode::InvalidCommissionRate)
    } else {
        None
    }
}

/// Whether `transfer` is what setting up a pool under `ctx` asks of the
/// ledger for a first deposit: nothing for a deposit of zero, and otherwise
/// the move of the deposit from the merchant's balance into the escrow.
pub open spec fn is_first_funding(ctx: InitializePool, initial_deposit: u64, transfer: Option<TransferChecked>) -> bool {
    match transfer {
        None => initial_deposit == 0,
        Some(asked) => initial_deposit > 0 && is_funding(
            ctx.merchant,
            ctx.merchant_usdc,
            ctx.escrow_usdc,
            ctx.usdc_mint,
            initial_deposit,
            asked,
        ),
    }
}

/// The record of a pool just set up under `ctx`.
pub open spec fn new_pool(ctx: InitializePool, pool_id: String, commission_rate: u16) -> MerchantPool {
    MerchantPool {
        merchant: ctx.merchant,
        pool_id,
        usdc_mint: ctx.usdc_mint.key,
        commission_rate,
        total_volume: 0,
        total_commissions_paid: 0,
        is_active: true,
        bump: ctx.merchant_pool_bump,
        escrow_bump: ctx.escrow_authority_bump,
        created_at: ctx.unix_timestamp,
    }
}

/// Sets up a pool for the merchant named in `ctx`, at the given rate. A
/// first deposit above zero is asked to be moved into the pool's escrow; with
/// a first deposit of zero the pool is set up all the same and no transfer
/// is asked.
///
/// Refused, with nothing changed, for the first reason that
/// `initialize_refusal` finds. Otherwise the record handed in, which is
/// meant to be blank, is filled: the pool is active, its counters are zero,
/// and the record is well formed.
pub fn initialize_pool(
    ctx: &mut InitializePool,
    pool_id: String,
    commission_rate: u16,
    initial_deposit: u64,
) -> (result: Result<PoolCreation, ErrorCode>)
    ensures
        match result {
            Ok(created) => {
                &&& initialize_refusal(pool_id@, commission_rate) is None
                &&& *final(ctx) == (InitializePool {
                    merchant_pool: Account {
                        key: old(ctx).merchant_pool.key,
                        data: new_pool(*old(ctx), pool_id, commission_rate),
                    },
                    ..*old(ctx)
                })
                &&& final(ctx).merchant_pool.data.well_formed()
                &&& is_first_funding(*old(ctx), initial_deposit, created.transfer)
                &&& created.event == (PoolInitialized {
                    pool: old(ctx).merchant_pool.key,
                    merchant: old(ctx).merchant,
                    pool_id,
                    commission_rate,
                    initial_deposit,
                    timestamp: old(ctx).unix_timestamp,
                })
            },
            Err(e) => initialize_refusal(pool_id@, commission_rate) == Some(e) && *final(ctx) == *old(ctx),
        },
{
    if !check_id_length(pool_id.as_str()) {
        return Err(ErrorCode::InvalidPoolId);
    }
    if !rate_in_range(commission_rate) {
        return Err(ErrorCode::InvalidCommissionRate);
    }
    ctx.merchant_pool.data = MerchantPool {
        merchant: ctx.merchant,
        pool_id: pool_id.clone(),
        usdc_mint: ctx.usdc_mint.key,
        commission_rate,
        total_volume: 0,
        total_commissions_paid: 0,
        is_active: true,
        bump: ctx.merchant_pool_bump,
        escrow_bump: ctx.escrow_authority_bump,
        created_at: ctx.unix_timestamp,
    };
    let transfer = if initial_deposit > 0 {
        Some(
            TransferChecked {
                from: ctx.merchant_usdc.key,
                mint: ctx.usdc_mint.key,
                to: ctx.escrow_usdc.key,
                authority: ctx.merchant,
                amount: initial_deposit,
                decimals: ctx.usdc_mint.decimals,
                signer_seeds: Vec::new(),
            },
        )
    } else {
        None
    };
    let event = PoolInitialized {
        pool: ctx.merchant_pool.key,
        merchant: ctx.merchant,
        pool_id,
        commission_rate,
        initial_deposit,
        timestamp: ctx.unix_timestamp,
    };
    Ok(PoolCreation { transfer, event })
}

/// The pool record with its commission rate replaced.
pub open spec fn with_rate(pool: MerchantPool, commission_rate: u16) -> MerchantPool {
    MerchantPool { commission_rate, ..pool }
}

/// The pool record once it has been deactivated.
pub open spec fn deactivated(pool: MerchantPool) -> MerchantPool {
    MerchantPool { is_active: false, ..pool }
}

/// Why a change of rate is refused, if it is: a caller who is not the pool's
/// merchant, then a rate above one hundred percent.
pub open spec fn update_refusal(ctx: UpdatePoolCommission, new_commission_rate: u16) -> Option<ErrorCode> {
    if ctx.merchant_pool.data.merchant != ctx.merchant {
        Some(ErrorCode::Unauthorized)
    } else if new_commission_rate > 10000 {
        Some(ErrorCode::InvalidCommissionRate)
    } else {
        None
    }
}

/// Replaces the commission rate of a pool. Sales recorded from now on are
/// paid at the new rate; nothing recorded before is touched.
///
/// Refused, with nothing changed, for the reason that `update_refusal` gives.
pub fn update_pool_commission(ctx: &mut UpdatePoolCommission, new_commission_rate: u16) -> (result: Result<
    PoolCommissionUpdated,
    ErrorCode,
>)
    ensures
        match result {
            Ok(event) => {
                &&& update_refusal(*old(ctx), new_commission_rate) is None
                &&& *final(ctx) == (UpdatePoolCommission {
                    merchant_pool: Account {
                        key: old(ctx).merchant_pool.key,
                        data: with_rate(old(ctx).merchant_pool.data, new_commission_rate),
                    },
                    ..*old(ctx)
                })
                &&& event == (PoolCommissionUpdated {
                    pool: old(ctx).merchant_pool.key,
                    merchant: old(ctx).merchant_pool.data.merchant,
                    pool_id: old(ctx).merchant_pool.data.pool_id,
                    old_rate: old(ctx).merchant_pool.data.commission_rate,
                    new_rate: new_commission_rate,
                    timestamp: old(ctx).unix_timestamp,
                })
                &&& old(ctx).merchant_pool.data.well_formed() ==> final(ctx).merchant_pool.data.well_formed()
            },
            Err(e) => update_refusal(*old(ctx), new_commission_rate) == Some(e) && *final(ctx) == *old(ctx),
        },
{
    if !ctx.merchant_pool.data.merchant.same(&ctx.merchant) {
        return Err(ErrorCode::Unauthorized);
    }
    if !rate_in_range(new_commission_rate) {
        return Err(ErrorCode::InvalidCommissionRate);
    }
    let old_rate: u16 = ctx.merchant_pool.data.commission_rate;
    ctx.merchant_pool.data.commission_rate = new_commission_rate;
    Ok(
        PoolCommissionUpdated {
            pool: ctx.merchant_pool.key,
            merchant: ctx.merchant_pool.data.merchant,
            pool_id: ctx.merchant_pool.data.pool_id.clone(),
            old_rate,
            new_rate: new_commission_rate,
            timestamp: ctx.unix_timestamp,
        },
    )
}

/// Deactivates a pool: it takes no more sales, affiliates or deposits. A
/// pool that is inactive already stays so, and the call still succeeds.
///
/// Refused as unauthorized, with nothing changed, exactly when the caller
/// is not the pool's merchant.
pub fn deactivate_pool(ctx: &mut DeactivatePool) -> (result: Result<PoolDeactivated, ErrorCode>)
    ensures
        match result {
            Ok(event) => {
                &&& old(ctx).merchant_pool.data.merchant == old(ctx).merchant
                &&& *final(ctx) == (DeactivatePool {
                    merchant_pool: Account {
                        key: old(ctx).merchant_pool.key,
                        data: deactivated(old(ctx).merchant_pool.data),
                    },
                    ..*old(ctx)
                })
                &&& event == (PoolDeactivated {
                    pool: old(ctx).merchant_pool.key,
                    merchant: old(ctx).merchant_pool.data.merchant,
                    pool_id: old(ctx).merchant_pool.data.pool_id,
                    timestamp: old(ctx).unix_timestamp,
                })
                &&& old(ctx).merchant_pool.data.well_formed() ==> final(ctx).merchant_pool.data.well_formed()
            },
            Err(e) => {
                &&& e == ErrorCode::Unauthorized
                &&& old(ctx).merchant_pool.data.merchant != old(ctx).merchant
                &&& *final(ctx) == *old(ctx)
            },
        },
{
    if !ctx.merchant_pool.data.merchant.same(&ctx.merchant) {
        return Err(ErrorCode::Unauthorized);
    }
    ctx.merchant_pool.data.is_active = false;
    Ok(
        PoolDeactivated {
            pool: ctx.merchant_pool.key,
            merchant: ctx.merchant_pool.data.merchant,
            pool_id: ctx.merchant_pool.data.pool_id.clone(),
            timestamp: ctx.unix_timestamp,
        },
    )
}

/// Why a deposit is refused, if it is: a caller who is not the pool's
/// merchant, then an amount of zero, then a pool that is inactive.
pub open spec fn deposit_refusal(ctx: DepositEscrow, amount: u64) -> Option<ErrorCode> {
    if ctx.merchant_pool.data.merchant != ctx.merchant {
        Some(ErrorCode::Unauthorized)
    } else if amount == 0 {
        Some(ErrorCode::InvalidAmount)
    } else if !ctx.merchant_pool.data.is_active {
        Some(ErrorCode::PoolInactive)
    } else {
        None
    }
}

/// Asks for `amount` to be moved from the merchant's balance into the
/// escrow of an active pool. No record changes.
///
/// Refused for the reason that `deposit_refusal` gives.
pub fn deposit_escrow(ctx: &DepositEscrow, amount: u64) -> (result: Result<EscrowDeposit, ErrorCode>)
    ensures
        match result {
            Ok(deposit) => {
                &&& deposit_refusal(*ctx, amount) is None
                &&& is_funding(
                    ctx.merchant,
                    ctx.merchant_usdc,
                    ctx.escrow_usdc,
                    ctx.usdc_mint,
                    amount,
                    deposit.transfer,
                )
                &&& deposit.event == (EscrowDeposited {
                    pool: ctx.merchant_pool.key,
                    pool_id: ctx.merchant_pool.data.pool_id,
                    amount,
                    timestamp: ctx.unix_timestamp,
                })
            },
            Err(e) => deposit_refusal(*ctx, amount) == Some(e),
        },
{
    if !ctx.merchant_pool.data.merchant.same(&ctx.merchant) {
        return Err(ErrorCode::Unauthorized);
    }
    if amount == 0 {
        return Err(ErrorCode::InvalidAmount);
    }
    if !ctx.merchant_pool.data.is_active {
        return Err(ErrorCode::PoolInactive);
    }
    let transfer = TransferChecked {
        from: ctx.merchant_usdc.key,
        mint: ctx.usdc_mint.key,
        to: ctx.escrow_usdc.key,
        authority: ctx.merchant,
        amount,
        decimals: ctx.usdc_mint.decimals,
        signer_seeds: Vec::new(),
    };
    let event = EscrowDeposited {
        pool: ctx.merchant_pool.key,
        pool_id: ctx.merchant_pool.data.pool_id.clone(),
        amount,
        timestamp: ctx.unix_timestamp,
    };
    Ok(EscrowDeposit { transfer, event })
}

/// Why a withdrawal is refused before the escrow is looked at, if it is: a
/// caller who is not the pool's merchant, then an amount of zero.
pub open spec fn withdraw_request_refusal(ctx: WithdrawEscrow, amount: u64) -> Option<ErrorCode> {
    if ctx.merchant_pool.data.merchant != ctx.merchant {
        Some(ErrorCode::Unauthorized)
    } else if amount == 0 {
        Some(ErrorCode::InvalidAmount)
    } else {
        None
    }
}

/// Why a withdrawal is refused, if it is: for the reason that
/// `withdraw_request_refusal` gives, then because the escrow holds less
/// than the amount. Whether the pool is active plays no part.
pub open spec fn withdraw_refusal(ctx: WithdrawEscrow, amount: u64) -> Option<ErrorCode> {
    match withdraw_request_refusal(ctx, amount) {
        Some(e) => Some(e),
        None => if ctx.escrow_usdc.amount < amount {
            Some(ErrorCode::InsufficientEscrowBalance)
        } else {
            None
        },
    }
}

/// Makes the tests on a withdrawal that need no look at the escrow. The
/// escrow balance in `ctx` is not read, so this can be asked before the
/// balance is read afresh.
pub fn check_withdraw_request(ctx: &WithdrawEscrow, amount: u64) -> (result: Result<(), ErrorCode>)
    ensures
        match result {
            Ok(_) => withdraw_request_refusal(*ctx, amount) is None,
            Err(e) => withdraw_request_refusal(*ctx, amount) == Some(e),
        },
{
    if !ctx.merchant_pool.data.merchant.same(&ctx.merchant) {
        return Err(ErrorCode::Unauthorized);
    }
    if amount == 0 {
        return Err(ErrorCode::InvalidAmount);
    }
    Ok(())
}

/// Whether `transfer` moves `amount` out of the escrow named in `ctx` back
/// to the merchant, signed for by the pool's escrow authority.
pub open spec fn is_refund(ctx: WithdrawEscrow, amount: u64, transfer: TransferChecked) -> bool {
    &&& transfer.from == ctx.escrow_usdc.key
    &&& transfer.mint == ctx.usdc_mint.key
    &&& transfer.to == ctx.merchant_usdc.key
    &&& transfer.authority == ctx.escrow_authority
    &&& transfer.amount == amount
    &&& transfer.decimals == ctx.usdc_mint.decimals
    &&& seed_bytes(&transfer.signer_seeds) == escrow_signer_seeds_of(
        ctx.merchant_pool.key@,
        ctx.merchant_pool.data.escrow_bump,
    )
}

/// Asks for `amount` to be moved out of the escrow back to the merchant,
/// whether or not the pool is still active. No record changes.
///
/// Refused for the reason that `withdraw_refusal` gives.
pub fn withdraw_escrow(ctx: &WithdrawEscrow, amount: u64) -> (result: Result<EscrowWithdrawal, ErrorCode>)
    ensures
        match result {
            Ok(withdrawal) => {
                &&& withdraw_refusal(*ctx, amount) is None
                &&& is_refund(*ctx, amount, withdrawal.transfer)
                &&& withdrawal.escrow_remaining == ctx.escrow_usdc.amount - amount
                &&& withdrawal.event == (EscrowWithdrawn {
                    pool: ctx.merchant_pool.key,
                    pool_id: ctx.merchant_pool.data.pool_id,
                    amount,
                    timestamp: ctx.unix_timestamp,
                })
            },
            Err(e) => withdraw_refusal(*ctx, amount) == Some(e),
        },
{
    match check_withdraw_request(ctx, amount) {
        Ok(_) => {},
        Err(e) => {
            return Err(e);
        },
    }
    if ctx.escrow_usdc.amount < amount {
        return Err(ErrorCode::InsufficientEscrowBalance);
    }
    let transfer = TransferChecked {
        from: ctx.escrow_usdc.key,
        mint: ctx.usdc_mint.key,
        to: ctx.merchant_usdc.key,
        authority: ctx.escrow_authority,
        amount,
        decimals: ctx.usdc_mint.decimals,
        signer_seeds: escrow_signer_seeds(&ctx.merchant_pool.key, ctx.merchant_pool.data.escrow_bump),
    };
    let event = EscrowWithdrawn {
        pool: ctx.merchant_pool.key,
        pool_id: ctx.merchant_pool.data.pool_id.clone(),
        amount,
        timestamp: ctx.unix_timestamp,
    };
    Ok(EscrowWithdrawal { transfer, escrow_remaining: ctx.escrow_usdc.amount - amount, event })
}

} // verus!
