use redio_contract::accounts::ProcessSale;
use redio_contract::commission::commission;
use redio_contract::errors::ErrorCode;
use redio_contract::ledger::{process_sale, sale_commission};
use redio_contract::pubkey::Pubkey;
use redio_contract::state::{Account, AffiliateAccount, MerchantPool, Mint, TokenAccount};

fn key(n: u8) -> Pubkey {
    Pubkey::new_from_array([n; 32])
}

fn sale_ctx(rate: u16, escrow: u64) -> ProcessSale {
    ProcessSale {
        merchant_pool: Account {
            key: key(10),
            data: MerchantPool {
                merchant: key(1),
                pool_id: String::from("summer"),
                usdc_mint: key(2),
                commission_rate: rate,
                total_volume: 0,
                total_commissions_paid: 0,
                is_active: true,
                bump: 254,
                escrow_bump: 253,
                created_at: 1_700_000_000,
            },
        },
        affiliate_account: Account {
            key: key(20),
            data: AffiliateAccount {
                pool: key(10),
                wallet: key(21),
                ref_id: String::from("alice"),
                total_earned: 0,
                sales_count: 0,
                is_active: true,
                bump: 252,
                created_at: 1_700_000_100,
            },
        },
        affiliate_wallet: key(21),
        escrow_authority: key(11),
        escrow_usdc: TokenAccount { key: key(12), amount: escrow },
        affiliate_usdc: TokenAccount { key: key(22), amount: 0 },
        usdc_mint: Mint { key: key(2), decimals: 6 },
        authority: key(30),
        unix_timestamp: 1_700_000_200,
    }
}

#[test]
fn commission_is_floor_of_product_over_ten_thousand() {
    assert_eq!(commission(40_000, 250), Ok(1000));
    assert_eq!(commission(10_000, 1), Ok(1));
    assert_eq!(commission(19_999, 1), Ok(1));
    assert_eq!(commission(20_000, 1), Ok(2));
    assert_eq!(commission(12_345, 10_000), Ok(12_345));
    assert_eq!(commission(999, 333), Ok(33));
    assert_eq!(commission(1, 10_000), Ok(1));
}

#[test]
fn commission_below_granularity_is_too_small() {
    assert_eq!(commission(50, 1), Err(ErrorCode::CommissionTooSmall));
    assert_eq!(commission(9_999, 1), Err(ErrorCode::CommissionTooSmall));
    assert_eq!(commission(0, 250), Err(ErrorCode::CommissionTooSmall));
    assert_eq!(commission(1_000_000, 0), Err(ErrorCode::CommissionTooSmall));
}

#[test]
fn commission_overflow_boundary_at_full_rate() {
    let bound = u64::MAX / 10_000;
    assert_eq!(commission(bound, 10_000), Ok(bound));
    assert_eq!(commission(bound + 1, 10_000), Err(ErrorCode::ArithmeticOverflow));
    assert_eq!(commission(u64::MAX, 2), Err(ErrorCode::ArithmeticOverflow));
    assert_eq!(commission(u64::MAX, 1), Ok(u64::MAX / 10_000));
    assert_eq!(commission(bound + 1, 1), Ok((bound + 1) / 10_000));
}

#[test]
fn sale_at_two_and_a_half_percent_pays_one_thousand() {
    let mut ctx = sale_ctx(250, 1_000_000);
    let settled = process_sale(&mut ctx, 40_000).unwrap();
    assert_eq!(settled.event.commission, 1000);
    assert_eq!(settled.transfer.amount, 1000);
    assert_eq!(settled.escrow_remaining, 999_000);
    let mut escrow = ctx.escrow_usdc.amount;
    escrow -= settled.transfer.amount;
    assert_eq!(escrow, 999_000);
    assert_eq!(ctx.affiliate_account.data.total_earned, 1000);
    assert_eq!(ctx.affiliate_account.data.sales_count, 1);
    assert_eq!(ctx.merchant_pool.data.total_volume, 40_000);
    assert_eq!(ctx.merchant_pool.data.total_commissions_paid, 1000);
}

#[test]
fn sale_asks_for_payout_from_escrow_to_affiliate() {
    let mut ctx = sale_ctx(250, 1_000_000);
    let settled = process_sale(&mut ctx, 40_000).unwrap();
    assert_eq!(settled.transfer.from, key(12));
    assert_eq!(settled.transfer.to, key(22));
    assert_eq!(settled.transfer.mint, key(2));
    assert_eq!(settled.transfer.authority, key(11));
    assert_eq!(settled.transfer.decimals, 6);
    assert_eq!(
        settled.transfer.signer_seeds,
        vec![b"escrow_authority".to_vec(), vec![10u8; 32], vec![253u8]]
    );
    assert_eq!(settled.event.pool, key(10));
    assert_eq!(settled.event.pool_id, "summer");
    assert_eq!(settled.event.affiliate, key(20));
    assert_eq!(settled.event.affiliate_wallet, key(21));
    assert_eq!(settled.event.sale_amount, 40_000);
    assert_eq!(settled.event.timestamp, 1_700_000_200);
}

#[test]
fn sale_leaves_everything_but_the_counters() {
    let mut ctx = sale_ctx(250, 1_000_000);
    let before = ctx.clone();
    process_sale(&mut ctx, 40_000).unwrap();
    let mut expected = before;
    expected.merchant_pool.data.total_volume = 40_000;
    expected.merchant_pool.data.total_commissions_paid = 1000;
    expected.affiliate_account.data.total_earned = 1000;
    expected.affiliate_account.data.sales_count = 1;
    assert_eq!(ctx, expected);
}

#[test]
fn dust_sale_is_rejected_without_change() {
    let mut ctx = sale_ctx(1, 1_000_000);
    let before = ctx.clone();
    assert_eq!(process_sale(&mut ctx, 50), Err(ErrorCode::CommissionTooSmall));
    assert_eq!(ctx, before);
}

#[test]
fn zero_sale_is_invalid_amount() {
    let mut ctx = sale_ctx(250, 1_000_000);
    let before = ctx.clone();
    assert_eq!(process_sale(&mut ctx, 0), Err(ErrorCode::InvalidAmount));
    assert_eq!(ctx, before);
}

#[test]
fn inactive_pool_refuses_sale_and_keeps_counters() {
    let mut ctx = sale_ctx(250, 1_000_000);
    ctx.merchant_pool.data.is_active = false;
    ctx.merchant_pool.data.total_volume = 7;
    ctx.affiliate_account.data.total_earned = 3;
    let before = ctx.clone();
    assert_eq!(process_sale(&mut ctx, 40_000), Err(ErrorCode::PoolInactive));
    assert_eq!(ctx, before);
}

#[test]
fn inactive_affiliate_refuses_sale() {
    let mut ctx = sale_ctx(250, 1_000_000);
    ctx.affiliate_account.data.is_active = false;
    let before = ctx.clone();
    assert_eq!(process_sale(&mut ctx, 40_000), Err(ErrorCode::AffiliateInactive));
    assert_eq!(ctx, before);
}

#[test]
fn affiliate_of_another_pool_is_invalid_whatever_else() {
    let mut ctx = sale_ctx(250, 1_000_000);
    ctx.affiliate_account.data.pool = key(99);
    let before = ctx.clone();
    assert_eq!(process_sale(&mut ctx, 40_000), Err(ErrorCode::InvalidAffiliate));
    assert_eq!(process_sale(&mut ctx, 0), Err(ErrorCode::InvalidAffiliate));
    ctx.merchant_pool.data.is_active = false;
    ctx.affiliate_account.data.is_active = false;
    ctx.escrow_usdc.amount = 0;
    assert_eq!(process_sale(&mut ctx, 40_000), Err(ErrorCode::InvalidAffiliate));
    ctx.merchant_pool.data.is_active = true;
    ctx.affiliate_account.data.is_active = true;
    ctx.escrow_usdc.amount = 1_000_000;
    assert_eq!(ctx, before);
}

#[test]
fn affiliate_differing_in_last_byte_only_is_invalid() {
    let mut ctx = sale_ctx(250, 1_000_000);
    let mut bytes = [10u8; 32];
    bytes[31] = 11;
    ctx.affiliate_account.data.pool = Pubkey::new_from_array(bytes);
    assert_eq!(process_sale(&mut ctx, 40_000), Err(ErrorCode::InvalidAffiliate));
}

#[test]
fn escrow_must_cover_commission() {
    let mut ctx = sale_ctx(250, 999);
    let before = ctx.clone();
    assert_eq!(process_sale(&mut ctx, 40_000), Err(ErrorCode::InsufficientEscrowBalance));
    assert_eq!(ctx, before);

    let mut exact = sale_ctx(250, 1000);
    let settled = process_sale(&mut exact, 40_000).unwrap();
    assert_eq!(settled.escrow_remaining, 0);
    assert_eq!(settled.transfer.amount, 1000);
}

#[test]
fn product_overflow_is_reported() {
    let mut ctx = sale_ctx(10_000, u64::MAX);
    let before = ctx.clone();
    assert_eq!(process_sale(&mut ctx, u64::MAX / 10_000 + 1), Err(ErrorCode::ArithmeticOverflow));
    assert_eq!(ctx, before);
}

#[test]
fn counter_overflow_is_reported_without_change() {
    let mut ctx = sale_ctx(250, 1_000_000);
    ctx.merchant_pool.data.total_volume = u64::MAX - 39_999;
    let before = ctx.clone();
    assert_eq!(process_sale(&mut ctx, 40_000), Err(ErrorCode::ArithmeticOverflow));
    assert_eq!(ctx, before);

    let mut earned = sale_ctx(250, 1_000_000);
    earned.affiliate_account.data.total_earned = u64::MAX - 999;
    assert_eq!(process_sale(&mut earned, 40_000), Err(ErrorCode::ArithmeticOverflow));

    let mut count = sale_ctx(250, 1_000_000);
    count.affiliate_account.data.sales_count = u64::MAX;
    assert_eq!(process_sale(&mut count, 40_000), Err(ErrorCode::ArithmeticOverflow));

    let mut paid = sale_ctx(250, 1_000_000);
    paid.merchant_pool.data.total_commissions_paid = u64::MAX;
    assert_eq!(process_sale(&mut paid, 40_000), Err(ErrorCode::ArithmeticOverflow));

    let mut fits = sale_ctx(250, 1_000_000);
    fits.merchant_pool.data.total_volume = u64::MAX - 40_000;
    assert!(process_sale(&mut fits, 40_000).is_ok());
    assert_eq!(fits.merchant_pool.data.total_volume, u64::MAX);
}

#[test]
fn counters_add_up_over_several_sales() {
    let mut ctx = sale_ctx(250, 1_000_000);
    let amounts: [u64; 4] = [40_000, 400, 123_456, 40];
    let commissions: [u64; 4] = [1000, 10, 3086, 1];
    let mut escrow: u64 = 1_000_000;
    for i in 0..4 {
        ctx.escrow_usdc.amount = escrow;
        let settled = process_sale(&mut ctx, amounts[i]).unwrap();
        assert_eq!(settled.event.commission, commissions[i]);
        escrow = settled.escrow_remaining;
    }
    assert_eq!(ctx.affiliate_account.data.total_earned, 4097);
    assert_eq!(ctx.affiliate_account.data.sales_count, 4);
    assert_eq!(ctx.merchant_pool.data.total_commissions_paid, 4097);
    assert_eq!(ctx.merchant_pool.data.total_volume, 163_896);
    assert_eq!(escrow, 1_000_000 - 4097);
}

#[test]
fn rejected_sales_do_not_count() {
    let mut ctx = sale_ctx(250, 1_000_000);
    process_sale(&mut ctx, 40_000).unwrap();
    assert_eq!(process_sale(&mut ctx, 39), Err(ErrorCode::CommissionTooSmall));
    process_sale(&mut ctx, 80_000).unwrap();
    assert_eq!(ctx.affiliate_account.data.sales_count, 2);
    assert_eq!(ctx.affiliate_account.data.total_earned, 3000);
    assert_eq!(ctx.merchant_pool.data.total_volume, 120_000);
}

#[test]
fn sale_commission_is_tested_before_the_escrow() {
    for escrow in [0, 999, 1_000_000] {
        let ctx = sale_ctx(250, escrow);
        assert_eq!(sale_commission(&ctx, 40_000), Ok(1000));
        assert_eq!(sale_commission(&ctx, 0), Err(ErrorCode::InvalidAmount));
        assert_eq!(sale_commission(&ctx, 39), Err(ErrorCode::CommissionTooSmall));
        assert_eq!(sale_commission(&ctx, u64::MAX), Err(ErrorCode::ArithmeticOverflow));
    }
    let mut inactive = sale_ctx(250, 0);
    inactive.merchant_pool.data.is_active = false;
    assert_eq!(sale_commission(&inactive, 40_000), Err(ErrorCode::PoolInactive));
    assert_eq!(sale_commission(&inactive, 0), Err(ErrorCode::InvalidAmount));
    let mut removed = sale_ctx(250, 0);
    removed.affiliate_account.data.is_active = false;
    assert_eq!(sale_commission(&removed, 40_000), Err(ErrorCode::AffiliateInactive));
    let mut foreign = sale_ctx(250, 0);
    foreign.affiliate_account.data.pool = key(99);
    assert_eq!(sale_commission(&foreign, 0), Err(ErrorCode::InvalidAffiliate));
    let mut full = sale_ctx(250, 0);
    full.merchant_pool.data.total_volume = u64::MAX;
    assert_eq!(sale_commission(&full, 40_000), Ok(1000));
    assert_eq!(process_sale(&mut full, 40_000), Err(ErrorCode::InsufficientEscrowBalance));
}
