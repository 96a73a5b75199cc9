//! What each operation is handed: the records it names, the identities of
//! the caller and of the balances involved, and the time.

use vstd::prelude::*;
use crate::pubkey::Pubkey;
use crate::state::{Account, AffiliateAccount, MerchantPool, Mint, TokenAccount};

verus! {

/// A transfer asked of the outside ledger. The seeds are empty where the
/// authority signs for itself, and name the escrow authority where the
/// engine moves funds out of escrow.
#[derive(Clone, Debug, PartialEq, Eq)]
pub struct TransferChecked {
    pub from: Pubkey,
    pub mint: Pubkey,
    pub to: Pubkey,
    pub authority: Pubkey,
    pub amount: u64,
    pub decimals: u8,
    pub signer_seeds: Vec<Vec<u8>>,
}

/// Setting up a pool. `merchant_pool` holds the blank record to fill.
#[derive(Clone, Debug, PartialEq, Eq)]
pub struct InitializePool {
    pub merchant_pool: Account<MerchantPool>,
    pub escrow_authority: Pubkey,
    pub merchant: Pubkey,
    pub merchant_usdc: TokenAccount,
    pub escrow_usdc: TokenAccount,
    pub usdc_mint: Mint,
    pub merchant_pool_bump: u8,
    pub escrow_authority_bump: u8,
    pub unix_timestamp: i64,
}

/// Replacing a pool's commission rate.
#[derive(Clone, Debug, PartialEq, Eq)]
pub struct UpdatePoolCommission {
    pub merchant_pool: Account<MerchantPool>,
    pub merchant: Pubkey,
    pub unix_timestamp: i64,
}

/// Deactivating a pool.
#[derive(Clone, Debug, PartialEq, Eq)]
pub struct DeactivatePool {
    pub merchant_pool: Account<MerchantPool>,
    pub merchant: Pubkey,
    pub unix_timestamp: i64,
}

/// Adding an affiliate. `affiliate_account` holds the blank record to fill.
#[derive(Clone, Debug, PartialEq, Eq)]
pub struct AddAffiliate {
    pub merchant_pool: Account<MerchantPool>,
    pub affiliate_account: Account<AffiliateAccount>,
    pub affiliate_wallet: Pubkey,
    pub merchant: Pubkey,
    pub affiliate_account_bump: u8,
    pub unix_timestamp: i64,
}

/// Recording a sale. `escrow_usdc` holds the escrow balance as read just
/// before the call.
#[derive(Clone, Debug, PartialEq, Eq)]
pub struct ProcessSale {
    pub merchant_pool: Account<MerchantPool>,
    pub affiliate_account: Account<AffiliateAccount>,
    pub affiliate_wallet: Pubkey,
    pub escrow_authority: Pubkey,
    pub escrow_usdc: TokenAccount,
    pub affiliate_usdc: TokenAccount,
    pub usdc_mint: Mint,
    pub authority: Pubkey,
    pub unix_timestamp: i64,
}

/// Removing an affiliate.
#[derive(Clone, Debug, PartialEq, Eq)]
pub struct RemoveAffiliate {
    pub merchant_pool: Account<MerchantPool>,
    pub affiliate_account: Account<AffiliateAccount>,
    pub affiliate_wallet: Pubkey,
    pub merchant: Pubkey,
    pub unix_timestamp: i64,
}

/// Adding funds to the escrow.
#[derive(Clone, Debug, PartialEq, Eq)]
pub struct DepositEscrow {
    pub merchant_pool: Account<MerchantPool>,
    pub merchant: Pubkey,
    pub merchant_usdc: TokenAccount,
    pub escrow_authority: Pubkey,
    pub escrow_usdc: TokenAccount,
    pub usdc_mint: Mint,
    pub unix_timestamp: i64,
}

/// Taking funds back from the escrow. `escrow_usdc` holds the escrow balance
/// as read just before the call.
#[derive(Clone, Debug, PartialEq, Eq)]
pub struct WithdrawEscrow {
    pub merchant_pool: Account<MerchantPool>,
    pub merchant: Pubkey,
    pub merchant_usdc: TokenAccount,
    pub escrow_authority: Pubkey,
    pub escrow_usdc: TokenAccount,
    pub usdc_mint: Mint,
    pub unix_timestamp: i64,
}

} // verus!
