//! The parties to each transition.
//!
//! A transition is told which accounts it concerns by their addresses. Who the
//! caller is and whether they may act for these accounts is settled by the
//! host before the transition runs.

use anchor_lang::prelude::Pubkey;
use vstd::prelude::*;

verus! {

/// The accounts named when a vault is created.
#[derive(Clone, Copy, Debug, PartialEq, Eq)]
pub struct CreateVault {
    /// Where the new vault record is kept.
    pub vault: Pubkey,
    pub token_mint: Pubkey,
    pub vault_treasury: Pubkey,
    pub authority: Pubkey,
}

/// The accounts named when claim-tokens are minted.
#[derive(Clone, Copy, Debug, PartialEq, Eq)]
pub struct MintTokens {
    pub vault: Pubkey,
    pub token_mint: Pubkey,
    pub destination: Pubkey,
    pub authority: Pubkey,
}

/// The accounts named in a purchase on the primary market.
#[derive(Clone, Copy, Debug, PartialEq, Eq)]
pub struct PurchaseTokensPrimary {
    pub vault: Pubkey,
    pub token_mint: Pubkey,
    pub vault_treasury: Pubkey,
    pub buyer_payment_account: Pubkey,
    pub buyer_token_account: Pubkey,
    pub buyer: Pubkey,
    pub authority: Pubkey,
}

/// The accounts named when a monthly payment comes in.
#[derive(Clone, Copy, Debug, PartialEq, Eq)]
pub struct ReceiveMonthlyPayment {
    pub vault: Pubkey,
    pub vault_treasury: Pubkey,
    pub payer_account: Pubkey,
    pub payer: Pubkey,
}

/// The accounts named in a redemption, with the redeemer's token balance as
/// the token ledger reports it at the time of the call.
#[derive(Clone, Copy, Debug, PartialEq, Eq)]
pub struct RedeemTokens {
    pub vault: Pubkey,
    pub token_mint: Pubkey,
    pub vault_treasury: Pubkey,
    pub user_token_account: Pubkey,
    pub user_token_balance: u64,
    pub user_payment_account: Pubkey,
    pub user: Pubkey,
    pub vault_authority: Pubkey,
}

/// The accounts named when a liquidity pool is created.
#[derive(Clone, Copy, Debug, PartialEq, Eq)]
pub struct CreateLiquidityPool {
    /// Where the new pool record is kept.
    pub liquidity_pool: Pubkey,
    pub vault: Pubkey,
    pub token_a_mint: Pubkey,
    pub token_b_mint: Pubkey,
    pub authority: Pubkey,
}

/// The accounts named when liquidity is provided.
#[derive(Clone, Copy, Debug, PartialEq, Eq)]
pub struct ProvideLiquidity {
    pub liquidity_pool: Pubkey,
    pub lp_token_a_account: Pubkey,
    pub lp_token_b_account: Pubkey,
    pub pool_token_a_vault: Pubkey,
    pub pool_token_b_vault: Pubkey,
    pub lp: Pubkey,
}

/// The accounts named when liquidity is withdrawn.
#[derive(Clone, Copy, Debug, PartialEq, Eq)]
pub struct WithdrawLiquidity {
    pub liquidity_pool: Pubkey,
    pub lp_token_a_account: Pubkey,
    pub lp_token_b_account: Pubkey,
    pub pool_token_a_vault: Pubkey,
    pub pool_token_b_vault: Pubkey,
    pub lp: Pubkey,
    pub pool_authority: Pubkey,
}

} // verus!
