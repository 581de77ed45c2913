//! The notifications published after each accepted transition.

use anchor_lang::prelude::Pubkey;
use vstd::prelude::*;

verus! {

/// A vault was created with these terms.
#[derive(Clone, Copy, Debug, PartialEq, Eq)]
pub struct VaultCreated {
    pub vault: Pubkey,
    pub principal: u64,
    pub total_expected_interest: u64,
    pub total_tokens_minted: u64,
    pub monthly_payment: u64,
    pub total_months: u32,
}

/// Claim-tokens of a vault were minted to a recipient.
#[derive(Clone, Copy, Debug, PartialEq, Eq)]
pub struct TokensMinted {
    pub vault: Pubkey,
    pub amount: u64,
    pub recipient: Pubkey,
}

/// Claim-tokens were bought on the primary market at this price.
#[derive(Clone, Copy, Debug, PartialEq, Eq)]
pub struct TokensPurchased {
    pub vault: Pubkey,
    pub buyer: Pubkey,
    pub token_amount: u64,
    pub purchase_price: u64,
    pub discount_percentage: u8,
}

/// The payment for one month of a vault's schedule came in.
#[derive(Clone, Copy, Debug, PartialEq, Eq)]
pub struct MonthlyPaymentReceived {
    pub vault: Pubkey,
    pub month: u32,
    pub amount: u64,
}

/// Tokens were redeemed at par against one month's capacity.
#[derive(Clone, Copy, Debug, PartialEq, Eq)]
pub struct TokensRedeemed {
    pub vault: Pubkey,
    pub redeemer: Pubkey,
    pub token_amount: u64,
    pub redemption_value: u64,
    pub month: u32,
}

/// A liquidity pool was opened for a pair of mints.
#[derive(Debug, PartialEq, Eq)]
pub struct LiquidityPoolCreated {
    pub pool: Pubkey,
    pub vault: Pubkey,
    pub token_a: Pubkey,
    pub token_b: Pubkey,
    pub pool_name: String,
}

impl Clone for LiquidityPoolCreated {
    fn clone(&self) -> (r: Self)
        ensures
            r == *self,
    {
        LiquidityPoolCreated {
            pool: self.pool,
            vault: self.vault,
            token_a: self.token_a,
            token_b: self.token_b,
            pool_name: self.pool_name.clone(),
        }
    }
}

/// A deposit entered a pool and shares were minted for it.
#[derive(Clone, Copy, Debug, PartialEq, Eq)]
pub struct LiquidityProvided {
    pub pool: Pubkey,
    pub lp: Pubkey,
    pub token_a_amount: u64,
    pub token_b_amount: u64,
    pub lp_shares: u64,
    pub forward_discount_percentage: u8,
}

/// Shares were taken out of a pool against both reserves.
#[derive(Clone, Copy, Debug, PartialEq, Eq)]
pub struct LiquidityWithdrawn {
    pub pool: Pubkey,
    pub lp: Pubkey,
    pub lp_shares: u64,
    pub token_a_amount: u64,
    pub token_b_amount: u64,
}

} // verus!
