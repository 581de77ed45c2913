//! The records that the ledger keeps.
//!
//! Records refer to one another by address, never by embedded copy: a
//! redemption names its vault and month, a position names its pool.

use anchor_lang::prelude::Pubkey;
use vstd::prelude::*;

verus! {

/// One receivable financing instrument.
///
/// The economic terms are fixed at creation. Afterwards only `current_month`
/// (one step per accepted payment) and `total_redeemed` (by each accepted
/// redemption) move.
#[derive(Debug, PartialEq, Eq)]
pub struct Vault {
    pub authority: Pubkey,
    pub token_mint: Pubkey,
    pub vault_treasury: Pubkey,
    pub principal: u64,
    pub total_expected_interest: u64,
    pub total_tokens_minted: u64,
    pub monthly_payment: u64,
    pub total_months: u32,
    pub current_month: u32,
    pub vault_name: String,
    pub created_at: i64,
    pub total_redeemed: u64,
    pub is_active: bool,
}

impl Clone for Vault {
    fn clone(&self) -> (r: Self)
        ensures
            r == *self,
    {
        Vault {
            authority: self.authority,
            token_mint: self.token_mint,
            vault_treasury: self.vault_treasury,
            principal: self.principal,
            total_expected_interest: self.total_expected_interest,
            total_tokens_minted: self.total_tokens_minted,
            monthly_payment: self.monthly_payment,
            total_months: self.total_months,
            current_month: self.current_month,
            vault_name: self.vault_name.clone(),
            created_at: self.created_at,
            total_redeemed: self.total_redeemed,
            is_active: self.is_active,
        }
    }
}

impl Vault {
    /// The token supply is principal plus expected interest, and the month
    /// counter has not run past the schedule.
    pub open spec fn wf(self) -> bool {
        &&& self.total_tokens_minted == self.principal + self.total_expected_interest
        &&& self.current_month <= self.total_months
    }

    /// `other` has the identity and the economic terms of `self`: everything
    /// but the month counter and the redeemed total.
    pub open spec fn same_terms(self, other: Vault) -> bool {
        &&& other.authority == self.authority
        &&& other.token_mint == self.token_mint
        &&& other.vault_treasury == self.vault_treasury
        &&& other.principal == self.principal
        &&& other.total_expected_interest == self.total_expected_interest
        &&& other.total_tokens_minted == self.total_tokens_minted
        &&& other.monthly_payment == self.monthly_payment
        &&& other.total_months == self.total_months
        &&& other.vault_name == self.vault_name
        &&& other.created_at == self.created_at
        &&& other.is_active == self.is_active
    }
}

/// One discounted purchase on the primary market.
#[derive(Clone, Copy, Debug, PartialEq, Eq)]
pub struct PrimarySale {
    pub vault: Pubkey,
    pub buyer: Pubkey,
    pub token_amount: u64,
    pub purchase_price: u64,
    pub discount_percentage: u8,
    pub purchased_at: i64,
}

/// The payment received for one month, and what is left of the redemption
/// capacity that it unlocked.
#[derive(Clone, Copy, Debug, PartialEq, Eq)]
pub struct MonthlyPaymentRecord {
    pub vault: Pubkey,
    pub month: u32,
    pub amount: u64,
    pub received_at: i64,
    pub available_for_redemption: u64,
}

impl MonthlyPaymentRecord {
    /// The remaining capacity never exceeds the payment that unlocked it.
    pub open spec fn wf(self) -> bool {
        self.available_for_redemption <= self.amount
    }
}

/// One redemption of tokens at par.
#[derive(Clone, Copy, Debug, PartialEq, Eq)]
pub struct RedemptionRecord {
    pub vault: Pubkey,
    pub redeemer: Pubkey,
    pub token_amount: u64,
    pub redemption_value: u64,
    pub redeemed_at: i64,
    pub month: u32,
}

/// A two-asset reserve pair with its share supply and provisioning window.
#[derive(Debug, PartialEq, Eq)]
pub struct LiquidityPool {
    pub vault: Pubkey,
    pub token_a_mint: Pubkey,
    pub token_b_mint: Pubkey,
    pub pool_authority: Pubkey,
    pub pool_name: String,
    pub created_at: i64,
    pub token_a_reserve: u64,
    pub token_b_reserve: u64,
    pub total_lp_shares: u64,
    pub window_start: i64,
    pub window_number: u64,
    pub is_active: bool,
}

impl Clone for LiquidityPool {
    fn clone(&self) -> (r: Self)
        ensures
            r == *self,
    {
        LiquidityPool {
            vault: self.vault,
            token_a_mint: self.token_a_mint,
            token_b_mint: self.token_b_mint,
            pool_authority: self.pool_authority,
            pool_name: self.pool_name.clone(),
            created_at: self.created_at,
            token_a_reserve: self.token_a_reserve,
            token_b_reserve: self.token_b_reserve,
            total_lp_shares: self.total_lp_shares,
            window_start: self.window_start,
            window_number: self.window_number,
            is_active: self.is_active,
        }
    }
}

impl LiquidityPool {
    /// Outstanding shares are always backed on both sides.
    pub open spec fn wf(self) -> bool {
        self.total_lp_shares > 0 ==> self.token_a_reserve > 0 && self.token_b_reserve > 0
    }

    /// Neither reserves nor shares are outstanding.
    pub open spec fn is_empty(self) -> bool {
        self.total_lp_shares == 0 && self.token_a_reserve == 0 && self.token_b_reserve == 0
    }

    /// `other` has the identity of `self`: everything but reserves, share
    /// supply and window.
    pub open spec fn same_identity(self, other: LiquidityPool) -> bool {
        &&& other.vault == self.vault
        &&& other.token_a_mint == self.token_a_mint
        &&& other.token_b_mint == self.token_b_mint
        &&& other.pool_authority == self.pool_authority
        &&& other.pool_name == self.pool_name
        &&& other.created_at == self.created_at
        &&& other.is_active == self.is_active
    }
}

/// One provider's stake in a pool, as opened by one provision of liquidity.
#[derive(Clone, Copy, Debug, PartialEq, Eq)]
pub struct LPPosition {
    pub pool: Pubkey,
    pub lp: Pubkey,
    pub token_a_amount: u64,
    pub token_b_amount: u64,
    pub lp_shares: u64,
    pub forward_discount_percentage: u8,
    pub window_number: u64,
    pub provided_at: i64,
}

} // verus!
