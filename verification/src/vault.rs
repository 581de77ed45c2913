//! Vault lifecycle: creation and minting.

use crate::accounts::{CreateVault, MintTokens};
use crate::arith::{checked_add, narrow};
use crate::error::MeteraError;
use crate::events::{TokensMinted, VaultCreated};
use crate::ledger::{Outcome, TokenInstruction};
use crate::state::Vault;
use vstd::prelude::*;

verus! {

/// The token supply of a vault with these terms: principal plus expected
/// interest, rejected when the sum leaves 64 bits.
pub open spec fn token_supply(principal: u64, total_expected_interest: u64) -> Result<
    u64,
    MeteraError,
> {
    narrow(principal + total_expected_interest)
}

/// Why minting `amount` tokens of `vault` is rejected, if it is. Each call is
/// held against the vault's whole supply; what earlier calls minted is not
/// counted.
pub open spec fn minting_rejection(vault: Vault, amount: u64) -> Option<MeteraError> {
    if !vault.is_active {
        Some(MeteraError::VaultInactive)
    } else if amount > vault.total_tokens_minted {
        Some(MeteraError::ExceedsTokenSupply)
    } else {
        None
    }
}

/// Creates a vault with the given terms for the accounts named in `ctx`.
///
/// Rejected with `ArithmeticOverflow` when principal plus expected interest
/// leaves 64 bits. Otherwise the vault is active, in month zero, with nothing
/// redeemed, and its token supply is principal plus expected interest.
pub fn create_vault(
    ctx: &CreateVault,
    principal: u64,
    total_expected_interest: u64,
    monthly_payment: u64,
    total_months: u32,
    vault_name: String,
    now: i64,
) -> (r: Result<Outcome<Vault, VaultCreated>, MeteraError>)
    ensures
        match (r, token_supply(principal, total_expected_interest)) {
            (Ok(out), Ok(total_tokens_minted)) => {
                &&& out.record == (Vault {
                    authority: ctx.authority,
                    token_mint: ctx.token_mint,
                    vault_treasury: ctx.vault_treasury,
                    principal,
                    total_expected_interest,
                    total_tokens_minted,
                    monthly_payment,
                    total_months,
                    current_month: 0,
                    vault_name,
                    created_at: now,
                    total_redeemed: 0,
                    is_active: true,
                })
                &&& out.record.total_tokens_minted == principal + total_expected_interest
                &&& out.record.wf()
                &&& out.instructions@ == Seq::<TokenInstruction>::empty()
                &&& out.event == (VaultCreated {
                    vault: ctx.vault,
                    principal,
                    total_expected_interest,
                    total_tokens_minted,
                    monthly_payment,
                    total_months,
                })
            },
            (Err(e), Err(expected)) => e == expected,
            _ => false,
        },
        r is Ok <==> principal + total_expected_interest <= u64::MAX,
{
    let total_tokens_minted: u64 = checked_add(principal, total_expected_interest)?;
    let record = Vault {
        authority: ctx.authority,
        token_mint: ctx.token_mint,
        vault_treasury: ctx.vault_treasury,
        principal,
        total_expected_interest,
        total_tokens_minted,
        monthly_payment,
        total_months,
        current_month: 0,
        vault_name,
        created_at: now,
        total_redeemed: 0,
        is_active: true,
    };
    let event = VaultCreated {
        vault: ctx.vault,
        principal,
        total_expected_interest,
        total_tokens_minted,
        monthly_payment,
        total_months,
    };
    Ok(Outcome { record, instructions: Vec::new(), event })
}

/// Asks for `amount` claim-tokens of the vault to be minted to the
/// destination named in `ctx`.
///
/// Rejected with `VaultInactive` when the vault is not active, else with
/// `ExceedsTokenSupply` when `amount` exceeds the vault's token supply.
pub fn mint_tokens(ctx: &MintTokens, vault: &Vault, amount: u64) -> (r: Result<
    Outcome<(), TokensMinted>,
    MeteraError,
>)
    ensures
        match (r, minting_rejection(*vault, amount)) {
            (Ok(out), None) => {
                &&& out.instructions@ == seq![
                    TokenInstruction::MintTo {
                        mint: ctx.token_mint,
                        to: ctx.destination,
                        authority: ctx.authority,
                        amount,
                    },
                ]
                &&& out.event == (TokensMinted {
                    vault: ctx.vault,
                    amount,
                    recipient: ctx.destination,
                })
            },
            (Err(e), Some(expected)) => e == expected,
            _ => false,
        },
        r is Ok <==> vault.is_active && amount <= vault.total_tokens_minted,
{
    if !vault.is_active {
        return Err(MeteraError::VaultInactive);
    }
    if amount > vault.total_tokens_minted {
        return Err(MeteraError::ExceedsTokenSupply);
    }
    let event = TokensMinted { vault: ctx.vault, amount, recipient: ctx.destination };
    let mut instructions: Vec<TokenInstruction> = Vec::new();
    instructions.push(
        TokenInstruction::MintTo {
            mint: ctx.token_mint,
            to: ctx.destination,
            authority: ctx.authority,
            amount,
        },
    );
    assert(instructions@ =~= seq![
        TokenInstruction::MintTo {
            mint: ctx.token_mint,
            to: ctx.destination,
            authority: ctx.authority,
            amount,
        },
    ]);
    Ok(Outcome { record: (), instructions, event })
}

} // verus!
