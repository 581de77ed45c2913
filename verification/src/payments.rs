//! The monthly cycle: payments in, redemptions out.
//!
//! Each accepted payment opens one month's record, whose redemption capacity
//! starts at the amount paid. Redemptions are served first come, first served
//! against the capacity of the month they name: a request that exceeds what is
//! left of it is turned down whole, never filled in part or carried over.

use crate::accounts::{ReceiveMonthlyPayment, RedeemTokens};
use crate::arith::{checked_add, checked_sub};
use crate::error::MeteraError;
use crate::events::{MonthlyPaymentReceived, TokensRedeemed};
use crate::ledger::{Outcome, TokenInstruction};
use crate::state::{MonthlyPaymentRecord, RedemptionRecord, Vault};
use vstd::prelude::*;

verus! {

/// The vault after a payment of `amount`, or the reason for which the payment
/// is rejected. Only the exact monthly payment is taken, and only while the
/// schedule has months left.
pub open spec fn payment(vault: Vault, amount: u64) -> Result<Vault, MeteraError> {
    if !vault.is_active {
        Err(MeteraError::VaultInactive)
    } else if vault.current_month >= vault.total_months {
        Err(MeteraError::VaultMatured)
    } else if amount != vault.monthly_payment {
        Err(MeteraError::InvalidPaymentAmount)
    } else {
        Ok(Vault { current_month: (vault.current_month + 1) as u32, ..vault })
    }
}

/// The vault and the month's record after `token_amount` tokens are redeemed
/// at par by a holder of `balance` tokens, or the reason for which the
/// redemption is rejected.
pub open spec fn redemption(
    vault: Vault,
    cycle: MonthlyPaymentRecord,
    balance: u64,
    token_amount: u64,
) -> Result<(Vault, MonthlyPaymentRecord), MeteraError> {
    if !vault.is_active {
        Err(MeteraError::VaultInactive)
    } else if cycle.available_for_redemption < token_amount {
        Err(MeteraError::InsufficientRedemptionCapacity)
    } else if balance < token_amount {
        Err(MeteraError::InsufficientTokenBalance)
    } else if vault.total_redeemed + token_amount > u64::MAX {
        Err(MeteraError::ArithmeticOverflow)
    } else {
        Ok(
            (
                Vault { total_redeemed: (vault.total_redeemed + token_amount) as u64, ..vault },
                MonthlyPaymentRecord {
                    available_for_redemption: (cycle.available_for_redemption
                        - token_amount) as u64,
                    ..cycle
                },
            ),
        )
    }
}

/// The burn of the redeemed tokens, then the payout at par from the treasury.
pub open spec fn redemption_instructions(ctx: RedeemTokens, token_amount: u64) -> Seq<
    TokenInstruction,
> {
    seq![
        TokenInstruction::Burn {
            mint: ctx.token_mint,
            from: ctx.user_token_account,
            authority: ctx.user,
            amount: token_amount,
        },
        TokenInstruction::Transfer {
            from: ctx.vault_treasury,
            to: ctx.user_payment_account,
            authority: ctx.vault_authority,
            amount: token_amount,
        },
    ]
}

/// A vault whose schedule has been paid in full takes no further payment,
/// whatever the amount.
pub proof fn law_matured_vault_takes_no_payment(vault: Vault, amount: u64)
    requires
        vault.current_month >= vault.total_months,
    ensures
        payment(vault, amount) is Err,
        vault.is_active ==> payment(vault, amount) == Err::<Vault, MeteraError>(
            MeteraError::VaultMatured,
        ),
{
}

/// An accepted payment moves the vault on by exactly one month and changes
/// nothing else.
pub proof fn law_payment_advances_one_month(vault: Vault, amount: u64)
    requires
        payment(vault, amount) is Ok,
    ensures
        payment(vault, amount)->Ok_0.current_month == vault.current_month + 1,
        payment(vault, amount)->Ok_0.total_redeemed == vault.total_redeemed,
        vault.same_terms(payment(vault, amount)->Ok_0),
{
}

/// Takes the payment for the vault's current month.
///
/// Rejected with `VaultInactive` when the vault is not active, else with
/// `VaultMatured` when every month of the schedule has been paid, else with
/// `InvalidPaymentAmount` when the amount is not exactly the monthly payment.
/// A rejected payment leaves the vault as it was.
///
/// When accepted, the month's record is opened with its whole amount
/// available for redemption, the vault moves on by one month, and the host is
/// asked to transfer the amount from the payer to the vault treasury.
pub fn receive_monthly_payment(
    ctx: &ReceiveMonthlyPayment,
    vault: &mut Vault,
    payment_amount: u64,
    now: i64,
) -> (r: Result<Outcome<MonthlyPaymentRecord, MonthlyPaymentReceived>, MeteraError>)
    ensures
        match (r, payment(*old(vault), payment_amount)) {
            (Ok(out), Ok(next)) => {
                &&& *final(vault) == next
                &&& out.record == (MonthlyPaymentRecord {
                    vault: ctx.vault,
                    month: old(vault).current_month,
                    amount: payment_amount,
                    received_at: now,
                    available_for_redemption: payment_amount,
                })
                &&& out.record.wf()
                &&& out.instructions@ == seq![
                    TokenInstruction::Transfer {
                        from: ctx.payer_account,
                        to: ctx.vault_treasury,
                        authority: ctx.payer,
                        amount: payment_amount,
                    },
                ]
                &&& out.event == (MonthlyPaymentReceived {
                    vault: ctx.vault,
                    month: old(vault).current_month,
                    amount: payment_amount,
                })
            },
            (Err(e), Err(expected)) => e == expected && *final(vault) == *old(vault),
            _ => false,
        },
        r is Ok <==> {
            &&& old(vault).is_active
            &&& old(vault).current_month < old(vault).total_months
            &&& payment_amount == old(vault).monthly_payment
        },
        old(vault).wf() ==> final(vault).wf(),
{
    if !vault.is_active {
        return Err(MeteraError::VaultInactive);
    }
    if vault.current_month >= vault.total_months {
        return Err(MeteraError::VaultMatured);
    }
    if payment_amount != vault.monthly_payment {
        return Err(MeteraError::InvalidPaymentAmount);
    }
    let month: u32 = vault.current_month;
    let next_month: u32 = match month.checked_add(1) {
        Some(v) => v,
        None => { return Err(MeteraError::ArithmeticOverflow); },
    };
    vault.current_month = next_month;

    let record = MonthlyPaymentRecord {
        vault: ctx.vault,
        month,
        amount: payment_amount,
        received_at: now,
        available_for_redemption: payment_amount,
    };
    let event = MonthlyPaymentReceived { vault: ctx.vault, month, amount: payment_amount };
    let mut instructions: Vec<TokenInstruction> = Vec::new();
    instructions.push(
        TokenInstruction::Transfer {
            from: ctx.payer_account,
            to: ctx.vault_treasury,
            authority: ctx.payer,
            amount: payment_amount,
        },
    );
    assert(instructions@ =~= seq![
        TokenInstruction::Transfer {
            from: ctx.payer_account,
            to: ctx.vault_treasury,
            authority: ctx.payer,
            amount: payment_amount,
        },
    ]);
    Ok(Outcome { record, instructions, event })
}

/// Redeems `token_amount` tokens at par against the capacity of the month
/// recorded in `cycle`.
///
/// Rejected with `VaultInactive` when the vault is not active, else with
/// `InsufficientRedemptionCapacity` when the amount exceeds what is left of
/// the month's capacity, else with `InsufficientTokenBalance` when the
/// redeemer holds fewer tokens than the amount, else with
/// `ArithmeticOverflow` when the vault's redeemed total would leave 64 bits.
/// A rejected redemption leaves vault and month as they were.
///
/// When accepted, the month's capacity shrinks and the vault's redeemed total
/// grows by the amount, and the host is asked first to burn the tokens, then
/// to transfer the same amount from the vault treasury to the redeemer.
pub fn redeem_tokens(
    ctx: &RedeemTokens,
    vault: &mut Vault,
    cycle: &mut MonthlyPaymentRecord,
    token_amount: u64,
    now: i64,
) -> (r: Result<Outcome<RedemptionRecord, TokensRedeemed>, MeteraError>)
    ensures
        match (r, redemption(*old(vault), *old(cycle), ctx.user_token_balance, token_amount)) {
            (Ok(out), Ok((next_vault, next_cycle))) => {
                &&& *final(vault) == next_vault
                &&& *final(cycle) == next_cycle
                &&& out.record == (RedemptionRecord {
                    vault: ctx.vault,
                    redeemer: ctx.user,
                    token_amount,
                    redemption_value: token_amount,
                    redeemed_at: now,
                    month: old(cycle).month,
                })
                &&& out.instructions@ == redemption_instructions(*ctx, token_amount)
                &&& out.event == (TokensRedeemed {
                    vault: ctx.vault,
                    redeemer: ctx.user,
                    token_amount,
                    redemption_value: token_amount,
                    month: old(cycle).month,
                })
            },
            (Err(e), Err(expected)) => {
                &&& e == expected
                &&& *final(vault) == *old(vault)
                &&& *final(cycle) == *old(cycle)
            },
            _ => false,
        },
        r is Ok <==> {
            &&& old(vault).is_active
            &&& token_amount <= old(cycle).available_for_redemption
            &&& token_amount <= ctx.user_token_balance
            &&& old(vault).total_redeemed + token_amount <= u64::MAX
        },
        old(vault).wf() ==> final(vault).wf(),
        old(cycle).wf() ==> final(cycle).wf(),
{
    if !vault.is_active {
        return Err(MeteraError::VaultInactive);
    }
    if cycle.available_for_redemption < token_amount {
        return Err(MeteraError::InsufficientRedemptionCapacity);
    }
    if ctx.user_token_balance < token_amount {
        return Err(MeteraError::InsufficientTokenBalance);
    }
    let available: u64 = checked_sub(cycle.available_for_redemption, token_amount)?;
    let total_redeemed: u64 = checked_add(vault.total_redeemed, token_amount)?;
    cycle.available_for_redemption = available;
    vault.total_redeemed = total_redeemed;

    let record = RedemptionRecord {
        vault: ctx.vault,
        redeemer: ctx.user,
        token_amount,
        redemption_value: token_amount,
        redeemed_at: now,
        month: cycle.month,
    };
    let event = TokensRedeemed {
        vault: ctx.vault,
        redeemer: ctx.user,
        token_amount,
        redemption_value: token_amount,
        month: cycle.month,
    };
    let mut instructions: Vec<TokenInstruction> = Vec::new();
    instructions.push(
        TokenInstruction::Burn {
            mint: ctx.token_mint,
            from: ctx.user_token_account,
            authority: ctx.user,
            amount: token_amount,
        },
    );
    instructions.push(
        TokenInstruction::Transfer {
            from: ctx.vault_treasury,
            to: ctx.user_payment_account,
            authority: ctx.vault_authority,
            amount: token_amount,
        },
    );
    assert(instructions@ =~= redemption_instructions(*ctx, token_amount));
    Ok(Outcome { record, instructions, event })
}

} // verus!
