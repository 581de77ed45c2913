//! Primary market: one-time discounted issuance against payment.

use crate::accounts::PurchaseTokensPrimary;
use crate::arith::{checked_sub, mul_then_div};
use crate::error::MeteraError;
use crate::events::TokensPurchased;
use crate::ledger::{Outcome, TokenInstruction};
use crate::state::{PrimarySale, Vault};
use vstd::prelude::*;

verus! {

/// What `token_amount` tokens cost at a discount of `discount_percentage`
/// percent off par: par less the discount, the discount rounded down.
pub open spec fn purchase_price(token_amount: u64, discount_percentage: u8) -> int {
    token_amount - (token_amount * discount_percentage) / 100
}

/// The price of a purchase, or the reason for which it is rejected.
pub open spec fn purchase(vault: Vault, token_amount: u64, discount_percentage: u8) -> Result<
    u64,
    MeteraError,
> {
    if discount_percentage > 100 {
        Err(MeteraError::InvalidDiscount)
    } else if !vault.is_active {
        Err(MeteraError::VaultInactive)
    } else {
        Ok(purchase_price(token_amount, discount_percentage) as u64)
    }
}

/// The payment into the treasury, then the issue of the tokens to the buyer.
pub open spec fn purchase_instructions(
    ctx: PurchaseTokensPrimary,
    token_amount: u64,
    price: u64,
) -> Seq<TokenInstruction> {
    seq![
        TokenInstruction::Transfer {
            from: ctx.buyer_payment_account,
            to: ctx.vault_treasury,
            authority: ctx.buyer,
            amount: price,
        },
        TokenInstruction::MintTo {
            mint: ctx.token_mint,
            to: ctx.buyer_token_account,
            authority: ctx.authority,
            amount: token_amount,
        },
    ]
}

/// With a discount of at most 100 percent the price lies between zero and
/// par, and the discount taken off between zero and par.
pub proof fn lemma_purchase_price_bounds(token_amount: u64, discount_percentage: u8)
    requires
        discount_percentage <= 100,
    ensures
        0 <= (token_amount * discount_percentage) / 100 <= token_amount,
        0 <= purchase_price(token_amount, discount_percentage) <= token_amount,
{
    let t = token_amount as int;
    let d = discount_percentage as int;
    assert(0 <= (t * d) / 100 <= t) by (nonlinear_arith)
        requires
            0 <= t,
            0 <= d <= 100,
    {
        assert(0 <= t * d <= t * 100);
    }
}

/// With no discount the buyer pays par; at a discount of 100 percent the
/// buyer pays nothing.
pub proof fn law_purchase_price_extremes(vault: Vault, token_amount: u64)
    requires
        vault.is_active,
    ensures
        purchase_price(token_amount, 0) == token_amount,
        purchase_price(token_amount, 100) == 0,
        purchase(vault, token_amount, 0) == Ok::<u64, MeteraError>(token_amount),
        purchase(vault, token_amount, 100) == Ok::<u64, MeteraError>(0),
{
    let t = token_amount as int;
    assert((t * 0) / 100 == 0 && (t * 100) / 100 == t) by (nonlinear_arith);
}

/// Sells `token_amount` new claim-tokens of the vault to the buyer named in
/// `ctx`, at `discount_percentage` percent off par.
///
/// Rejected with `InvalidDiscount` when the discount exceeds 100, else with
/// `VaultInactive` when the vault is not active. When accepted, the host is
/// asked first to transfer the price from the buyer to the vault treasury,
/// then to mint the tokens to the buyer; the sale is recorded with its price.
pub fn purchase_tokens_primary(
    ctx: &PurchaseTokensPrimary,
    vault: &Vault,
    token_amount: u64,
    discount_percentage: u8,
    now: i64,
) -> (r: Result<Outcome<PrimarySale, TokensPurchased>, MeteraError>)
    ensures
        match (r, purchase(*vault, token_amount, discount_percentage)) {
            (Ok(out), Ok(price)) => {
                &&& price == purchase_price(token_amount, discount_percentage)
                &&& out.record == (PrimarySale {
                    vault: ctx.vault,
                    buyer: ctx.buyer,
                    token_amount,
                    purchase_price: price,
                    discount_percentage,
                    purchased_at: now,
                })
                &&& out.instructions@ == purchase_instructions(*ctx, token_amount, price)
                &&& out.event == (TokensPurchased {
                    vault: ctx.vault,
                    buyer: ctx.buyer,
                    token_amount,
                    purchase_price: price,
                    discount_percentage,
                })
            },
            (Err(e), Err(expected)) => e == expected,
            _ => false,
        },
        r is Ok <==> discount_percentage <= 100 && vault.is_active,
{
    if discount_percentage > 100 {
        return Err(MeteraError::InvalidDiscount);
    }
    if !vault.is_active {
        return Err(MeteraError::VaultInactive);
    }
    proof {
        lemma_purchase_price_bounds(token_amount, discount_percentage);
    }
    let discount_amount: u64 = mul_then_div(token_amount, discount_percentage as u64, 100)?;
    let price: u64 = checked_sub(token_amount, discount_amount)?;

    let record = PrimarySale {
        vault: ctx.vault,
        buyer: ctx.buyer,
        token_amount,
        purchase_price: price,
        discount_percentage,
        purchased_at: now,
    };
    let event = TokensPurchased {
        vault: ctx.vault,
        buyer: ctx.buyer,
        token_amount,
        purchase_price: price,
        discount_percentage,
    };
    let mut instructions: Vec<TokenInstruction> = Vec::new();
    instructions.push(
        TokenInstruction::Transfer {
            from: ctx.buyer_payment_account,
            to: ctx.vault_treasury,
            authority: ctx.buyer,
            amount: price,
        },
    );
    instructions.push(
        TokenInstruction::MintTo {
            mint: ctx.token_mint,
            to: ctx.buyer_token_account,
            authority: ctx.authority,
            amount: token_amount,
        },
    );
    assert(instructions@ =~= purchase_instructions(*ctx, token_amount, price));
    Ok(Outcome { record, instructions, event })
}

} // verus!
