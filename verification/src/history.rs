//! What holds over any sequence of transitions.
//!
//! A vault is changed by payments and by redemptions only; a month's record by
//! the redemptions that name it; a pool by provisions and withdrawals; a
//! position by the withdrawals from it. The laws below follow a record
//! through an arbitrary sequence of such attempts, accepted or rejected, and
//! state what is conserved.

use crate::payments::{payment, redemption};
use crate::pool::{
    law_provision_keeps_shares_backed, law_withdrawal_keeps_shares_backed, provision, withdrawal,
};
use crate::state::{LPPosition, LiquidityPool, MonthlyPaymentRecord, Vault};
use vstd::prelude::*;

verus! {

/// One attempt to change a vault.
pub enum VaultStep {
    /// A payment of `amount`.
    Payment { amount: u64 },
    /// A redemption of `token_amount` against `cycle` by a holder of
    /// `balance` tokens.
    Redemption { cycle: MonthlyPaymentRecord, balance: u64, token_amount: u64 },
}

/// The vault after one attempt: changed as the transition says when it is
/// accepted, untouched when it is rejected.
pub open spec fn vault_after(vault: Vault, step: VaultStep) -> Vault {
    match step {
        VaultStep::Payment { amount } => match payment(vault, amount) {
            Ok(next) => next,
            Err(_) => vault,
        },
        VaultStep::Redemption { cycle, balance, token_amount } => match redemption(
            vault,
            cycle,
            balance,
            token_amount,
        ) {
            Ok((next, _)) => next,
            Err(_) => vault,
        },
    }
}

/// The vault after a sequence of attempts, taken in order.
pub open spec fn vault_after_all(vault: Vault, steps: Seq<VaultStep>) -> Vault
    decreases steps.len(),
{
    if steps.len() == 0 {
        vault
    } else {
        vault_after(vault_after_all(vault, steps.drop_last()), steps.last())
    }
}

/// Whether `step` is a payment that `vault` accepts.
pub open spec fn is_accepted_payment(vault: Vault, step: VaultStep) -> bool {
    step matches VaultStep::Payment { amount } && payment(vault, amount) is Ok
}

/// What `step` redeems from `vault`: its token amount when it is an accepted
/// redemption, nothing otherwise.
pub open spec fn redeemed_by_step(vault: Vault, step: VaultStep) -> nat {
    match step {
        VaultStep::Redemption { cycle, balance, token_amount } => if redemption(
            vault,
            cycle,
            balance,
            token_amount,
        ) is Ok {
            token_amount as nat
        } else {
            0
        },
        _ => 0,
    }
}

/// How many payments of a sequence of attempts are accepted.
pub open spec fn payments_accepted(vault: Vault, steps: Seq<VaultStep>) -> nat
    decreases steps.len(),
{
    if steps.len() == 0 {
        0
    } else {
        let before = vault_after_all(vault, steps.drop_last());
        payments_accepted(vault, steps.drop_last()) + (if is_accepted_payment(
            before,
            steps.last(),
        ) {
            1nat
        } else {
            0nat
        })
    }
}

/// The sum of the token amounts of the accepted redemptions of a sequence of
/// attempts.
pub open spec fn tokens_redeemed(vault: Vault, steps: Seq<VaultStep>) -> nat
    decreases steps.len(),
{
    if steps.len() == 0 {
        0
    } else {
        let before = vault_after_all(vault, steps.drop_last());
        tokens_redeemed(vault, steps.drop_last()) + redeemed_by_step(before, steps.last())
    }
}

/// Whatever is attempted on a vault, in whatever order: its identity and
/// economic terms stay as they were, so its token supply stays principal plus
/// expected interest; its month counter has moved by exactly one per accepted
/// payment and never past the schedule; and its redeemed total has grown by
/// exactly what the accepted redemptions redeemed.
pub proof fn law_vault_history(vault: Vault, steps: Seq<VaultStep>)
    ensures
        vault.same_terms(vault_after_all(vault, steps)),
        vault_after_all(vault, steps).current_month == vault.current_month + payments_accepted(
            vault,
            steps,
        ),
        vault_after_all(vault, steps).total_redeemed == vault.total_redeemed + tokens_redeemed(
            vault,
            steps,
        ),
        vault.wf() ==> vault_after_all(vault, steps).wf(),
        vault.wf() ==> vault_after_all(vault, steps).total_tokens_minted == vault.principal
            + vault.total_expected_interest,
    decreases steps.len(),
{
    if steps.len() > 0 {
        law_vault_history(vault, steps.drop_last());
    }
}

/// A longer history never shows an earlier month or a smaller redeemed total
/// than a shorter one that it extends.
pub proof fn law_vault_counters_only_grow(vault: Vault, steps: Seq<VaultStep>, more: Seq<VaultStep>)
    ensures
        vault_after_all(vault, steps).current_month <= vault_after_all(
            vault,
            steps + more,
        ).current_month,
        vault_after_all(vault, steps).total_redeemed <= vault_after_all(
            vault,
            steps + more,
        ).total_redeemed,
    decreases more.len(),
{
    if more.len() == 0 {
        assert(steps + more =~= steps);
    } else {
        law_vault_counters_only_grow(vault, steps, more.drop_last());
        assert((steps + more).drop_last() =~= steps + more.drop_last());
        assert((steps + more).last() == more.last());
    }
}

/// The month whose record the attempt at position `i` of a history opens:
/// the vault's current month as that attempt finds it, when the attempt is a
/// payment that is accepted.
pub open spec fn month_opened(vault: Vault, steps: Seq<VaultStep>, i: int) -> Option<u32> {
    let before = vault_after_all(vault, steps.take(i));
    if is_accepted_payment(before, steps[i]) {
        Some(before.current_month)
    } else {
        None
    }
}

/// No month is opened twice: of two accepted payments in one history, the
/// later one opens a later month.
pub proof fn law_each_month_is_opened_once(vault: Vault, steps: Seq<VaultStep>, i: int, j: int)
    requires
        0 <= i < j < steps.len(),
        month_opened(vault, steps, i) is Some,
        month_opened(vault, steps, j) is Some,
    ensures
        month_opened(vault, steps, i)->0 < month_opened(vault, steps, j)->0,
{
    let upto = steps.take(i + 1);
    assert(upto.drop_last() =~= steps.take(i));
    assert(upto.last() == steps[i]);
    law_vault_counters_only_grow(vault, upto, steps.subrange(i + 1, j));
    assert(upto + steps.subrange(i + 1, j) =~= steps.take(j));
}

/// One attempt to redeem against a month's record: the vault as it stands
/// when the attempt is made, the redeemer's token balance, and the amount.
pub struct RedemptionRequest {
    pub vault: Vault,
    pub balance: u64,
    pub token_amount: u64,
}

/// The month's record after one attempt: with less capacity when the
/// redemption is accepted, untouched when it is rejected.
pub open spec fn cycle_after(
    cycle: MonthlyPaymentRecord,
    request: RedemptionRequest,
) -> MonthlyPaymentRecord {
    match redemption(request.vault, cycle, request.balance, request.token_amount) {
        Ok((_, next)) => next,
        Err(_) => cycle,
    }
}

/// The month's record after a sequence of attempts, taken in order.
pub open spec fn cycle_after_all(
    cycle: MonthlyPaymentRecord,
    requests: Seq<RedemptionRequest>,
) -> MonthlyPaymentRecord
    decreases requests.len(),
{
    if requests.len() == 0 {
        cycle
    } else {
        cycle_after(cycle_after_all(cycle, requests.drop_last()), requests.last())
    }
}

/// The sum of the token amounts of the accepted attempts of a sequence.
pub open spec fn redeemed_against(
    cycle: MonthlyPaymentRecord,
    requests: Seq<RedemptionRequest>,
) -> nat
    decreases requests.len(),
{
    if requests.len() == 0 {
        0
    } else {
        let before = cycle_after_all(cycle, requests.drop_last());
        let request = requests.last();
        redeemed_against(cycle, requests.drop_last()) + (if redemption(
            request.vault,
            before,
            request.balance,
            request.token_amount,
        ) is Ok {
            request.token_amount as nat
        } else {
            0nat
        })
    }
}

/// Redemption conserves capacity. Whatever is attempted against a month's
/// record, by whomever and in whatever state the vault is: the payment
/// received stays what it was, the capacity left stays between zero and that
/// payment, and what the accepted attempts redeemed is exactly the capacity
/// that has gone, so never more than the payment.
pub proof fn law_redemptions_conserve_capacity(
    cycle: MonthlyPaymentRecord,
    requests: Seq<RedemptionRequest>,
)
    requires
        cycle.wf(),
    ensures
        cycle_after_all(cycle, requests).amount == cycle.amount,
        cycle_after_all(cycle, requests).month == cycle.month,
        0 <= cycle_after_all(cycle, requests).available_for_redemption <= cycle.amount,
        redeemed_against(cycle, requests) + cycle_after_all(
            cycle,
            requests,
        ).available_for_redemption == cycle.available_for_redemption,
        redeemed_against(cycle, requests) <= cycle.amount,
    decreases requests.len(),
{
    if requests.len() > 0 {
        law_redemptions_conserve_capacity(cycle, requests.drop_last());
    }
}

/// One attempt to change a pool.
pub enum PoolStep {
    /// A provision of `(a, b)` at the time `now`.
    Provision { a: u64, b: u64, forward_discount_percentage: u8, now: i64 },
    /// A withdrawal of `lp_shares` from `position`.
    Withdrawal { position: LPPosition, lp_shares: u64 },
}

/// The pool after one attempt: changed as the transition says when it is
/// accepted, untouched when it is rejected.
pub open spec fn pool_after(pool: LiquidityPool, step: PoolStep) -> LiquidityPool {
    match step {
        PoolStep::Provision { a, b, forward_discount_percentage, now } => match provision(
            pool,
            a,
            b,
            forward_discount_percentage,
            now,
        ) {
            Ok((next, _)) => next,
            Err(_) => pool,
        },
        PoolStep::Withdrawal { position, lp_shares } => match withdrawal(
            pool,
            position,
            lp_shares,
        ) {
            Ok((next, _, _, _)) => next,
            Err(_) => pool,
        },
    }
}

/// The pool after a sequence of attempts, taken in order.
pub open spec fn pool_after_all(pool: LiquidityPool, steps: Seq<PoolStep>) -> LiquidityPool
    decreases steps.len(),
{
    if steps.len() == 0 {
        pool
    } else {
        pool_after(pool_after_all(pool, steps.drop_last()), steps.last())
    }
}

/// Whatever is attempted on a pool, in whatever order: its identity stays as
/// it was, its window number never goes back, and if its outstanding shares
/// were backed on both sides they still are.
pub proof fn law_pool_history(pool: LiquidityPool, steps: Seq<PoolStep>)
    ensures
        pool.same_identity(pool_after_all(pool, steps)),
        pool.window_number <= pool_after_all(pool, steps).window_number,
        pool.wf() ==> pool_after_all(pool, steps).wf(),
    decreases steps.len(),
{
    if steps.len() > 0 {
        law_pool_history(pool, steps.drop_last());
        let before = pool_after_all(pool, steps.drop_last());
        if before.wf() {
            match steps.last() {
                PoolStep::Provision { a, b, forward_discount_percentage, now } => {
                    if provision(before, a, b, forward_discount_percentage, now) is Ok {
                        law_provision_keeps_shares_backed(
                            before,
                            a,
                            b,
                            forward_discount_percentage,
                            now,
                        );
                    }
                },
                PoolStep::Withdrawal { position, lp_shares } => {
                    if withdrawal(before, position, lp_shares) is Ok {
                        law_withdrawal_keeps_shares_backed(before, position, lp_shares);
                    }
                },
            }
        }
    }
}

/// One attempt to withdraw from a position: the pool as it stands when the
/// attempt is made, and the shares asked for.
pub struct WithdrawalRequest {
    pub pool: LiquidityPool,
    pub lp_shares: u64,
}

/// The position after one attempt: with fewer shares when the withdrawal is
/// accepted, untouched when it is rejected.
pub open spec fn position_after(position: LPPosition, request: WithdrawalRequest) -> LPPosition {
    match withdrawal(request.pool, position, request.lp_shares) {
        Ok((_, held, _, _)) => held,
        Err(_) => position,
    }
}

/// The position after a sequence of attempts, taken in order.
pub open spec fn position_after_all(
    position: LPPosition,
    requests: Seq<WithdrawalRequest>,
) -> LPPosition
    decreases requests.len(),
{
    if requests.len() == 0 {
        position
    } else {
        position_after(position_after_all(position, requests.drop_last()), requests.last())
    }
}

/// The sum of the shares of the accepted attempts of a sequence.
pub open spec fn shares_withdrawn(position: LPPosition, requests: Seq<WithdrawalRequest>) -> nat
    decreases requests.len(),
{
    if requests.len() == 0 {
        0
    } else {
        let before = position_after_all(position, requests.drop_last());
        let request = requests.last();
        shares_withdrawn(position, requests.drop_last()) + (if withdrawal(
            request.pool,
            before,
            request.lp_shares,
        ) is Ok {
            request.lp_shares as nat
        } else {
            0nat
        })
    }
}

/// A position only shrinks. Whatever is withdrawn from it, from whatever
/// pool: what it recorded when it was opened stays as it was, and the shares
/// it holds are those it was opened with less what the accepted withdrawals
/// took, so never more than were minted to it.
pub proof fn law_position_only_shrinks(position: LPPosition, requests: Seq<WithdrawalRequest>)
    ensures
        position_after_all(position, requests) == (LPPosition {
            lp_shares: position_after_all(position, requests).lp_shares,
            ..position
        }),
        shares_withdrawn(position, requests) + position_after_all(position, requests).lp_shares
            == position.lp_shares,
        position_after_all(position, requests).lp_shares <= position.lp_shares,
    decreases requests.len(),
{
    if requests.len() > 0 {
        law_position_only_shrinks(position, requests.drop_last());
    }
}

} // verus!
