//! Liquidity pool: reserves, share supply and the provisioning window.
//!
//! A pool holds two reserves and a supply of shares. The first provision sets
//! the share-to-reserve ratio by the geometric mean of the two amounts; every
//! later one is credited by the scarcer side. A withdrawal takes the same
//! fraction out of both reserves. Positions are tagged with the number of the
//! ninety-day window in which they were opened; the window rolls over lazily,
//! on the first provision after it has run out.

use crate::accounts::{CreateLiquidityPool, ProvideLiquidity, WithdrawLiquidity};
use crate::arith::{
    checked_add, checked_sub, floor_sqrt, integer_sqrt, is_floor_sqrt, lemma_floor_sqrt_exists,
    lemma_product_fits, mul_div, mul_then_div,
};
use crate::error::MeteraError;
use crate::events::{LiquidityPoolCreated, LiquidityProvided, LiquidityWithdrawn};
use crate::ledger::{Outcome, TokenInstruction};
use crate::state::{LPPosition, LiquidityPool};
use vstd::prelude::*;

verus! {

/// Length of a provisioning window in seconds: ninety days.
pub const WINDOW_DURATION: i64 = 7_776_000;

/// The window that a provision made at `now` falls into, as its start and its
/// number. The window rolls over once more than [`WINDOW_DURATION`] seconds
/// have passed since it started.
pub open spec fn window_at(pool: LiquidityPool, now: i64) -> Result<(i64, u64), MeteraError> {
    let elapsed = now - pool.window_start;
    if elapsed < i64::MIN || elapsed > i64::MAX {
        Err(MeteraError::ArithmeticOverflow)
    } else if elapsed > WINDOW_DURATION {
        if pool.window_number == u64::MAX {
            Err(MeteraError::ArithmeticOverflow)
        } else {
            Ok((now, (pool.window_number + 1) as u64))
        }
    } else {
        Ok((pool.window_start, pool.window_number))
    }
}

/// The shares minted for a deposit of `(a, b)`: the floor of the geometric
/// mean while no shares are outstanding, and otherwise the smaller of the two
/// amounts' proportions of the present share supply.
pub open spec fn shares_for(pool: LiquidityPool, a: u64, b: u64) -> Result<u64, MeteraError> {
    if pool.total_lp_shares == 0 {
        Ok(floor_sqrt((a * b) as nat) as u64)
    } else {
        match (
            mul_div(a, pool.total_lp_shares, pool.token_a_reserve),
            mul_div(b, pool.total_lp_shares, pool.token_b_reserve),
        ) {
            (Ok(a_ratio), Ok(b_ratio)) => Ok(if a_ratio <= b_ratio { a_ratio } else { b_ratio }),
            _ => Err(MeteraError::ArithmeticOverflow),
        }
    }
}

/// The pool after a provision of `(a, b)` at `now`, with the shares minted for
/// it; or the reason for which the provision is rejected.
pub open spec fn provision(
    pool: LiquidityPool,
    a: u64,
    b: u64,
    forward_discount_percentage: u8,
    now: i64,
) -> Result<(LiquidityPool, u64), MeteraError> {
    if forward_discount_percentage > 100 {
        Err(MeteraError::InvalidDiscount)
    } else if !pool.is_active {
        Err(MeteraError::PoolInactive)
    } else {
        match (window_at(pool, now), shares_for(pool, a, b)) {
            (Ok((window_start, window_number)), Ok(lp_shares)) => {
                if pool.token_a_reserve + a > u64::MAX || pool.token_b_reserve + b > u64::MAX
                    || pool.total_lp_shares + lp_shares > u64::MAX {
                    Err(MeteraError::ArithmeticOverflow)
                } else {
                    Ok(
                        (
                            LiquidityPool {
                                token_a_reserve: (pool.token_a_reserve + a) as u64,
                                token_b_reserve: (pool.token_b_reserve + b) as u64,
                                total_lp_shares: (pool.total_lp_shares + lp_shares) as u64,
                                window_start,
                                window_number,
                                ..pool
                            },
                            lp_shares,
                        ),
                    )
                }
            },
            _ => Err(MeteraError::ArithmeticOverflow),
        }
    }
}

/// The two transfers that carry a provision into the pool's reserves: the
/// full amounts, whatever shares are minted for them.
pub open spec fn provision_instructions(ctx: ProvideLiquidity, a: u64, b: u64) -> Seq<
    TokenInstruction,
> {
    seq![
        TokenInstruction::Transfer {
            from: ctx.lp_token_a_account,
            to: ctx.pool_token_a_vault,
            authority: ctx.lp,
            amount: a,
        },
        TokenInstruction::Transfer {
            from: ctx.lp_token_b_account,
            to: ctx.pool_token_b_vault,
            authority: ctx.lp,
            amount: b,
        },
    ]
}

/// The part of `reserve` that `lp_shares` out of `total_lp_shares` stand for,
/// rounded down.
pub open spec fn share_of(lp_shares: u64, reserve: u64, total_lp_shares: u64) -> int {
    (lp_shares * reserve) / (total_lp_shares as int)
}

/// The pool and the position after `lp_shares` are withdrawn, with the two
/// amounts paid out; or the reason for which the withdrawal is rejected.
pub open spec fn withdrawal(pool: LiquidityPool, position: LPPosition, lp_shares: u64) -> Result<
    (LiquidityPool, LPPosition, u64, u64),
    MeteraError,
> {
    if !pool.is_active {
        Err(MeteraError::PoolInactive)
    } else if pool.total_lp_shares == 0 {
        Err(MeteraError::ZeroLiquidityPool)
    } else if position.lp_shares < lp_shares {
        Err(MeteraError::InsufficientLPShares)
    } else if lp_shares > pool.total_lp_shares {
        Err(MeteraError::ArithmeticOverflow)
    } else {
        let a = share_of(lp_shares, pool.token_a_reserve, pool.total_lp_shares);
        let b = share_of(lp_shares, pool.token_b_reserve, pool.total_lp_shares);
        Ok(
            (
                LiquidityPool {
                    token_a_reserve: (pool.token_a_reserve - a) as u64,
                    token_b_reserve: (pool.token_b_reserve - b) as u64,
                    total_lp_shares: (pool.total_lp_shares - lp_shares) as u64,
                    ..pool
                },
                LPPosition { lp_shares: (position.lp_shares - lp_shares) as u64, ..position },
                a as u64,
                b as u64,
            ),
        )
    }
}

/// The two transfers that pay a withdrawal out of the pool's reserves.
pub open spec fn withdrawal_instructions(ctx: WithdrawLiquidity, a: u64, b: u64) -> Seq<
    TokenInstruction,
> {
    seq![
        TokenInstruction::Transfer {
            from: ctx.pool_token_a_vault,
            to: ctx.lp_token_a_account,
            authority: ctx.pool_authority,
            amount: a,
        },
        TokenInstruction::Transfer {
            from: ctx.pool_token_b_vault,
            to: ctx.lp_token_b_account,
            authority: ctx.pool_authority,
            amount: b,
        },
    ]
}

/// The floor square root of a product of two 64-bit values fits in 64 bits,
/// and is zero exactly when the product is.
pub proof fn lemma_geometric_mean_fits(a: u64, b: u64)
    ensures
        is_floor_sqrt((a * b) as nat, floor_sqrt((a * b) as nat)),
        floor_sqrt((a * b) as nat) <= u64::MAX,
        floor_sqrt((a * b) as nat) > 0 <==> a > 0 && b > 0,
{
    lemma_product_fits(a, b);
    let x = (a * b) as nat;
    let r = floor_sqrt(x);
    lemma_floor_sqrt_exists(x);
    assert(r <= 0xffff_ffff_ffff_ffff) by (nonlinear_arith)
        requires
            r * r <= x,
            x <= 0xffff_ffff_ffff_ffff_ffff_ffff_ffff_ffff,
    {
        if r >= 0x1_0000_0000_0000_0000 {
            assert(r * r >= 0x1_0000_0000_0000_0000 * 0x1_0000_0000_0000_0000);
        }
    }
    assert(r > 0 <==> a > 0 && b > 0) by (nonlinear_arith)
        requires
            r * r <= a * b < (r + 1) * (r + 1),
            r >= 0,
            a >= 0,
            b >= 0,
    ;
}

/// Part of a whole: `lp_shares` out of `total` never stand for more than the
/// reserve, and for less than all of it unless they are all the shares.
pub proof fn lemma_share_of_bounds(lp_shares: u64, reserve: u64, total: u64)
    requires
        0 < total,
        lp_shares <= total,
    ensures
        0 <= share_of(lp_shares, reserve, total) <= reserve,
        lp_shares == total ==> share_of(lp_shares, reserve, total) == reserve,
        lp_shares < total && reserve > 0 ==> share_of(lp_shares, reserve, total) < reserve,
{
    let s = lp_shares as int;
    let r = reserve as int;
    let t = total as int;
    let q = (s * r) / t;
    assert(0 <= q <= r && (s == t ==> q == r) && (s < t && r > 0 ==> q < r))
        by (nonlinear_arith)
        requires
            0 < t,
            0 <= s <= t,
            0 <= r,
            q == (s * r) / t,
    {
        assert(s * r <= t * r);
        assert(q * t <= s * r < q * t + t);
        if q > r {
            assert(q * t >= (r + 1) * t);
        }
        if s == t {
            assert((t * r) / t == r);
        }
        if s < t && r > 0 {
            assert(s * r <= (t - 1) * r);
            if q >= r {
                assert(q * t >= r * t);
            }
        }
    }
}

/// The first provision into an empty pool is accepted whenever the discount
/// is in range, the pool is active and the window arithmetic stays in range.
/// It mints the floor of the square root of the product of the two amounts,
/// which is then the whole share supply, and leaves exactly the two amounts
/// in reserve.
pub proof fn law_first_provision(
    pool: LiquidityPool,
    a: u64,
    b: u64,
    forward_discount_percentage: u8,
    now: i64,
)
    requires
        pool.is_empty(),
    ensures
        provision(pool, a, b, forward_discount_percentage, now) is Ok <==> {
            &&& forward_discount_percentage <= 100
            &&& pool.is_active
            &&& window_at(pool, now) is Ok
        },
        provision(pool, a, b, forward_discount_percentage, now) matches Ok((next, lp_shares)) ==> {
            &&& lp_shares == floor_sqrt((a * b) as nat)
            &&& is_floor_sqrt((a * b) as nat, lp_shares as nat)
            &&& next.total_lp_shares == lp_shares
            &&& next.token_a_reserve == a
            &&& next.token_b_reserve == b
        },
{
    lemma_geometric_mean_fits(a, b);
}

/// A later provision, into a pool with shares outstanding, is credited by the
/// scarcer side: it mints the smaller of the two amounts' proportions of the
/// share supply, each rounded down, while both reserves take the full
/// amounts.
pub proof fn law_later_provision(
    pool: LiquidityPool,
    a: u64,
    b: u64,
    forward_discount_percentage: u8,
    now: i64,
)
    requires
        pool.total_lp_shares > 0,
        provision(pool, a, b, forward_discount_percentage, now) is Ok,
    ensures
        ({
            let (next, lp_shares) = provision(pool, a, b, forward_discount_percentage, now)->Ok_0;
            let a_ratio = (a * pool.total_lp_shares) / (pool.token_a_reserve as int);
            let b_ratio = (b * pool.total_lp_shares) / (pool.token_b_reserve as int);
            &&& pool.token_a_reserve > 0 && pool.token_b_reserve > 0
            &&& lp_shares == if a_ratio <= b_ratio { a_ratio } else { b_ratio }
            &&& next.total_lp_shares == pool.total_lp_shares + lp_shares
            &&& next.token_a_reserve == pool.token_a_reserve + a
            &&& next.token_b_reserve == pool.token_b_reserve + b
        }),
{
}

/// The window rolls over lazily. An accepted provision made more than
/// [`WINDOW_DURATION`] seconds after the window started moves the window
/// number on by exactly one and starts the new window at the time of the
/// call; one made no later than that leaves both as they were.
pub proof fn law_window_rollover(
    pool: LiquidityPool,
    a: u64,
    b: u64,
    forward_discount_percentage: u8,
    now: i64,
)
    requires
        provision(pool, a, b, forward_discount_percentage, now) is Ok,
    ensures
        ({
            let (next, _) = provision(pool, a, b, forward_discount_percentage, now)->Ok_0;
            &&& now - pool.window_start > WINDOW_DURATION ==> {
                &&& next.window_number == pool.window_number + 1
                &&& next.window_start == now
            }
            &&& now - pool.window_start <= WINDOW_DURATION ==> {
                &&& next.window_number == pool.window_number
                &&& next.window_start == pool.window_start
            }
            &&& pool.same_identity(next)
        }),
{
}

/// A withdrawal is proportional. An accepted withdrawal of `lp_shares` pays
/// out of each reserve the floor of `lp_shares * reserve / total_lp_shares`,
/// taken on the pool as it was before; the reserves shrink by what was paid,
/// and share supply and position by exactly `lp_shares`. The window is left
/// alone.
pub proof fn law_withdrawal_is_proportional(
    pool: LiquidityPool,
    position: LPPosition,
    lp_shares: u64,
)
    requires
        withdrawal(pool, position, lp_shares) is Ok,
    ensures
        ({
            let (next, held, token_a_amount, token_b_amount) = withdrawal(
                pool,
                position,
                lp_shares,
            )->Ok_0;
            let total = pool.total_lp_shares as int;
            &&& token_a_amount == (lp_shares * pool.token_a_reserve) / total
            &&& token_b_amount == (lp_shares * pool.token_b_reserve) / total
            &&& token_a_amount <= pool.token_a_reserve
            &&& token_b_amount <= pool.token_b_reserve
            &&& next.token_a_reserve == pool.token_a_reserve - token_a_amount
            &&& next.token_b_reserve == pool.token_b_reserve - token_b_amount
            &&& next.total_lp_shares == pool.total_lp_shares - lp_shares
            &&& held.lp_shares == position.lp_shares - lp_shares
            &&& next.window_start == pool.window_start
            &&& next.window_number == pool.window_number
            &&& pool.same_identity(next)
        }),
{
    lemma_share_of_bounds(lp_shares, pool.token_a_reserve, pool.total_lp_shares);
    lemma_share_of_bounds(lp_shares, pool.token_b_reserve, pool.total_lp_shares);
}

/// A withdrawal is accepted exactly when the pool is active, the position
/// holds the shares asked for, and the pool has that many outstanding.
pub proof fn law_withdrawal_acceptance(pool: LiquidityPool, position: LPPosition, lp_shares: u64)
    ensures
        withdrawal(pool, position, lp_shares) is Ok <==> {
            &&& pool.is_active
            &&& 0 < pool.total_lp_shares
            &&& lp_shares <= position.lp_shares
            &&& lp_shares <= pool.total_lp_shares
        },
{
}

/// Shares stay backed through a provision. After an accepted provision into
/// a pool whose outstanding shares were backed on both sides, they still are;
/// and a pool that held nothing whenever it had no shares outstanding still
/// does, unless the provision brought one asset only.
pub proof fn law_provision_keeps_shares_backed(
    pool: LiquidityPool,
    a: u64,
    b: u64,
    forward_discount_percentage: u8,
    now: i64,
)
    requires
        pool.wf(),
        provision(pool, a, b, forward_discount_percentage, now) is Ok,
    ensures
        ({
            let (next, _) = provision(pool, a, b, forward_discount_percentage, now)->Ok_0;
            &&& next.wf()
            &&& ((pool.total_lp_shares == 0 ==> pool.is_empty()) && ((a == 0) == (b == 0)))
                ==> (next.total_lp_shares == 0 ==> next.is_empty())
        }),
{
    lemma_geometric_mean_fits(a, b);
}

/// Shares stay backed through a withdrawal. After an accepted withdrawal from
/// a pool whose outstanding shares were backed on both sides, they still are;
/// and a pool that held nothing whenever it had no shares outstanding still
/// does: taking out every share takes out both reserves whole.
pub proof fn law_withdrawal_keeps_shares_backed(
    pool: LiquidityPool,
    position: LPPosition,
    lp_shares: u64,
)
    requires
        pool.wf(),
        withdrawal(pool, position, lp_shares) is Ok,
    ensures
        ({
            let (next, _, _, _) = withdrawal(pool, position, lp_shares)->Ok_0;
            &&& next.wf()
            &&& next.total_lp_shares == 0 ==> next.is_empty()
        }),
{
    lemma_share_of_bounds(lp_shares, pool.token_a_reserve, pool.total_lp_shares);
    lemma_share_of_bounds(lp_shares, pool.token_b_reserve, pool.total_lp_shares);
}

/// Opens a pool for the pair of mints named in `ctx`: active, with empty
/// reserves, no shares outstanding, and its first window starting at `now`.
/// Never rejected.
pub fn create_liquidity_pool(ctx: &CreateLiquidityPool, pool_name: String, now: i64) -> (r: Result<
    Outcome<LiquidityPool, LiquidityPoolCreated>,
    MeteraError,
>)
    ensures
        r matches Ok(out) && {
            &&& out.record == (LiquidityPool {
                vault: ctx.vault,
                token_a_mint: ctx.token_a_mint,
                token_b_mint: ctx.token_b_mint,
                pool_authority: ctx.authority,
                pool_name: pool_name,
                created_at: now,
                token_a_reserve: 0,
                token_b_reserve: 0,
                total_lp_shares: 0,
                window_start: now,
                window_number: 0,
                is_active: true,
            })
            &&& out.record.is_empty()
            &&& out.record.wf()
            &&& out.instructions@ == Seq::<TokenInstruction>::empty()
            &&& out.event == (LiquidityPoolCreated {
                pool: ctx.liquidity_pool,
                vault: ctx.vault,
                token_a: ctx.token_a_mint,
                token_b: ctx.token_b_mint,
                pool_name: pool_name,
            })
        },
{
    let event = LiquidityPoolCreated {
        pool: ctx.liquidity_pool,
        vault: ctx.vault,
        token_a: ctx.token_a_mint,
        token_b: ctx.token_b_mint,
        pool_name: pool_name.clone(),
    };
    let record = LiquidityPool {
        vault: ctx.vault,
        token_a_mint: ctx.token_a_mint,
        token_b_mint: ctx.token_b_mint,
        pool_authority: ctx.authority,
        pool_name,
        created_at: now,
        token_a_reserve: 0,
        token_b_reserve: 0,
        total_lp_shares: 0,
        window_start: now,
        window_number: 0,
        is_active: true,
    };
    Ok(Outcome { record, instructions: Vec::new(), event })
}

/// The window that a provision made at `now` falls into.
fn current_window(pool: &LiquidityPool, now: i64) -> (r: Result<(i64, u64), MeteraError>)
    ensures
        r == window_at(*pool, now),
{
    let elapsed: i64 = match now.checked_sub(pool.window_start) {
        Some(v) => v,
        None => { return Err(MeteraError::ArithmeticOverflow); },
    };
    if elapsed > WINDOW_DURATION {
        let next: u64 = checked_add(pool.window_number, 1)?;
        Ok((now, next))
    } else {
        Ok((pool.window_start, pool.window_number))
    }
}

/// The shares to mint for a deposit of `(a, b)`.
fn shares_to_mint(pool: &LiquidityPool, a: u64, b: u64) -> (r: Result<u64, MeteraError>)
    ensures
        r == shares_for(*pool, a, b),
{
    if pool.total_lp_shares == 0 {
        proof {
            lemma_product_fits(a, b);
        }
        let product: u128 = (a as u128) * (b as u128);
        Ok(integer_sqrt(product))
    } else {
        let a_ratio: u64 = mul_then_div(a, pool.total_lp_shares, pool.token_a_reserve)?;
        let b_ratio: u64 = mul_then_div(b, pool.total_lp_shares, pool.token_b_reserve)?;
        if a_ratio <= b_ratio {
            Ok(a_ratio)
        } else {
            Ok(b_ratio)
        }
    }
}

/// Takes a deposit of `(token_a_amount, token_b_amount)` into the pool and
/// opens a position for it.
///
/// Rejected with `InvalidDiscount` when the discount exceeds 100, else with
/// `PoolInactive` when the pool is not active, else with `ArithmeticOverflow`
/// when the window arithmetic, a share proportion, a reserve or the share
/// supply would leave 64 bits (a share proportion also when the reserve it
/// divides by is zero). A rejected provision leaves the pool as it was.
///
/// When accepted, the window has rolled over if it had run out, both reserves
/// have grown by the full amounts, and the share supply by the shares minted.
/// The position records the deposit, the shares, the discount and the window
/// number now current. The host is asked to transfer both amounts from the
/// provider to the pool.
pub fn provide_liquidity(
    ctx: &ProvideLiquidity,
    pool: &mut LiquidityPool,
    token_a_amount: u64,
    token_b_amount: u64,
    forward_discount_percentage: u8,
    now: i64,
) -> (r: Result<Outcome<LPPosition, LiquidityProvided>, MeteraError>)
    ensures
        match (
            r,
            provision(*old(pool), token_a_amount, token_b_amount, forward_discount_percentage, now),
        ) {
            (Ok(out), Ok((next, lp_shares))) => {
                &&& *final(pool) == next
                &&& out.record == (LPPosition {
                    pool: ctx.liquidity_pool,
                    lp: ctx.lp,
                    token_a_amount,
                    token_b_amount,
                    lp_shares,
                    forward_discount_percentage,
                    window_number: next.window_number,
                    provided_at: now,
                })
                &&& out.instructions@ == provision_instructions(
                    *ctx,
                    token_a_amount,
                    token_b_amount,
                )
                &&& out.event == (LiquidityProvided {
                    pool: ctx.liquidity_pool,
                    lp: ctx.lp,
                    token_a_amount,
                    token_b_amount,
                    lp_shares,
                    forward_discount_percentage,
                })
            },
            (Err(e), Err(expected)) => e == expected && *final(pool) == *old(pool),
            _ => false,
        },
        old(pool).wf() ==> final(pool).wf(),
{
    if forward_discount_percentage > 100 {
        return Err(MeteraError::InvalidDiscount);
    }
    if !pool.is_active {
        return Err(MeteraError::PoolInactive);
    }
    let (window_start, window_number) = current_window(pool, now)?;
    let lp_shares: u64 = shares_to_mint(pool, token_a_amount, token_b_amount)?;
    let token_a_reserve: u64 = checked_add(pool.token_a_reserve, token_a_amount)?;
    let token_b_reserve: u64 = checked_add(pool.token_b_reserve, token_b_amount)?;
    let total_lp_shares: u64 = checked_add(pool.total_lp_shares, lp_shares)?;
    proof {
        lemma_geometric_mean_fits(token_a_amount, token_b_amount);
    }

    pool.window_start = window_start;
    pool.window_number = window_number;
    pool.token_a_reserve = token_a_reserve;
    pool.token_b_reserve = token_b_reserve;
    pool.total_lp_shares = total_lp_shares;

    let record = LPPosition {
        pool: ctx.liquidity_pool,
        lp: ctx.lp,
        token_a_amount,
        token_b_amount,
        lp_shares,
        forward_discount_percentage,
        window_number,
        provided_at: now,
    };
    let event = LiquidityProvided {
        pool: ctx.liquidity_pool,
        lp: ctx.lp,
        token_a_amount,
        token_b_amount,
        lp_shares,
        forward_discount_percentage,
    };
    let mut instructions: Vec<TokenInstruction> = Vec::new();
    instructions.push(
        TokenInstruction::Transfer {
            from: ctx.lp_token_a_account,
            to: ctx.pool_token_a_vault,
            authority: ctx.lp,
            amount: token_a_amount,
        },
    );
    instructions.push(
        TokenInstruction::Transfer {
            from: ctx.lp_token_b_account,
            to: ctx.pool_token_b_vault,
            authority: ctx.lp,
            amount: token_b_amount,
        },
    );
    assert(instructions@ =~= provision_instructions(*ctx, token_a_amount, token_b_amount));
    Ok(Outcome { record, instructions, event })
}

/// Takes `lp_shares` of a position out of the pool.
///
/// Rejected with `PoolInactive` when the pool is not active, else with
/// `ZeroLiquidityPool` when no shares are outstanding, else with
/// `InsufficientLPShares` when the position holds fewer shares than asked
/// for, else with `ArithmeticOverflow` when more shares are asked for than
/// the pool has outstanding. A rejected withdrawal leaves pool and position
/// as they were.
///
/// When accepted, each reserve pays out the part that the shares stand for,
/// rounded down; reserves, share supply and position shrink by what left. The
/// host is asked to transfer both amounts from the pool to the provider.
pub fn withdraw_liquidity(
    ctx: &WithdrawLiquidity,
    pool: &mut LiquidityPool,
    position: &mut LPPosition,
    lp_shares: u64,
) -> (r: Result<Outcome<(), LiquidityWithdrawn>, MeteraError>)
    ensures
        match (r, withdrawal(*old(pool), *old(position), lp_shares)) {
            (Ok(out), Ok((next, held, token_a_amount, token_b_amount))) => {
                &&& *final(pool) == next
                &&& *final(position) == held
                &&& out.instructions@ == withdrawal_instructions(
                    *ctx,
                    token_a_amount,
                    token_b_amount,
                )
                &&& out.event == (LiquidityWithdrawn {
                    pool: ctx.liquidity_pool,
                    lp: ctx.lp,
                    lp_shares,
                    token_a_amount,
                    token_b_amount,
                })
            },
            (Err(e), Err(expected)) => {
                &&& e == expected
                &&& *final(pool) == *old(pool)
                &&& *final(position) == *old(position)
            },
            _ => false,
        },
        r is Ok <==> {
            &&& old(pool).is_active
            &&& 0 < old(pool).total_lp_shares
            &&& lp_shares <= old(position).lp_shares
            &&& lp_shares <= old(pool).total_lp_shares
        },
        old(pool).wf() ==> final(pool).wf(),
{
    if !pool.is_active {
        return Err(MeteraError::PoolInactive);
    }
    if pool.total_lp_shares == 0 {
        return Err(MeteraError::ZeroLiquidityPool);
    }
    if position.lp_shares < lp_shares {
        return Err(MeteraError::InsufficientLPShares);
    }
    let total_lp_shares: u64 = checked_sub(pool.total_lp_shares, lp_shares)?;
    proof {
        lemma_share_of_bounds(lp_shares, pool.token_a_reserve, pool.total_lp_shares);
        lemma_share_of_bounds(lp_shares, pool.token_b_reserve, pool.total_lp_shares);
    }
    let token_a_amount: u64 = mul_then_div(lp_shares, pool.token_a_reserve, pool.total_lp_shares)?;
    let token_b_amount: u64 = mul_then_div(lp_shares, pool.token_b_reserve, pool.total_lp_shares)?;
    let token_a_reserve: u64 = checked_sub(pool.token_a_reserve, token_a_amount)?;
    let token_b_reserve: u64 = checked_sub(pool.token_b_reserve, token_b_amount)?;
    let held: u64 = checked_sub(position.lp_shares, lp_shares)?;

    pool.token_a_reserve = token_a_reserve;
    pool.token_b_reserve = token_b_reserve;
    pool.total_lp_shares = total_lp_shares;
    position.lp_shares = held;

    let event = LiquidityWithdrawn {
        pool: ctx.liquidity_pool,
        lp: ctx.lp,
        lp_shares,
        token_a_amount,
        token_b_amount,
    };
    let mut instructions: Vec<TokenInstruction> = Vec::new();
    instructions.push(
        TokenInstruction::Transfer {
            from: ctx.pool_token_a_vault,
            to: ctx.lp_token_a_account,
            authority: ctx.pool_authority,
            amount: token_a_amount,
        },
    );
    instructions.push(
        TokenInstruction::Transfer {
            from: ctx.pool_token_b_vault,
            to: ctx.lp_token_b_account,
            authority: ctx.pool_authority,
            amount: token_b_amount,
        },
    );
    assert(instructions@ =~= withdrawal_instructions(*ctx, token_a_amount, token_b_amount));
    Ok(Outcome { record: (), instructions, event })
}

} // verus!
