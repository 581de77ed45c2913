//! What a transition asks of the outside world.
//!
//! The engine holds no balances. A transition that moves value says so by
//! returning the instructions for the token ledger, which the host carries out
//! in the order given, all or none.

use anchor_lang::prelude::Pubkey;
use vstd::prelude::*;

verus! {

/// One command to the token ledger.
#[derive(Clone, Copy, Debug, PartialEq, Eq)]
pub enum TokenInstruction {
    /// Create `amount` new tokens of `mint` in the account `to`.
    MintTo { mint: Pubkey, to: Pubkey, authority: Pubkey, amount: u64 },
    /// Destroy `amount` tokens of `mint` held in the account `from`.
    Burn { mint: Pubkey, from: Pubkey, authority: Pubkey, amount: u64 },
    /// Move `amount` from the account `from` to the account `to`.
    Transfer { from: Pubkey, to: Pubkey, authority: Pubkey, amount: u64 },
}

/// What an accepted transition hands back: the record it created (`()` when
/// it creates none), the token-ledger instructions to carry out, in order,
/// and the event to publish.
#[derive(Debug, PartialEq, Eq)]
pub struct Outcome<R, E> {
    pub record: R,
    pub instructions: Vec<TokenInstruction>,
    pub event: E,
}

} // verus!
