//! Ledger engine for tokenized receivable financing.
//!
//! A vault issues claim-tokens against a principal-plus-interest cash flow,
//! ingests one exact payment per month, and lets holders redeem tokens at par
//! against the capacity that each month's payment unlocked. A second part keeps
//! the share accounting of a two-asset liquidity pool with a rolling
//! provisioning window.
//!
//! Every transition is a function from the records it names and its arguments
//! to the updated records, the token-ledger instructions that the host has to
//! carry out (in order), and the event to publish. A rejected transition leaves
//! every record as it was.

pub mod accounts;
pub mod arith;
pub mod error;
pub mod events;
pub mod history;
pub mod identity;
pub mod ledger;
pub mod payments;
pub mod pool;
pub mod primary;
pub mod state;
pub mod vault;

pub use accounts::{
    CreateLiquidityPool, CreateVault, MintTokens, ProvideLiquidity, PurchaseTokensPrimary,
    ReceiveMonthlyPayment, RedeemTokens, WithdrawLiquidity,
};
pub use arith::{checked_add, checked_div, checked_mul, checked_sub, integer_sqrt, mul_then_div};
pub use error::MeteraError;
pub use events::{
    LiquidityPoolCreated, LiquidityProvided, LiquidityWithdrawn, MonthlyPaymentReceived,
    TokensMinted, TokensPurchased, TokensRedeemed, VaultCreated,
};
pub use ledger::{Outcome, TokenInstruction};
pub use payments::{receive_monthly_payment, redeem_tokens};
pub use pool::{create_liquidity_pool, provide_liquidity, withdraw_liquidity};
pub use primary::purchase_tokens_primary;
pub use state::{
    LPPosition, LiquidityPool, MonthlyPaymentRecord, PrimarySale, RedemptionRecord, Vault,
};
pub use vault::{create_vault, mint_tokens};
