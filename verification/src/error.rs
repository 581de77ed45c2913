//! The ways in which a transition is rejected.

use vstd::prelude::*;

verus! {

/// Why a transition was rejected. A rejection concerns that one transition
/// only; no record has been touched when one is returned.
#[derive(Clone, Copy, Debug, PartialEq, Eq, Hash, Structural)]
pub enum MeteraError {
    VaultInactive,
    VaultMatured,
    ExceedsTokenSupply,
    InvalidDiscount,
    InvalidPaymentAmount,
    InsufficientRedemptionCapacity,
    InsufficientTokenBalance,
    PoolInactive,
    InsufficientLPShares,
    ZeroLiquidityPool,
    ArithmeticOverflow,
}

impl MeteraError {
    /// The text shown to a caller for this rejection.
    pub open spec fn spec_message(self) -> Seq<char> {
        match self {
            MeteraError::VaultInactive => "Vault is not active"@,
            MeteraError::VaultMatured => "Vault has matured"@,
            MeteraError::ExceedsTokenSupply => "Exceeds total token supply"@,
            MeteraError::InvalidDiscount => "Invalid discount percentage"@,
            MeteraError::InvalidPaymentAmount => "Invalid payment amount"@,
            MeteraError::InsufficientRedemptionCapacity => "Insufficient redemption capacity"@,
            MeteraError::InsufficientTokenBalance => "Insufficient token balance"@,
            MeteraError::PoolInactive => "Pool is not active"@,
            MeteraError::InsufficientLPShares => "Insufficient LP shares"@,
            MeteraError::ZeroLiquidityPool => "Zero liquidity pool"@,
            MeteraError::ArithmeticOverflow => "Arithmetic overflow"@,
        }
    }

    /// The text shown to a caller for this rejection.
    pub fn message(&self) -> (r: &'static str)
        ensures
            r@ == self.spec_message(),
    {
        match self {
            MeteraError::VaultInactive => "Vault is not active",
            MeteraError::VaultMatured => "Vault has matured",
            MeteraError::ExceedsTokenSupply => "Exceeds total token supply",
            MeteraError::InvalidDiscount => "Invalid discount percentage",
            MeteraError::InvalidPaymentAmount => "Invalid payment amount",
            MeteraError::InsufficientRedemptionCapacity => "Insufficient redemption capacity",
            MeteraError::InsufficientTokenBalance => "Insufficient token balance",
            MeteraError::PoolInactive => "Pool is not active",
            MeteraError::InsufficientLPShares => "Insufficient LP shares",
            MeteraError::ZeroLiquidityPool => "Zero liquidity pool",
            MeteraError::ArithmeticOverflow => "Arithmetic overflow",
        }
    }
}

} // verus!
