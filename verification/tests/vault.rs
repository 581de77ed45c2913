use anchor_lang::prelude::Pubkey;
use tokenization::{
    create_vault, mint_tokens, CreateVault, MeteraError, MintTokens, Outcome, TokenInstruction,
    TokensMinted, Vault, VaultCreated,
};

fn key(n: u8) -> Pubkey {
    Pubkey::new_from_array([n; 32])
}

fn parties() -> CreateVault {
    CreateVault { vault: key(1), token_mint: key(2), vault_treasury: key(3), authority: key(4) }
}

fn vault_with_supply(total_tokens_minted: u64, is_active: bool) -> Vault {
    Vault {
        authority: key(4),
        token_mint: key(2),
        vault_treasury: key(3),
        principal: total_tokens_minted,
        total_expected_interest: 0,
        total_tokens_minted,
        monthly_payment: 10,
        total_months: 12,
        current_month: 0,
        vault_name: String::from("receivables"),
        created_at: 0,
        total_redeemed: 0,
        is_active,
    }
}

fn minters() -> MintTokens {
    MintTokens { vault: key(1), token_mint: key(2), destination: key(9), authority: key(4) }
}

#[test]
fn create_vault_fixes_the_terms() {
    let out = create_vault(
        &parties(),
        1_000_000,
        100_000,
        50_000,
        24,
        String::from("Series A"),
        1_700_000_000,
    )
    .unwrap();
    assert_eq!(
        out.record,
        Vault {
            authority: key(4),
            token_mint: key(2),
            vault_treasury: key(3),
            principal: 1_000_000,
            total_expected_interest: 100_000,
            total_tokens_minted: 1_100_000,
            monthly_payment: 50_000,
            total_months: 24,
            current_month: 0,
            vault_name: String::from("Series A"),
            created_at: 1_700_000_000,
            total_redeemed: 0,
            is_active: true,
        }
    );
    assert!(out.instructions.is_empty());
    assert_eq!(
        out.event,
        VaultCreated {
            vault: key(1),
            principal: 1_000_000,
            total_expected_interest: 100_000,
            total_tokens_minted: 1_100_000,
            monthly_payment: 50_000,
            total_months: 24,
        }
    );
}

#[test]
fn create_vault_supply_is_principal_plus_interest() {
    for (principal, interest) in [(0u64, 0u64), (1, 0), (0, 1), (u64::MAX - 5, 5), (77, 23)] {
        let out =
            create_vault(&parties(), principal, interest, 1, 1, String::new(), 0).unwrap();
        assert_eq!(out.record.total_tokens_minted, principal + interest);
    }
}

#[test]
fn create_vault_rejects_a_supply_beyond_64_bits() {
    let r = create_vault(&parties(), u64::MAX, 1, 1, 1, String::from("x"), 0);
    assert_eq!(r, Err(MeteraError::ArithmeticOverflow));
    let r = create_vault(&parties(), 1 << 63, 1 << 63, 1, 1, String::from("x"), 0);
    assert_eq!(r, Err(MeteraError::ArithmeticOverflow));
}

#[test]
fn mint_tokens_asks_for_the_mint() {
    let vault = vault_with_supply(1_100_000, true);
    let out = mint_tokens(&minters(), &vault, 250_000).unwrap();
    assert_eq!(
        out,
        Outcome {
            record: (),
            instructions: vec![TokenInstruction::MintTo {
                mint: key(2),
                to: key(9),
                authority: key(4),
                amount: 250_000,
            }],
            event: TokensMinted { vault: key(1), amount: 250_000, recipient: key(9) },
        }
    );
}

#[test]
fn mint_tokens_takes_the_whole_supply_and_nothing_beyond() {
    let vault = vault_with_supply(1_100_000, true);
    assert!(mint_tokens(&minters(), &vault, 1_100_000).is_ok());
    assert!(mint_tokens(&minters(), &vault, 0).is_ok());
    assert_eq!(
        mint_tokens(&minters(), &vault, 1_100_001),
        Err(MeteraError::ExceedsTokenSupply)
    );
}

#[test]
fn mint_tokens_holds_each_call_against_the_whole_supply() {
    let vault = vault_with_supply(100, true);
    assert!(mint_tokens(&minters(), &vault, 100).is_ok());
    assert!(mint_tokens(&minters(), &vault, 100).is_ok());
}

#[test]
fn mint_tokens_rejects_an_inactive_vault_first() {
    let vault = vault_with_supply(100, false);
    assert_eq!(mint_tokens(&minters(), &vault, 1), Err(MeteraError::VaultInactive));
    assert_eq!(mint_tokens(&minters(), &vault, 101), Err(MeteraError::VaultInactive));
}

#[test]
fn vault_clone_is_equal() {
    let vault = vault_with_supply(5, true);
    assert_eq!(vault.clone(), vault);
}

#[test]
fn error_messages() {
    assert_eq!(MeteraError::VaultInactive.message(), "Vault is not active");
    assert_eq!(MeteraError::VaultMatured.message(), "Vault has matured");
    assert_eq!(MeteraError::ExceedsTokenSupply.message(), "Exceeds total token supply");
    assert_eq!(MeteraError::InvalidDiscount.message(), "Invalid discount percentage");
    assert_eq!(MeteraError::InvalidPaymentAmount.message(), "Invalid payment amount");
    assert_eq!(
        MeteraError::InsufficientRedemptionCapacity.message(),
        "Insufficient redemption capacity"
    );
    assert_eq!(MeteraError::InsufficientTokenBalance.message(), "Insufficient token balance");
    assert_eq!(MeteraError::PoolInactive.message(), "Pool is not active");
    assert_eq!(MeteraError::InsufficientLPShares.message(), "Insufficient LP shares");
    assert_eq!(MeteraError::ZeroLiquidityPool.message(), "Zero liquidity pool");
    assert_eq!(MeteraError::ArithmeticOverflow.message(), "Arithmetic overflow");
}
