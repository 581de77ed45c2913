use anchor_lang::prelude::Pubkey;
use tokenization::{
    purchase_tokens_primary, MeteraError, PrimarySale, PurchaseTokensPrimary, TokenInstruction,
    TokensPurchased, Vault,
};

fn key(n: u8) -> Pubkey {
    Pubkey::new_from_array([n; 32])
}

fn parties() -> PurchaseTokensPrimary {
    PurchaseTokensPrimary {
        vault: key(1),
        token_mint: key(2),
        vault_treasury: key(3),
        buyer_payment_account: key(5),
        buyer_token_account: key(6),
        buyer: key(7),
        authority: key(4),
    }
}

fn vault(is_active: bool) -> Vault {
    Vault {
        authority: key(4),
        token_mint: key(2),
        vault_treasury: key(3),
        principal: 1_000_000,
        total_expected_interest: 100_000,
        total_tokens_minted: 1_100_000,
        monthly_payment: 50_000,
        total_months: 24,
        current_month: 0,
        vault_name: String::from("Series A"),
        created_at: 0,
        total_redeemed: 0,
        is_active,
    }
}

fn price(token_amount: u64, discount: u8) -> u64 {
    purchase_tokens_primary(&parties(), &vault(true), token_amount, discount, 0)
        .unwrap()
        .record
        .purchase_price
}

#[test]
fn purchase_records_the_sale_and_asks_for_payment_then_issue() {
    let out = purchase_tokens_primary(&parties(), &vault(true), 1_000, 10, 1_700_000_123).unwrap();
    assert_eq!(
        out.record,
        PrimarySale {
            vault: key(1),
            buyer: key(7),
            token_amount: 1_000,
            purchase_price: 900,
            discount_percentage: 10,
            purchased_at: 1_700_000_123,
        }
    );
    assert_eq!(
        out.instructions,
        vec![
            TokenInstruction::Transfer {
                from: key(5),
                to: key(3),
                authority: key(7),
                amount: 900,
            },
            TokenInstruction::MintTo {
                mint: key(2),
                to: key(6),
                authority: key(4),
                amount: 1_000,
            },
        ]
    );
    assert_eq!(
        out.event,
        TokensPurchased {
            vault: key(1),
            buyer: key(7),
            token_amount: 1_000,
            purchase_price: 900,
            discount_percentage: 10,
        }
    );
}

#[test]
fn purchase_without_discount_costs_par() {
    for token_amount in [0u64, 1, 99, 1_000, u64::MAX] {
        assert_eq!(price(token_amount, 0), token_amount);
    }
}

#[test]
fn purchase_at_full_discount_is_free() {
    for token_amount in [0u64, 1, 99, 1_000, u64::MAX] {
        assert_eq!(price(token_amount, 100), 0);
    }
}

#[test]
fn purchase_discount_rounds_down() {
    // 33% of 999 is 329.67: the discount is 329, the price 670.
    assert_eq!(price(999, 33), 670);
    // 1% of 99 is 0.99: no discount at all.
    assert_eq!(price(99, 1), 99);
    // 50% of 1 is 0.5: no discount at all.
    assert_eq!(price(1, 50), 1);
    assert_eq!(price(1, 99), 1);
    assert_eq!(price(200, 25), 150);
}

#[test]
fn purchase_price_at_the_top_of_the_range() {
    // floor(u64::MAX * 50 / 100) = 9223372036854775807
    assert_eq!(price(u64::MAX, 50), u64::MAX - 9_223_372_036_854_775_807);
    assert_eq!(price(u64::MAX, 99), u64::MAX - 18_262_276_632_972_456_098);
}

#[test]
fn purchase_rejects_a_discount_above_100() {
    for discount in [101u8, 150, 255] {
        let r = purchase_tokens_primary(&parties(), &vault(true), 1_000, discount, 0);
        assert_eq!(r, Err(MeteraError::InvalidDiscount));
    }
}

#[test]
fn purchase_rejects_an_inactive_vault() {
    let r = purchase_tokens_primary(&parties(), &vault(false), 1_000, 10, 0);
    assert_eq!(r, Err(MeteraError::VaultInactive));
}

#[test]
fn purchase_checks_the_discount_before_the_vault() {
    let r = purchase_tokens_primary(&parties(), &vault(false), 1_000, 101, 0);
    assert_eq!(r, Err(MeteraError::InvalidDiscount));
}
