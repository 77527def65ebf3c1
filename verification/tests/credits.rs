use kangklip_credits::errors::CreditsError;
use kangklip_credits::records::{
    Config, ConsumeCredit, InitializeConfig, PayUsdc, SetSpender, TokenAccount, WithdrawUsdc,
    CREDIT_UNIT,
};
use kangklip_credits::store::CreditsStore;

const AUTHORITY: u64 = 11;
const MINT: u64 = 22;
const CONFIG_KEY: u64 = 33;
const USER: u64 = 44;

fn fresh_store() -> CreditsStore {
    let mut s = CreditsStore::new();
    s.initialize_config(InitializeConfig {
        authority: AUTHORITY,
        usdc_mint: MINT,
        config_key: CONFIG_KEY,
    })
    .unwrap();
    s
}

fn pay_ctx(source_amount: u64, vault_amount: u64) -> PayUsdc {
    PayUsdc {
        user: USER,
        authority: AUTHORITY,
        user_usdc: TokenAccount { mint: MINT, owner: USER, amount: source_amount },
        vault_usdc: TokenAccount { mint: MINT, owner: CONFIG_KEY, amount: vault_amount },
        usdc_mint: MINT,
    }
}

#[test]
fn initialize_sets_genesis_fields() {
    let s = fresh_store();
    let cfg = s.get_config(AUTHORITY).unwrap();
    assert_eq!(
        cfg,
        Config {
            authority: AUTHORITY,
            spender: AUTHORITY,
            usdc_mint: MINT,
            credit_unit: CREDIT_UNIT,
            key: CONFIG_KEY,
        }
    );
    assert_eq!(CREDIT_UNIT, 100_000);
}

#[test]
fn reinitialize_fails_duplicate_and_changes_nothing() {
    let mut s = fresh_store();
    let before = s.get_config(AUTHORITY).unwrap();
    let r = s.initialize_config(InitializeConfig {
        authority: AUTHORITY,
        usdc_mint: 99,
        config_key: 98,
    });
    assert_eq!(r, Err(CreditsError::DuplicateConfig));
    assert_eq!(s.get_config(AUTHORITY).unwrap(), before);
}

#[test]
fn two_authorities_get_independent_configs() {
    let mut s = fresh_store();
    s.initialize_config(InitializeConfig { authority: 77, usdc_mint: 5, config_key: 6 })
        .unwrap();
    assert_eq!(s.get_config(AUTHORITY).unwrap().usdc_mint, MINT);
    assert_eq!(s.get_config(77).unwrap().usdc_mint, 5);
}

#[test]
fn set_spender_rotates_only_spender() {
    let mut s = fresh_store();
    let r = s.set_spender(SetSpender { caller: AUTHORITY, authority: AUTHORITY }, 55);
    assert_eq!(r, Ok(()));
    let cfg = s.get_config(AUTHORITY).unwrap();
    assert_eq!(cfg.spender, 55);
    assert_eq!(cfg.authority, AUTHORITY);
    assert_eq!(cfg.usdc_mint, MINT);
    assert_eq!(cfg.credit_unit, CREDIT_UNIT);
    assert_eq!(cfg.key, CONFIG_KEY);
}

#[test]
fn set_spender_rejects_other_callers() {
    let mut s = fresh_store();
    let r = s.set_spender(SetSpender { caller: 66, authority: AUTHORITY }, 55);
    assert_eq!(r, Err(CreditsError::Unauthorized));
    assert_eq!(s.get_config(AUTHORITY).unwrap().spender, AUTHORITY);
}

#[test]
fn pay_converts_at_fixed_rate_and_moves_funds() {
    let mut s = fresh_store();
    let mut ctx = pay_ctx(1_000_000, 10);
    let paid = s.pay_usdc(&mut ctx, 250_000).unwrap();
    assert_eq!(paid.user, USER);
    assert_eq!(paid.amount_base_units, 250_000);
    assert_eq!(paid.credits_added, 2);
    assert_eq!(paid.new_balance, 2);
    assert_eq!(ctx.user_usdc.amount, 750_000);
    assert_eq!(ctx.vault_usdc.amount, 250_010);
    assert_eq!(s.credit_balance(USER), 2);
}

#[test]
fn pay_absorbs_remainder_below_one_credit() {
    let mut s = fresh_store();
    let mut ctx = pay_ctx(1_000_000, 0);
    let paid = s.pay_usdc(&mut ctx, 199_999).unwrap();
    assert_eq!(paid.credits_added, 1);
    assert_eq!(ctx.vault_usdc.amount, 199_999);
    assert_eq!(s.credit_balance(USER), 1);
}

#[test]
fn pay_zero_fails_invalid_amount() {
    let mut s = fresh_store();
    let mut ctx = pay_ctx(1_000_000, 0);
    assert_eq!(s.pay_usdc(&mut ctx, 0), Err(CreditsError::InvalidAmount));
    assert_eq!(s.credit_balance(USER), 0);
    assert_eq!(ctx.user_usdc.amount, 1_000_000);
    assert_eq!(ctx.vault_usdc.amount, 0);
}

#[test]
fn pay_below_one_credit_fails_below_minimum() {
    let mut s = fresh_store();
    let mut ctx = pay_ctx(1_000_000, 0);
    assert_eq!(s.pay_usdc(&mut ctx, 1), Err(CreditsError::BelowMinimum));
    assert_eq!(s.pay_usdc(&mut ctx, 99_999), Err(CreditsError::BelowMinimum));
    assert_eq!(s.credit_balance(USER), 0);
    assert_eq!(ctx.vault_usdc.amount, 0);
}

#[test]
fn pay_one_unit_yields_exactly_one_credit() {
    let mut s = fresh_store();
    let mut ctx = pay_ctx(100_000, 0);
    let paid = s.pay_usdc(&mut ctx, 100_000).unwrap();
    assert_eq!(paid.credits_added, 1);
    assert_eq!(paid.new_balance, 1);
    assert_eq!(s.credit_balance(USER), 1);
}

#[test]
fn pay_rejects_wrong_presented_mint() {
    let mut s = fresh_store();
    let mut ctx = pay_ctx(1_000_000, 0);
    ctx.usdc_mint = 99;
    assert_eq!(s.pay_usdc(&mut ctx, 100_000), Err(CreditsError::InvalidMint));
}

#[test]
fn pay_rejects_wrong_source_mint() {
    let mut s = fresh_store();
    let mut ctx = pay_ctx(1_000_000, 0);
    ctx.user_usdc.mint = 99;
    assert_eq!(s.pay_usdc(&mut ctx, 100_000), Err(CreditsError::InvalidMint));
}

#[test]
fn pay_rejects_wrong_vault_mint() {
    let mut s = fresh_store();
    let mut ctx = pay_ctx(1_000_000, 0);
    ctx.vault_usdc.mint = 99;
    assert_eq!(s.pay_usdc(&mut ctx, 100_000), Err(CreditsError::InvalidMint));
}

#[test]
fn pay_rejects_source_not_owned_by_user() {
    let mut s = fresh_store();
    let mut ctx = pay_ctx(1_000_000, 0);
    ctx.user_usdc.owner = 99;
    assert_eq!(s.pay_usdc(&mut ctx, 100_000), Err(CreditsError::InvalidOwner));
}

#[test]
fn pay_rejects_vault_not_owned_by_config() {
    let mut s = fresh_store();
    let mut ctx = pay_ctx(1_000_000, 0);
    ctx.vault_usdc.owner = 99;
    assert_eq!(s.pay_usdc(&mut ctx, 100_000), Err(CreditsError::InvalidOwner));
}

#[test]
fn pay_overflow_leaves_everything_unchanged() {
    let mut s = fresh_store();
    // Grow the balance close to u64::MAX with maximal whole-unit deposits,
    // then one more deposit must fail the checked addition.
    let big = (u64::MAX / CREDIT_UNIT) * CREDIT_UNIT;
    let per_pay = big / CREDIT_UNIT;
    let mut balance: u64 = 0;
    while let Some(next) = balance.checked_add(per_pay) {
        let mut ctx = pay_ctx(big, 0);
        s.pay_usdc(&mut ctx, big).unwrap();
        balance = next;
    }
    assert_eq!(s.credit_balance(USER), balance);
    let mut ctx = pay_ctx(big, 0);
    assert_eq!(s.pay_usdc(&mut ctx, big), Err(CreditsError::Overflow));
    assert_eq!(s.credit_balance(USER), balance);
    assert_eq!(ctx.user_usdc.amount, big);
    assert_eq!(ctx.vault_usdc.amount, 0);
}

#[test]
fn deposits_commute_150k_then_250k() {
    let mut s = fresh_store();
    let mut ctx = pay_ctx(400_000, 0);
    assert_eq!(s.pay_usdc(&mut ctx, 150_000).unwrap().credits_added, 1);
    assert_eq!(s.pay_usdc(&mut ctx, 250_000).unwrap().credits_added, 2);
    assert_eq!(s.credit_balance(USER), 3);
}

#[test]
fn deposits_commute_250k_then_150k() {
    let mut s = fresh_store();
    let mut ctx = pay_ctx(400_000, 0);
    assert_eq!(s.pay_usdc(&mut ctx, 250_000).unwrap().credits_added, 2);
    assert_eq!(s.pay_usdc(&mut ctx, 150_000).unwrap().credits_added, 1);
    assert_eq!(s.credit_balance(USER), 3);
}

fn store_with_credits(credits: u64) -> CreditsStore {
    let mut s = fresh_store();
    let mut ctx = pay_ctx(u64::MAX, 0);
    s.pay_usdc(&mut ctx, credits * CREDIT_UNIT).unwrap();
    assert_eq!(s.credit_balance(USER), credits);
    s
}

#[test]
fn consume_debits_exactly_the_amount() {
    let mut s = store_with_credits(5);
    let used = s
        .consume_credit(ConsumeCredit { spender: AUTHORITY, authority: AUTHORITY, user: USER }, 2)
        .unwrap();
    assert_eq!(used.user, USER);
    assert_eq!(used.amount, 2);
    assert_eq!(used.new_balance, 3);
    assert_eq!(s.credit_balance(USER), 3);
}

#[test]
fn consume_zero_fails_invalid_amount() {
    let mut s = store_with_credits(5);
    let r = s.consume_credit(ConsumeCredit { spender: AUTHORITY, authority: AUTHORITY, user: USER }, 0);
    assert_eq!(r, Err(CreditsError::InvalidAmount));
    assert_eq!(s.credit_balance(USER), 5);
}

#[test]
fn consume_rejects_caller_other_than_spender() {
    let mut s = store_with_credits(5);
    let r = s.consume_credit(ConsumeCredit { spender: 66, authority: AUTHORITY, user: USER }, 1);
    assert_eq!(r, Err(CreditsError::Unauthorized));
    assert_eq!(s.credit_balance(USER), 5);
}

#[test]
fn consume_follows_spender_rotation() {
    let mut s = store_with_credits(5);
    s.set_spender(SetSpender { caller: AUTHORITY, authority: AUTHORITY }, 55)
        .unwrap();
    let stale = s.consume_credit(ConsumeCredit { spender: AUTHORITY, authority: AUTHORITY, user: USER }, 1);
    assert_eq!(stale, Err(CreditsError::Unauthorized));
    let fresh = s.consume_credit(ConsumeCredit { spender: 55, authority: AUTHORITY, user: USER }, 1);
    assert_eq!(fresh.unwrap().new_balance, 4);
}

#[test]
fn consume_more_than_balance_fails_and_leaves_balance() {
    let mut s = store_with_credits(5);
    let r = s.consume_credit(ConsumeCredit { spender: AUTHORITY, authority: AUTHORITY, user: USER }, 6);
    assert_eq!(r, Err(CreditsError::InsufficientCredits));
    assert_eq!(s.credit_balance(USER), 5);
}

#[test]
fn consume_down_to_zero_then_nothing_more() {
    let mut s = store_with_credits(2);
    let ctx = ConsumeCredit { spender: AUTHORITY, authority: AUTHORITY, user: USER };
    assert_eq!(s.consume_credit(ctx, 2).unwrap().new_balance, 0);
    assert_eq!(s.consume_credit(ctx, 1), Err(CreditsError::InsufficientCredits));
    assert_eq!(s.credit_balance(USER), 0);
}

fn withdraw_ctx(caller: u64, vault_amount: u64, treasury_amount: u64) -> WithdrawUsdc {
    WithdrawUsdc {
        caller,
        authority: AUTHORITY,
        vault_usdc: TokenAccount { mint: MINT, owner: CONFIG_KEY, amount: vault_amount },
        treasury_usdc: TokenAccount { mint: MINT, owner: caller, amount: treasury_amount },
    }
}

#[test]
fn withdraw_moves_exact_amount_and_skips_ledger() {
    let mut s = store_with_credits(3);
    let mut ctx = withdraw_ctx(AUTHORITY, 500_000, 7);
    let w = s.withdraw_usdc(&mut ctx, 200_000).unwrap();
    assert_eq!(w.authority, AUTHORITY);
    assert_eq!(w.amount_base_units, 200_000);
    assert_eq!(ctx.vault_usdc.amount, 300_000);
    assert_eq!(ctx.treasury_usdc.amount, 200_007);
    assert_eq!(s.credit_balance(USER), 3);
}

#[test]
fn withdraw_rejects_caller_other_than_authority() {
    let s = fresh_store();
    let mut ctx = withdraw_ctx(66, 500_000, 0);
    assert_eq!(s.withdraw_usdc(&mut ctx, 100_000), Err(CreditsError::Unauthorized));
    assert_eq!(ctx.vault_usdc.amount, 500_000);
    assert_eq!(ctx.treasury_usdc.amount, 0);
}

#[test]
fn withdraw_zero_fails_invalid_amount() {
    let s = fresh_store();
    let mut ctx = withdraw_ctx(AUTHORITY, 500_000, 0);
    assert_eq!(s.withdraw_usdc(&mut ctx, 0), Err(CreditsError::InvalidAmount));
}

#[test]
fn withdraw_rejects_wrong_treasury_mint() {
    let s = fresh_store();
    let mut ctx = withdraw_ctx(AUTHORITY, 500_000, 0);
    ctx.treasury_usdc.mint = 99;
    assert_eq!(s.withdraw_usdc(&mut ctx, 100_000), Err(CreditsError::InvalidMint));
}

#[test]
fn withdraw_rejects_wrong_vault_mint() {
    let s = fresh_store();
    let mut ctx = withdraw_ctx(AUTHORITY, 500_000, 0);
    ctx.vault_usdc.mint = 99;
    assert_eq!(s.withdraw_usdc(&mut ctx, 100_000), Err(CreditsError::InvalidMint));
}

#[test]
fn withdraw_rejects_vault_not_owned_by_config() {
    let s = fresh_store();
    let mut ctx = withdraw_ctx(AUTHORITY, 500_000, 0);
    ctx.vault_usdc.owner = 99;
    assert_eq!(s.withdraw_usdc(&mut ctx, 100_000), Err(CreditsError::InvalidOwner));
}

#[test]
fn no_record_before_first_deposit() {
    let s = fresh_store();
    assert!(s.get_user_credit(USER).is_none());
    assert_eq!(s.credit_balance(USER), 0);
}

#[test]
fn record_created_on_first_deposit_owned_by_user() {
    let s = store_with_credits(1);
    let rec = s.get_user_credit(USER).unwrap();
    assert_eq!(rec.user, USER);
    assert_eq!(rec.credits, 1);
}
