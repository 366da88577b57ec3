use memecoin_ft::access;
use memecoin_ft::ledger::Ledger;
use memecoin_ft::storage::{settle_storage, ACCOUNT_STORAGE_COST, STORAGE_PRICE_PER_UNIT};
use memecoin_ft::Contract;
use memecoin_ft::ErrorClass;
use memecoin_ft::Feature;
use memecoin_ft::LogData;
use memecoin_ft::TokenError;
use memecoin_ft::TokenMetadata;

const ONE_YOCTO: u128 = 1;

fn valid_metadata() -> TokenMetadata {
    TokenMetadata {
        spec_version: "ft-1.0.0".to_string(),
        name: "Token".to_string(),
        symbol: "TOK".to_string(),
        icon: None,
        reference: None,
        reference_hash: None,
        decimals: 8,
    }
}

#[test]
fn ledger_register_deposit_withdraw() {
    let mut l = Ledger::new();
    assert_eq!(l.total_supply(), 0);
    assert_eq!(l.balance_of(7), 0);
    assert!(!l.is_registered(7));

    l.register(7).unwrap();
    assert!(l.is_registered(7));
    assert_eq!(l.balance_of(7), 0);
    assert_eq!(l.register(7), Err(TokenError::AlreadyRegistered));

    l.deposit(7, 250).unwrap();
    assert_eq!(l.balance_of(7), 250);
    assert_eq!(l.total_supply(), 250);
    assert_eq!(l.deposit(8, 1), Err(TokenError::NotRegistered));

    assert_eq!(l.withdraw(7, 251), Err(TokenError::InsufficientBalance));
    l.withdraw(7, 100).unwrap();
    assert_eq!(l.balance_of(7), 150);
    assert_eq!(l.total_supply(), 150);
}

#[test]
fn ledger_deposit_overflow() {
    let mut l = Ledger::new();
    l.register(1).unwrap();
    l.deposit(1, u128::MAX).unwrap();
    l.register(2).unwrap();
    assert_eq!(l.deposit(2, 1), Err(TokenError::Overflow));
    assert_eq!(l.balance_of(2), 0);
    assert_eq!(l.total_supply(), u128::MAX);
}

#[test]
fn ledger_unregister_requires_zero_balance() {
    let mut l = Ledger::new();
    l.register(5).unwrap();
    l.deposit(5, 3).unwrap();
    assert_eq!(l.unregister(5), Err(TokenError::BalanceNonZero));
    assert_eq!(l.unregister(6), Err(TokenError::NotRegistered));
    l.withdraw(5, 3).unwrap();
    l.unregister(5).unwrap();
    assert!(!l.is_registered(5));
    assert_eq!(l.total_supply(), 0);
}

#[test]
fn settle_storage_growth_and_shrink() {
    // Growth of 10 units: charge 10 * price, refund the excess.
    let r = settle_storage(100, 110, 11 * STORAGE_PRICE_PER_UNIT, STORAGE_PRICE_PER_UNIT);
    assert_eq!(r, Ok(STORAGE_PRICE_PER_UNIT));
    // Exactly covered: nothing back.
    let r = settle_storage(100, 110, 10 * STORAGE_PRICE_PER_UNIT, STORAGE_PRICE_PER_UNIT);
    assert_eq!(r, Ok(0));
    // Not covered: the whole call must abort.
    let r = settle_storage(100, 110, 10 * STORAGE_PRICE_PER_UNIT - 1, STORAGE_PRICE_PER_UNIT);
    assert_eq!(r, Err(TokenError::InsufficientStorageDeposit));
    // Storage freed: the caller is owed the released cost on top of the
    // attached deposit.
    let r = settle_storage(110, 100, 5, STORAGE_PRICE_PER_UNIT);
    assert_eq!(r, Ok(10 * STORAGE_PRICE_PER_UNIT + 5));
    // No change: everything attached flows back.
    let r = settle_storage(100, 100, 42, STORAGE_PRICE_PER_UNIT);
    assert_eq!(r, Ok(42));
    // A delta so large the charge cannot be represented.
    let r = settle_storage(0, u64::MAX, 0, u128::MAX);
    assert_eq!(r, Err(TokenError::Overflow));
}

#[test]
fn register_account_storage_accounting() {
    let mut c = Contract::new_default_meta(1, 1_000).unwrap();
    assert_eq!(
        c.register_account(2, ACCOUNT_STORAGE_COST - 1),
        Err(TokenError::InsufficientStorageDeposit)
    );
    assert_eq!(c.register_account(2, ACCOUNT_STORAGE_COST + 55), Ok(55));
    assert_eq!(
        c.register_account(2, ACCOUNT_STORAGE_COST),
        Err(TokenError::AlreadyRegistered)
    );
    // Unregistration refunds the storage cost and logs the closure.
    assert_eq!(c.unregister_account(2), Ok(ACCOUNT_STORAGE_COST));
    assert_eq!(
        c.events().last(),
        Some(&memecoin_ft::Event::AccountClosed {
            account: 2,
            balance: 0
        })
    );
}

#[test]
fn metadata_validity_rules() {
    assert!(valid_metadata().is_valid());

    let mut m = valid_metadata();
    m.name = String::new();
    assert!(!m.is_valid());

    let mut m = valid_metadata();
    m.symbol = String::new();
    assert!(!m.is_valid());

    // Reference and hash must come together.
    let mut m = valid_metadata();
    m.reference = Some("ipfs://x".to_string());
    assert!(!m.is_valid());

    let mut m = valid_metadata();
    m.reference = Some("ipfs://x".to_string());
    m.reference_hash = Some(vec![0u8; 32]);
    assert!(m.is_valid());

    // A hash of the wrong length is rejected.
    let mut m = valid_metadata();
    m.reference = Some("ipfs://x".to_string());
    m.reference_hash = Some(vec![0u8; 31]);
    assert!(!m.is_valid());
}

#[test]
fn new_rejects_invalid_metadata() {
    let mut m = valid_metadata();
    m.name = String::new();
    let r = Contract::new(1, 1_000, m, false, false, false);
    assert!(matches!(r, Err(TokenError::InvalidMetadata)));
}

#[test]
fn update_metadata_rejects_invalid_record() {
    let mut c = Contract::new_default_meta(1, 1_000).unwrap();
    c.update_use_update_metadata(1, ONE_YOCTO, true).unwrap();
    let mut m = valid_metadata();
    m.symbol = String::new();
    assert_eq!(
        c.update_metadata(1, ONE_YOCTO, m),
        Err(TokenError::InvalidMetadata)
    );
    assert_eq!(c.ft_metadata().symbol, "EXAMPLE");
}

#[test]
fn transfer_rejections() {
    let mut c = Contract::new_default_meta(1, 1_000).unwrap();
    c.register_account(2, ACCOUNT_STORAGE_COST).unwrap();

    assert_eq!(c.ft_transfer(1, 0, 2, 10, None), Err(TokenError::DepositMismatch));
    assert_eq!(c.ft_transfer(1, 2, 2, 10, None), Err(TokenError::DepositMismatch));
    assert_eq!(c.ft_transfer(1, 1, 1, 10, None), Err(TokenError::SelfTransfer));
    assert_eq!(c.ft_transfer(1, 1, 2, 0, None), Err(TokenError::ZeroAmount));
    assert_eq!(c.ft_transfer(1, 1, 3, 10, None), Err(TokenError::NotRegistered));
    assert_eq!(
        c.ft_transfer(1, 1, 2, 1_001, None),
        Err(TokenError::InsufficientBalance)
    );
    // An unregistered sender holds nothing.
    assert_eq!(
        c.ft_transfer(4, 1, 2, 10, None),
        Err(TokenError::InsufficientBalance)
    );
    // Nothing moved.
    assert_eq!(c.ft_balance_of(1), 1_000);
    assert_eq!(c.ft_balance_of(2), 0);
}

#[test]
fn transfer_call_rejection_leaves_no_pending_effect() {
    let mut c = Contract::new_default_meta(1, 1_000).unwrap();
    let r = c.ft_transfer_call(1, 1, 3, 10, None, "m".to_string());
    assert!(matches!(r, Err(TokenError::NotRegistered)));
    assert_eq!(c.ft_balance_of(1), 1_000);
}

#[test]
fn mint_overflow_rejected() {
    let mut c = Contract::new_default_meta(1, 1_000).unwrap();
    c.update_use_mint(1, ONE_YOCTO, true).unwrap();
    assert_eq!(c.mint(1, ONE_YOCTO, u128::MAX), Err(TokenError::Overflow));
    assert_eq!(c.ft_total_supply(), 1_000);
}

#[test]
fn mint_deposit_mismatch() {
    let mut c = Contract::new_default_meta(1, 1_000).unwrap();
    c.update_use_mint(1, ONE_YOCTO, true).unwrap();
    assert_eq!(c.mint(1, 2, 5), Err(TokenError::DepositMismatch));
    assert_eq!(c.mint(1, ONE_YOCTO, 5), Ok(()));
    assert_eq!(c.ft_total_supply(), 1_005);
}

#[test]
fn is_frozen_gated_by_feature() {
    let mut c = Contract::new_default_meta(1, 1_000).unwrap();
    assert_eq!(
        c.is_frozen(2),
        Err(TokenError::FeatureDisabled(Feature::Freeze))
    );
    c.update_use_freeze(1, ONE_YOCTO, true).unwrap();
    assert_eq!(c.is_frozen(2), Ok(false));
    c.freeze_account(1, ONE_YOCTO, 2).unwrap();
    assert_eq!(c.is_frozen(2), Ok(true));
    // Freezing is idempotent.
    c.freeze_account(1, ONE_YOCTO, 2).unwrap();
    assert_eq!(c.is_frozen(2), Ok(true));
    c.unfreeze_account(1, ONE_YOCTO, 2).unwrap();
    assert_eq!(c.is_frozen(2), Ok(false));
}

#[test]
fn freeze_requires_feature() {
    let mut c = Contract::new_default_meta(1, 1_000).unwrap();
    let e = c.freeze_account(1, ONE_YOCTO, 2).unwrap_err();
    assert_eq!(e, TokenError::FeatureDisabled(Feature::Freeze));
    assert_eq!(e.class(), ErrorClass::Authorization);
}

#[test]
fn access_gates() {
    assert_eq!(access::require_owner(4, 4), Ok(()));
    assert_eq!(access::require_owner(4, 5), Err(TokenError::NotOwner));
    assert_eq!(access::require_exact_one_unit_deposit(1), Ok(()));
    assert_eq!(
        access::require_exact_one_unit_deposit(0),
        Err(TokenError::DepositMismatch)
    );
    assert_eq!(access::require_feature_enabled(true, Feature::Mint), Ok(()));
    assert_eq!(
        access::require_feature_enabled(false, Feature::Mint),
        Err(TokenError::FeatureDisabled(Feature::Mint))
    );
}

#[test]
fn error_classes() {
    assert_eq!(TokenError::NotOwner.class(), ErrorClass::Authorization);
    assert_eq!(
        TokenError::FeatureDisabled(Feature::Freeze).class(),
        ErrorClass::Authorization
    );
    assert_eq!(TokenError::DepositMismatch.class(), ErrorClass::Validation);
    assert_eq!(TokenError::ZeroAmount.class(), ErrorClass::Validation);
    assert_eq!(TokenError::SelfTransfer.class(), ErrorClass::Validation);
    assert_eq!(TokenError::InvalidMetadata.class(), ErrorClass::Validation);
    assert_eq!(TokenError::AlreadyRegistered.class(), ErrorClass::State);
    assert_eq!(TokenError::NotRegistered.class(), ErrorClass::State);
    assert_eq!(TokenError::SenderFrozen.class(), ErrorClass::State);
    assert_eq!(TokenError::ReceiverFrozen.class(), ErrorClass::State);
    assert_eq!(TokenError::BalanceNonZero.class(), ErrorClass::State);
    assert_eq!(TokenError::Overflow.class(), ErrorClass::Arithmetic);
    assert_eq!(TokenError::InsufficientBalance.class(), ErrorClass::Arithmetic);
    assert_eq!(
        TokenError::InsufficientStorageDeposit.class(),
        ErrorClass::Storage
    );
}

#[test]
fn log_data_holds_its_fields() {
    let d = LogData::new("update_use_mint".to_string(), "true".to_string());
    assert_eq!(d.event, "update_use_mint");
    assert_eq!(d.details, "true");
}

#[test]
fn largest_supply_moves_whole() {
    let mut c = Contract::new_default_meta(1, u128::MAX).unwrap();
    assert_eq!(c.ft_total_supply(), u128::MAX);
    c.register_account(2, ACCOUNT_STORAGE_COST).unwrap();
    // The whole balance can move at once.
    c.ft_transfer(1, 1, 2, u128::MAX, None).unwrap();
    assert_eq!(c.ft_balance_of(1), 0);
    assert_eq!(c.ft_balance_of(2), u128::MAX);
    assert_eq!(c.ft_total_supply(), u128::MAX);
}

#[test]
fn resolve_of_zero_amount_changes_nothing() {
    let mut c = Contract::new_default_meta(1, 1_000).unwrap();
    c.register_account(2, ACCOUNT_STORAGE_COST).unwrap();
    let r = c.ft_resolve_transfer(1, 2, 0, Some(0));
    assert_eq!(r, (0, 0));
    assert_eq!(c.ft_balance_of(1), 1_000);
    assert_eq!(c.ft_balance_of(2), 0);
}
