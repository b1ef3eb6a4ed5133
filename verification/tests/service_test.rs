use storage_rent::Account;
use storage_rent::CallContext;
use storage_rent::Contract;
use storage_rent::RunningState;
use storage_rent::StorageError;
use storage_rent::StorageUsageTrackerData;
use storage_rent::MAX_IDENTIFIER_LENGTH;
use storage_rent::PRICE_PER_BYTE;
use storage_rent::RECORD_OVERHEAD;

const ONE_NEAR: u128 = 1_000_000_000_000_000_000_000_000;
const ONE_YOCTO: u128 = 1;

fn s(x: &str) -> String {
    x.to_string()
}

fn ctx(caller: &str, attached: u128) -> CallContext {
    CallContext { predecessor_id: s(caller), attached_deposit: attached }
}

#[test]
fn required_deposit_prices_overhead_plus_identifier() {
    // "bob" is 3 bytes: (40 + 3) * 10^19
    assert_eq!(
        Account::required_deposit(Some(&s("bob"))),
        430_000_000_000_000_000_000
    );
    // with no identifier, the longest permitted one is priced: (40 + 64) * 10^19
    assert_eq!(
        Account::required_deposit(None),
        1_040_000_000_000_000_000_000
    );
    assert_eq!(
        Account::required_deposit(None),
        (RECORD_OVERHEAD as u128 + MAX_IDENTIFIER_LENGTH as u128) * PRICE_PER_BYTE
    );
}

#[test]
fn deposit_of_zero_is_rejected() {
    let mut contract = Contract::init(Some(s("alice")), s("alice"));
    let result = contract.storage_deposit(&ctx("bob", 0), None, None);
    assert_eq!(result, Err(StorageError::InvalidDeposit));
    assert!(contract.storage_balance_of(&s("bob")).is_none());
}

#[test]
fn registration_only_below_minimum_is_rejected() {
    let mut contract = Contract::init(Some(s("alice")), s("alice"));
    let result = contract.storage_deposit(&ctx("bob", 5), None, Some(true));
    assert_eq!(result, Err(StorageError::InsufficientDeposit));
    assert!(contract.storage_balance_of(&s("bob")).is_none());
}

#[test]
fn fresh_deposit_below_minimum_is_rejected() {
    let mut contract = Contract::init(Some(s("alice")), s("alice"));
    let result = contract.storage_deposit(&ctx("bob", 5), None, None);
    assert_eq!(result, Err(StorageError::InvariantViolation));
    assert!(contract.storage_balance_of(&s("bob")).is_none());
}

#[test]
fn registration_only_refunds_the_excess() {
    let mut contract = Contract::init(Some(s("alice")), s("alice"));
    let min = Account::required_deposit(Some(&s("bob")));

    let outcome = contract
        .storage_deposit(&ctx("bob", ONE_NEAR), None, Some(true))
        .unwrap();
    assert_eq!(outcome.refund, ONE_NEAR - min);
    assert_eq!(outcome.balance.total, min);
    assert_eq!(outcome.balance.available, 0);
}

#[test]
fn registration_only_on_registered_account_refunds_everything() {
    let mut contract = Contract::init(Some(s("alice")), s("alice"));
    contract
        .storage_deposit(&ctx("bob", ONE_NEAR), None, None)
        .unwrap();

    let outcome = contract
        .storage_deposit(&ctx("bob", 7 * ONE_NEAR), None, Some(true))
        .unwrap();
    assert_eq!(outcome.refund, 7 * ONE_NEAR);
    // the balance is untouched
    assert_eq!(outcome.balance.total, ONE_NEAR);
    assert_eq!(contract.storage_balance_of(&s("bob")).unwrap().total, ONE_NEAR);
}

#[test]
fn deposit_tops_up_a_registered_account() {
    let mut contract = Contract::init(Some(s("alice")), s("alice"));
    contract
        .storage_deposit(&ctx("bob", ONE_NEAR), None, None)
        .unwrap();

    let outcome = contract
        .storage_deposit(&ctx("bob", 2 * ONE_NEAR), None, None)
        .unwrap();
    assert_eq!(outcome.refund, 0);
    assert_eq!(outcome.balance.total, 3 * ONE_NEAR);
    assert_eq!(
        outcome.balance.available,
        3 * ONE_NEAR - Account::required_deposit(Some(&s("bob")))
    );
}

#[test]
fn deposit_may_target_another_identifier() {
    let mut contract = Contract::init(Some(s("alice")), s("alice"));
    let min = Account::required_deposit(Some(&s("carol")));

    // bob pays carol's registration; the excess is owed back to bob
    let outcome = contract
        .storage_deposit(&ctx("bob", ONE_NEAR), Some(s("carol")), Some(true))
        .unwrap();
    assert_eq!(outcome.refund, ONE_NEAR - min);
    assert!(contract.storage_balance_of(&s("carol")).is_some());
    assert!(contract.storage_balance_of(&s("bob")).is_none());
}

#[test]
fn deposit_fails_fast_on_a_tracker_left_mid_measurement() {
    let mut contract = Contract::init(Some(s("alice")), s("alice"));
    contract.tracker.track(5).unwrap();

    let result = contract.storage_deposit(&ctx("bob", ONE_NEAR), None, None);
    assert_eq!(result, Err(StorageError::TrackerInUse));
    assert!(contract.storage_balance_of(&s("bob")).is_none());
}

#[test]
fn overflowing_deposit_leaves_the_account_unchanged() {
    let account_id = s("bob");
    let mut contract = Contract::init(Some(s("alice")), s("alice"));
    contract
        .accounts
        .insert(Account::new(&account_id, Some(u128::MAX)));

    let result = contract.storage_deposit(&ctx(&account_id, ONE_NEAR), None, None);
    assert_eq!(result, Err(StorageError::Overflow));
    let account = contract.get_account(&account_id).unwrap();
    assert_eq!(account.storage_balance, u128::MAX);
}

#[test]
fn withdraw_needs_the_confirmation_token() {
    let mut contract = Contract::init(Some(s("alice")), s("alice"));
    contract
        .storage_deposit(&ctx("bob", ONE_NEAR), None, None)
        .unwrap();

    let result = contract.storage_withdraw(&ctx("bob", 0), None);
    assert_eq!(result, Err(StorageError::MissingConfirmation));
    let result = contract.storage_withdraw(&ctx("bob", 2), None);
    assert_eq!(result, Err(StorageError::MissingConfirmation));
}

#[test]
fn withdraw_defaults_to_the_whole_available_balance() {
    let mut contract = Contract::init(Some(s("alice")), s("alice"));
    let min = Account::required_deposit(Some(&s("bob")));
    contract
        .storage_deposit(&ctx("bob", 3 * ONE_NEAR), None, None)
        .unwrap();

    let outcome = contract.storage_withdraw(&ctx("bob", ONE_YOCTO), None).unwrap();
    assert_eq!(outcome.payout, 3 * ONE_NEAR - min);
    assert_eq!(outcome.balance.total, min);
    assert_eq!(outcome.balance.available, 0);
}

#[test]
fn withdraw_from_unregistered_account_is_not_found() {
    let mut contract = Contract::init(Some(s("alice")), s("alice"));
    let result = contract.storage_withdraw(&ctx("bob", ONE_YOCTO), None);
    assert_eq!(result, Err(StorageError::NotFound));
}

#[test]
fn explicit_withdraw_between_available_and_total_fails_late() {
    // An explicit amount is only checked against the total, so a request
    // between the available and total balances passes that check and fails
    // when the final view is computed, as an internal-consistency error.
    let account_id = s("bob");
    let mut contract = Contract::init(Some(s("alice")), s("alice"));
    let min = Account::required_deposit(Some(&account_id));
    contract
        .accounts
        .insert(Account::new(&account_id, Some(min + 10)));

    let result = contract.storage_withdraw(&ctx(&account_id, ONE_YOCTO), Some(20));
    assert_eq!(result, Err(StorageError::InvariantViolation));
    // the account is exactly as it was
    assert_eq!(contract.get_account(&account_id).unwrap().storage_balance, min + 10);
}

#[test]
fn unregister_needs_the_confirmation_token() {
    let mut contract = Contract::init(Some(s("alice")), s("alice"));
    let result = contract.storage_unregister(&ctx("bob", 0), None);
    assert_eq!(result, Err(StorageError::MissingConfirmation));
}

#[test]
fn unregister_pays_the_whole_balance_out() {
    let account_id = s("bob");
    let mut contract = Contract::init(Some(s("alice")), s("alice"));
    contract
        .accounts
        .insert(Account::new(&account_id, Some(ONE_NEAR)));

    let outcome = contract
        .storage_unregister(&ctx(&account_id, ONE_YOCTO), Some(true))
        .unwrap();
    assert_eq!(outcome.removed, true);
    assert_eq!(outcome.payout, ONE_NEAR);
    assert!(contract.storage_balance_of(&account_id).is_none());
    assert!(matches!(
        contract.get_account(&account_id),
        Err(StorageError::NotFound)
    ));
}

#[test]
fn refused_unregister_leaves_the_account_untouched() {
    let account_id = s("bob");
    let mut contract = Contract::init(Some(s("alice")), s("alice"));
    contract
        .accounts
        .insert(Account::new(&account_id, Some(ONE_NEAR)));

    let result = contract.storage_unregister(&ctx(&account_id, ONE_YOCTO), Some(false));
    assert_eq!(result, Err(StorageError::PolicyViolation));
    let account = contract.get_account(&account_id).unwrap();
    assert_eq!(account.storage_balance, ONE_NEAR);
}

#[test]
fn paused_service_rejects_mutations_but_answers_reads() {
    let mut contract = Contract::init(Some(s("alice")), s("alice"));
    contract
        .storage_deposit(&ctx("bob", ONE_NEAR), None, None)
        .unwrap();

    contract
        .set_running_state(&s("alice"), RunningState::Paused)
        .unwrap();

    let result = contract.storage_deposit(&ctx("bob", ONE_NEAR), None, None);
    assert_eq!(result, Err(StorageError::Paused));
    let result = contract.storage_withdraw(&ctx("bob", ONE_YOCTO), None);
    assert_eq!(result, Err(StorageError::Paused));
    let result = contract.storage_unregister(&ctx("bob", ONE_YOCTO), None);
    assert_eq!(result, Err(StorageError::Paused));

    // reads are always permitted
    assert_eq!(contract.storage_balance_of(&s("bob")).unwrap().total, ONE_NEAR);
    assert!(!contract.is_running());
}

#[test]
fn only_the_owner_may_toggle_the_running_state() {
    let mut contract = Contract::init(Some(s("alice")), s("alice"));
    let result = contract.set_running_state(&s("bob"), RunningState::Paused);
    assert_eq!(result, Err(StorageError::Unauthorized));
    assert!(contract.is_running());
    assert!(contract.is_owner(&s("alice")));
    assert!(!contract.is_owner(&s("bob")));
}

#[test]
fn tracker_refuses_nested_or_unstarted_measurements() {
    let mut tracker = StorageUsageTrackerData::default();
    assert!(!tracker.tracking());

    assert_eq!(tracker.finish(0, 0), Err(StorageError::TrackerIdle));

    tracker.track(100).unwrap();
    assert!(tracker.tracking());
    assert_eq!(tracker.track(200), Err(StorageError::TrackerInUse));

    assert_eq!(tracker.finish(7, 130), Ok(37));
    assert!(!tracker.tracking());
}

#[test]
fn tracker_checks_the_adjustment_range() {
    let mut tracker = StorageUsageTrackerData::default();
    tracker.track(0).unwrap();
    assert_eq!(tracker.finish(u64::MAX, 10), Err(StorageError::Overflow));

    let mut tracker = StorageUsageTrackerData::default();
    tracker.track(100).unwrap();
    assert_eq!(tracker.finish(5, 40), Err(StorageError::Overflow));

    // a shrinking store reduces the adjusted value
    let mut tracker = StorageUsageTrackerData::default();
    tracker.track(100).unwrap();
    assert_eq!(tracker.finish(80, 40), Ok(20));
}

#[test]
fn ledger_byte_counter_follows_registration_and_removal() {
    let account_id = s("bob");
    let mut contract = Contract::init(Some(s("alice")), s("alice"));
    assert_eq!(contract.accounts.storage_usage(), 0);

    contract
        .storage_deposit(&ctx(&account_id, ONE_NEAR), None, None)
        .unwrap();
    // overhead of 40 bytes plus the 3 bytes of "bob"
    assert_eq!(contract.accounts.storage_usage(), 43);
    assert_eq!(contract.get_account(&account_id).unwrap().storage_usage, 43);

    contract
        .storage_unregister(&ctx(&account_id, ONE_YOCTO), Some(true))
        .unwrap();
    assert_eq!(contract.accounts.storage_usage(), 0);
}
