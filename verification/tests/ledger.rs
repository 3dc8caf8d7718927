use wallet_recovery::account::{AccountId, AuthFactor, AuthKeysId, AuthPubkey, Factor};
use wallet_recovery::entities::{
    DelayNotifyRecoveryAction, DelayNotifyRequirements, RecoveryAction, RecoveryDestination,
    RecoveryRequirements, RecoveryStatus, RecoveryType, WalletRecovery,
};
use wallet_recovery::error::RecoveryError;
use wallet_recovery::instant::Timestamp;
use wallet_recovery::ledger::RecoveryLedger;
use wallet_recovery::service::World;
use wallet_recovery::state_machine::{Effect, PendingRecoveryState};

fn at(seconds: i64) -> Timestamp {
    Timestamp::from_unix_seconds(seconds).unwrap()
}

fn key(tag: u8) -> AuthPubkey {
    AuthPubkey { bytes: [tag; 33] }
}

fn record(account: u128, created: i64, status: RecoveryStatus, tag: u8) -> WalletRecovery {
    WalletRecovery {
        account_id: AccountId { value: account },
        created_at: at(created),
        recovery_status: status,
        recovery_type: RecoveryType::DelayAndNotify,
        requirements: RecoveryRequirements {
            delay_notify_requirements: Some(DelayNotifyRequirements {
                lost_factor: Factor::Hw,
                delay_end_time: at(created + 100),
            }),
        },
        recovery_action: RecoveryAction {
            delay_notify_action: Some(DelayNotifyRecoveryAction {
                destination: RecoveryDestination {
                    source_auth_keys_id: AuthKeysId { value: 9 },
                    app_auth_pubkey: key(tag),
                    hardware_auth_pubkey: key(tag + 1),
                    recovery_auth_pubkey: Some(key(tag + 2)),
                },
            }),
        },
        updated_at: at(created),
    }
}

fn world(now: i64) -> World {
    World {
        now: at(now),
        app_key_owner: None,
        recovery_key_owner: None,
        hardware_key_owner: None,
        comms_verified: true,
        spending_limit_accepted: true,
        notifications_accepted: true,
    }
}

#[test]
fn second_record_under_one_key_is_turned_down() {
    let mut ledger = RecoveryLedger::new();
    assert_eq!(ledger.len(), 0);
    assert_eq!(ledger.get(0), None);
    let first = record(1, 10, RecoveryStatus::Pending, 10);
    assert_eq!(ledger.create(&first), Ok(()));
    assert_eq!(ledger.create(&record(1, 10, RecoveryStatus::Canceled, 20)), Err(RecoveryError::Repository));
    assert_eq!(ledger.len(), 1);
    assert_eq!(ledger.get(0), Some(first));
    // Another account or another time is another key.
    assert_eq!(ledger.create(&record(2, 10, RecoveryStatus::Pending, 30)), Ok(()));
    assert_eq!(ledger.create(&record(1, 11, RecoveryStatus::Canceled, 40)), Ok(()));
    assert_eq!(ledger.len(), 3);
    assert_eq!(ledger.fetch(AccountId { value: 1 }, at(10)), Some(first));
    assert_eq!(ledger.fetch(AccountId { value: 3 }, at(10)), None);
}

#[test]
fn completion_marks_the_record_and_notes_the_time() {
    let mut ledger = RecoveryLedger::new();
    let first = record(1, 10, RecoveryStatus::Pending, 10);
    let second = record(2, 10, RecoveryStatus::Pending, 20);
    ledger.create(&first).unwrap();
    ledger.create(&second).unwrap();
    assert_eq!(
        ledger.complete(AccountId { value: 2 }, at(10), RecoveryStatus::Completed, at(50)),
        Ok(())
    );
    assert_eq!(ledger.get(0), Some(first));
    let mut expected = second;
    expected.recovery_status = RecoveryStatus::Completed;
    expected.updated_at = at(50);
    assert_eq!(ledger.get(1), Some(expected));
    assert_eq!(
        ledger.complete(AccountId { value: 2 }, at(11), RecoveryStatus::Completed, at(50)),
        Err(RecoveryError::Repository)
    );
    assert_eq!(ledger.get(1), Some(expected));
}

#[test]
fn requirements_are_replaced_under_the_key() {
    let mut ledger = RecoveryLedger::new();
    let first = record(1, 10, RecoveryStatus::Pending, 10);
    ledger.create(&first).unwrap();
    let none = RecoveryRequirements { delay_notify_requirements: None };
    assert_eq!(ledger.update_recovery_requirements(AccountId { value: 1 }, at(10), none, at(60)), Ok(()));
    let mut expected = first;
    expected.requirements = none;
    expected.updated_at = at(60);
    assert_eq!(ledger.get(0), Some(expected));
    assert_eq!(
        ledger.update_recovery_requirements(AccountId { value: 9 }, at(10), none, at(60)),
        Err(RecoveryError::Repository)
    );
}

#[test]
fn pending_record_of_an_account_is_found() {
    let mut ledger = RecoveryLedger::new();
    let id = AccountId { value: 1 };
    assert_eq!(ledger.fetch_pending(&id, RecoveryType::DelayAndNotify), None);
    ledger.create(&record(1, 10, RecoveryStatus::Canceled, 10)).unwrap();
    ledger.create(&record(2, 11, RecoveryStatus::Pending, 20)).unwrap();
    assert_eq!(ledger.fetch_pending(&id, RecoveryType::DelayAndNotify), None);
    let pending = record(1, 12, RecoveryStatus::Pending, 30);
    ledger.create(&pending).unwrap();
    assert_eq!(ledger.fetch_pending(&id, RecoveryType::DelayAndNotify), Some(pending));
    assert_eq!(PendingRecoveryState::reloaded(Some(pending)), Ok(PendingRecoveryState { recovery: pending }));
    assert_eq!(PendingRecoveryState::reloaded(None), Err(RecoveryError::NoExistingRecovery));
}

#[test]
fn proposed_keys_are_found_by_factor_and_status() {
    let mut ledger = RecoveryLedger::new();
    ledger.create(&record(1, 10, RecoveryStatus::Pending, 10)).unwrap();
    ledger.create(&record(2, 10, RecoveryStatus::Canceled, 20)).unwrap();
    let pending = RecoveryStatus::Pending;
    assert!(ledger.has_recovery_by_auth_pubkey(AuthFactor::App, &key(10), pending));
    assert!(ledger.has_recovery_by_auth_pubkey(AuthFactor::Hw, &key(11), pending));
    assert!(ledger.has_recovery_by_auth_pubkey(AuthFactor::Recovery, &key(12), pending));
    assert!(!ledger.has_recovery_by_auth_pubkey(AuthFactor::Hw, &key(10), pending));
    assert!(!ledger.has_recovery_by_auth_pubkey(AuthFactor::App, &key(11), pending));
    assert!(!ledger.has_recovery_by_auth_pubkey(AuthFactor::App, &key(20), pending));
    assert!(ledger.has_recovery_by_auth_pubkey(AuthFactor::App, &key(20), RecoveryStatus::Canceled));
}

#[test]
fn effects_are_settled_in_order_up_to_the_first_refusal() {
    let mut ledger = RecoveryLedger::new();
    let first = record(1, 10, RecoveryStatus::Pending, 10);
    let effects = vec![
        Effect::CreateRecovery { recovery: first },
        Effect::RecordCreation { lost_factor: Factor::Hw, created_during_contest: false },
        Effect::CompleteRecovery {
            account_id: AccountId { value: 1 },
            created_at: at(10),
            status: RecoveryStatus::Canceled,
        },
        // The key is taken: the store turns the write down.
        Effect::CreateRecovery { recovery: first },
        Effect::CreateRecovery { recovery: record(5, 5, RecoveryStatus::Pending, 50) },
    ];
    assert_eq!(ledger.settle(&effects, &world(20)), Err(RecoveryError::Repository));
    assert_eq!(ledger.len(), 1);
    assert_eq!(ledger.get(0).unwrap().recovery_status, RecoveryStatus::Canceled);
    assert_eq!(ledger.get(0).unwrap().updated_at, at(20));
    assert_eq!(ledger.settle(&vec![], &world(20)), Ok(()));
}

#[test]
fn each_effect_names_its_refusal() {
    let id = AccountId { value: 1 };
    let mut closed = world(20);
    closed.comms_verified = false;
    closed.spending_limit_accepted = false;
    closed.notifications_accepted = false;
    let first = record(1, 10, RecoveryStatus::Pending, 10);
    let refused = vec![
        Effect::ConsumeCommsVerification {
            account_id: id,
            scope: wallet_recovery::entities::CommsVerificationScope::DelayNotifyActor(
                wallet_recovery::entities::Actor::App,
            ),
        },
        Effect::UpdateSpendingLimit { account_id: id, new_spending_limit: None },
        Effect::SendNotification {
            account_id: id,
            canceled: wallet_recovery::state_machine::RecoveryCanceledDelayPeriodPayload {
                initiation_time: at(1),
                lost_factor: Factor::App,
            },
        },
        Effect::CompleteRecovery { account_id: id, created_at: at(1), status: RecoveryStatus::Canceled },
        Effect::UpdateRecoveryRequirements {
            account_id: id,
            created_at: at(1),
            requirements: first.requirements,
        },
    ];
    let errors = [
        RecoveryError::CommsVerification,
        RecoveryError::AccountService,
        RecoveryError::SendNotificationError,
        RecoveryError::Repository,
        RecoveryError::Repository,
    ];
    for (effect, error) in refused.iter().zip(errors) {
        let mut ledger = RecoveryLedger::new();
        assert_eq!(effect.refusal(), Some(error));
        assert_eq!(ledger.settle(&vec![*effect], &closed), Err(error));
    }
    let counted = Effect::RecordCreation { lost_factor: Factor::App, created_during_contest: true };
    assert_eq!(counted.refusal(), None);
    assert_eq!(Effect::CreateRecovery { recovery: first }.refusal(), Some(RecoveryError::Repository));
}
