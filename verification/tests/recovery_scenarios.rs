use secp256k1::hashes::sha256;
use secp256k1::{Message, PublicKey, Secp256k1, SecretKey};
use wallet_recovery::account::{
    AccountId, AuthKeysId, AuthPubkey, Factor, FullAccount, FullAccountAuthKeys, KeysetId,
    SpendingLimit,
};
use wallet_recovery::entities::{
    Actor, CommsVerificationScope, RecoveryDestination, RecoveryStatus, RecoveryType,
};
use wallet_recovery::error::RecoveryError;
use wallet_recovery::instant::{Duration, Timestamp};
use wallet_recovery::key_claims::{CognitoUsername, KeyClaims};
use wallet_recovery::ledger::RecoveryLedger;
use wallet_recovery::service::World;
use wallet_recovery::state_machine::{Effect, NextState, RecoveryEvent, RecoveryState, Step};

const T: i64 = 1_700_000_000;
const DAY: i64 = 86_400;

fn secret(seed: u8) -> SecretKey {
    SecretKey::from_slice(&[seed; 32]).unwrap()
}

fn pubkey(seed: u8) -> AuthPubkey {
    let secp = Secp256k1::new();
    AuthPubkey { bytes: PublicKey::from_secret_key(&secp, &secret(seed)).serialize() }
}

fn sign(seed: u8, challenge: &str) -> String {
    let secp = Secp256k1::new();
    let message = Message::from_hashed_data::<sha256::Hash>(challenge.as_bytes());
    secp.sign_ecdsa(&message, &secret(seed)).to_string()
}

fn at(seconds: i64) -> Timestamp {
    Timestamp::from_unix_seconds(seconds).unwrap()
}

fn account(test_account: bool) -> FullAccount {
    FullAccount {
        id: AccountId { value: 7 },
        active_auth_keys_id: AuthKeysId { value: 70 },
        active_auth_keys: Some(FullAccountAuthKeys {
            app_pubkey: pubkey(1),
            hardware_pubkey: pubkey(2),
            recovery_pubkey: None,
        }),
        active_keyset_id: KeysetId { value: 700 },
        spending_limit: Some(SpendingLimit {
            active: true,
            amount: 5_000,
            currency_code: 840,
            time_zone_offset_seconds: -18_000,
        }),
        is_test_account: test_account,
        recovery_delay_period: Duration::days(7),
    }
}

// A lost application key: the hardware key stays, the application key is new.
fn destination() -> RecoveryDestination {
    RecoveryDestination {
        source_auth_keys_id: AuthKeysId { value: 70 },
        app_auth_pubkey: pubkey(11),
        hardware_auth_pubkey: pubkey(2),
        recovery_auth_pubkey: None,
    }
}

fn key_proof(app_signed: bool, hw_signed: bool) -> KeyClaims {
    KeyClaims {
        account_id: String::from("urn:wallet-account:7"),
        username: CognitoUsername { value: String::from("urn:wallet-account:7") },
        app_signed,
        hw_signed,
    }
}

fn world(now: i64) -> World {
    World {
        now: at(now),
        app_key_owner: None,
        recovery_key_owner: None,
        hardware_key_owner: Some(AccountId { value: 7 }),
        comms_verified: true,
        spending_limit_accepted: true,
        notifications_accepted: true,
    }
}

fn create_event() -> RecoveryEvent {
    RecoveryEvent::CreateRecovery {
        account: account(false),
        lost_factor: Factor::App,
        destination: destination(),
        key_proof: key_proof(false, true),
    }
}

fn check_event(app_seed: u8, hw_seed: u8) -> RecoveryEvent {
    RecoveryEvent::CheckEligibleForCompletion {
        challenge: String::from("challenge"),
        app_signature: sign(app_seed, "challenge"),
        hardware_signature: sign(hw_seed, "challenge"),
    }
}

fn pending_count(ledger: &RecoveryLedger) -> usize {
    let mut count = 0;
    for i in 0..ledger.len() {
        if ledger.get(i).unwrap().recovery_status == RecoveryStatus::Pending {
            count += 1;
        }
    }
    count
}

#[test]
fn recovery_completes_after_seven_days_and_not_before() {
    let mut ledger = RecoveryLedger::new();
    let created = ledger.handle(&account(false), &create_event(), &world(T)).unwrap();
    let recovery = match created {
        RecoveryState::PendingRecovery(pending) => pending.recovery,
        other => panic!("unexpected state {:?}", other),
    };
    assert_eq!(recovery.created_at, at(T));
    assert_eq!(recovery.recovery_status, RecoveryStatus::Pending);
    assert_eq!(
        recovery.requirements.delay_notify_requirements.unwrap().delay_end_time,
        at(T + 7 * DAY)
    );
    assert_eq!(recovery.requirements.delay_notify_requirements.unwrap().lost_factor, Factor::App);
    assert_eq!(ledger.len(), 1);

    // One minute before the end of the delay.
    let early = ledger.handle(&account(false), &check_event(11, 2), &world(T + 7 * DAY - 60));
    assert_eq!(early, Err(RecoveryError::DelayPeriodNotFinished));

    // One nanosecond before the end of the delay.
    let mut almost = world(T + 7 * DAY);
    almost.now = Timestamp::from_unix_nanos((T + 7 * DAY) as i128 * 1_000_000_000 - 1).unwrap();
    assert_eq!(
        ledger.handle(&account(false), &check_event(11, 2), &almost),
        Err(RecoveryError::DelayPeriodNotFinished)
    );

    let due = ledger.handle(&account(false), &check_event(11, 2), &world(T + 7 * DAY)).unwrap();
    match due {
        RecoveryState::CompletableRecovery(state) => {
            assert_eq!(state.recovery, recovery);
            assert_eq!(state.account, account(false));
            assert!(!state.active_contest);
        }
        other => panic!("unexpected state {:?}", other),
    }
    // The check itself writes nothing.
    assert_eq!(ledger.get(0), Some(recovery));
}

#[test]
fn completion_needs_the_signatures_of_the_destination_keys() {
    let mut ledger = RecoveryLedger::new();
    ledger.handle(&account(false), &create_event(), &world(T)).unwrap();
    // Signed with the old application key, not with the one of the destination.
    let wrong = ledger.handle(&account(false), &check_event(1, 2), &world(T + 8 * DAY));
    assert_eq!(wrong, Err(RecoveryError::InvalidInputForCompletion));
    // A signature over another challenge.
    let other = RecoveryEvent::CheckEligibleForCompletion {
        challenge: String::from("challenge"),
        app_signature: sign(11, "another challenge"),
        hardware_signature: sign(2, "challenge"),
    };
    assert_eq!(
        ledger.handle(&account(false), &other, &world(T + 8 * DAY)),
        Err(RecoveryError::InvalidInputForCompletion)
    );
}

#[test]
fn check_without_recovery_is_a_repeat_of_a_completed_one() {
    let mut ledger = RecoveryLedger::new();
    let rotated = ledger.handle(&account(false), &check_event(1, 2), &world(T)).unwrap();
    assert_eq!(
        rotated,
        RecoveryState::RotatedKeyset(wallet_recovery::state_machine::RotatedKeysetState {
            active_keyset_id: KeysetId { value: 700 }
        })
    );
    assert_eq!(
        ledger.handle(&account(false), &check_event(11, 2), &world(T)),
        Err(RecoveryError::NoExistingRecovery)
    );
    let mut keyless = account(false);
    keyless.active_auth_keys = None;
    assert_eq!(
        ledger.handle(&keyless, &check_event(1, 2), &world(T)),
        Err(RecoveryError::NoActiveAuthKeysError)
    );
}

#[test]
fn creation_is_idempotent_and_exclusive() {
    let mut ledger = RecoveryLedger::new();
    let first = ledger.handle(&account(false), &create_event(), &world(T)).unwrap();
    // The same request an hour later returns the recovery of the first.
    let again = ledger.handle(&account(false), &create_event(), &world(T + 3600)).unwrap();
    assert_eq!(again, first);
    assert_eq!(ledger.len(), 1);
    assert_eq!(pending_count(&ledger), 1);

    let mut other = destination();
    other.app_auth_pubkey = pubkey(12);
    let conflict = RecoveryEvent::CreateRecovery {
        account: account(false),
        lost_factor: Factor::App,
        destination: other,
        key_proof: key_proof(false, true),
    };
    assert_eq!(
        ledger.handle(&account(false), &conflict, &world(T + 3600)),
        Err(RecoveryError::StartRecoveryForAccount)
    );
    assert_eq!(ledger.len(), 1);
    assert_eq!(pending_count(&ledger), 1);
}

#[test]
fn creation_needs_the_signature_of_the_factor_that_is_not_lost() {
    let mut ledger = RecoveryLedger::new();
    for (app_signed, hw_signed) in [(true, false), (true, true), (false, false)] {
        let event = RecoveryEvent::CreateRecovery {
            account: account(false),
            lost_factor: Factor::App,
            destination: destination(),
            key_proof: key_proof(app_signed, hw_signed),
        };
        assert_eq!(
            ledger.handle(&account(false), &event, &world(T)),
            Err(RecoveryError::UnexpectedKeyProof)
        );
    }
    assert_eq!(ledger.len(), 0);
}

#[test]
fn creation_checks_the_source_and_the_active_keys() {
    let mut ledger = RecoveryLedger::new();
    let mut stale = destination();
    stale.source_auth_keys_id = AuthKeysId { value: 69 };
    let event = RecoveryEvent::CreateRecovery {
        account: account(false),
        lost_factor: Factor::App,
        destination: stale,
        key_proof: key_proof(false, true),
    };
    assert_eq!(
        ledger.handle(&account(false), &event, &world(T)),
        Err(RecoveryError::InvalidRecoverySource)
    );
    let mut keyless = account(false);
    keyless.active_auth_keys = None;
    let event = RecoveryEvent::CreateRecovery {
        account: keyless,
        lost_factor: Factor::App,
        destination: destination(),
        key_proof: key_proof(false, true),
    };
    assert_eq!(
        ledger.handle(&keyless, &event, &world(T)),
        Err(RecoveryError::NoActiveAuthKeysError)
    );
    assert_eq!(ledger.len(), 0);
}

#[test]
fn creation_plans_its_effects_in_order() {
    let ledger = RecoveryLedger::new();
    let state = ledger.load(&account(false), at(T));
    let lookups = ledger.lookups(&destination(), &world(T));
    let step = state.next_transition_or_err(&create_event(), &lookups, at(T)).unwrap();
    let transition = match step {
        Step::Transition(transition) => transition,
        Step::Ask(query) => panic!("unexpected question {:?}", query),
    };
    assert_eq!(transition.effects.len(), 4);
    match transition.effects[0] {
        Effect::CreateRecovery { recovery } => {
            assert_eq!(recovery.account_id, AccountId { value: 7 });
            assert_eq!(recovery.updated_at, at(T));
            assert_eq!(recovery.recovery_type, RecoveryType::DelayAndNotify);
            assert_eq!(
                recovery.recovery_action.delay_notify_action.unwrap().destination,
                destination()
            );
            assert_eq!(
                transition.next,
                NextState::State(RecoveryState::PendingRecovery(
                    wallet_recovery::state_machine::PendingRecoveryState { recovery }
                ))
            );
        }
        other => panic!("unexpected effect {:?}", other),
    }
    assert_eq!(
        transition.effects[1],
        Effect::UpdateSpendingLimit {
            account_id: AccountId { value: 7 },
            new_spending_limit: Some(SpendingLimit {
                active: false,
                amount: 5_000,
                currency_code: 840,
                time_zone_offset_seconds: -18_000,
            }),
        }
    );
    match transition.effects[2] {
        Effect::ScheduleNotifications { account_id, delay_end_time, pending, completed } => {
            assert_eq!(account_id, AccountId { value: 7 });
            assert_eq!(delay_end_time, at(T + 7 * DAY));
            assert_eq!(pending.initiation_time, at(T));
            assert_eq!(pending.delay_end_time, at(T + 7 * DAY));
            assert_eq!(pending.lost_factor, Factor::App);
            assert_eq!(completed.initiation_time, at(T));
            assert_eq!(completed.lost_factor, Factor::App);
        }
        other => panic!("unexpected effect {:?}", other),
    }
    assert_eq!(
        transition.effects[3],
        Effect::RecordCreation { lost_factor: Factor::App, created_during_contest: false }
    );
}

#[test]
fn failed_scheduling_leaves_the_record_written() {
    let mut ledger = RecoveryLedger::new();
    let mut silent = world(T);
    silent.notifications_accepted = false;
    assert_eq!(
        ledger.handle(&account(false), &create_event(), &silent),
        Err(RecoveryError::ScheduleNotificationPersistanceError)
    );
    assert_eq!(ledger.len(), 1);
    assert_eq!(pending_count(&ledger), 1);
}

// A recovery that was canceled in contest puts the account under contest.
fn contested_ledger() -> RecoveryLedger {
    let mut ledger = RecoveryLedger::new();
    ledger.handle(&account(false), &create_event(), &world(T)).unwrap();
    let canceled = ledger
        .handle(
            &account(false),
            &RecoveryEvent::CancelRecovery { key_proof: key_proof(true, false) },
            &world(T + DAY),
        )
        .unwrap();
    assert_eq!(
        canceled,
        RecoveryState::CanceledRecovery(wallet_recovery::state_machine::CanceledRecoveryState {})
    );
    assert_eq!(ledger.get(0).unwrap().recovery_status, RecoveryStatus::CanceledInContest);
    assert_eq!(ledger.get(0).unwrap().updated_at, at(T + DAY));
    ledger
}

#[test]
fn contest_without_proof_of_contact_leaves_the_recovery_pending() {
    let mut ledger = contested_ledger();
    assert!(ledger.active_contest(&AccountId { value: 7 }, at(T + 2 * DAY)));
    ledger.handle(&account(false), &create_event(), &world(T + 2 * DAY)).unwrap();
    let before = ledger.get(1).unwrap();
    assert_eq!(before.recovery_status, RecoveryStatus::Pending);

    let mut unverified = world(T + 3 * DAY);
    unverified.comms_verified = false;
    let contest = RecoveryEvent::CancelRecovery { key_proof: key_proof(true, false) };
    assert_eq!(
        ledger.handle(&account(false), &contest, &unverified),
        Err(RecoveryError::CommsVerification)
    );
    assert_eq!(ledger.len(), 2);
    assert_eq!(ledger.get(1), Some(before));
    assert_eq!(pending_count(&ledger), 1);

    // With a proof of contact the contest goes through.
    ledger.handle(&account(false), &contest, &world(T + 3 * DAY)).unwrap();
    assert_eq!(ledger.get(1).unwrap().recovery_status, RecoveryStatus::CanceledInContest);
    assert_eq!(pending_count(&ledger), 0);
}

#[test]
fn creation_during_a_contest_needs_a_proof_of_contact() {
    let mut ledger = contested_ledger();
    let mut unverified = world(T + 2 * DAY);
    unverified.comms_verified = false;
    assert_eq!(
        ledger.handle(&account(false), &create_event(), &unverified),
        Err(RecoveryError::CommsVerification)
    );
    assert_eq!(ledger.len(), 1);

    let state = ledger.load(&account(false), at(T + 2 * DAY));
    assert!(state.active_contest);
    let lookups = ledger.lookups(&destination(), &world(T + 2 * DAY));
    match state.next_transition_or_err(&create_event(), &lookups, at(T + 2 * DAY)).unwrap() {
        Step::Transition(transition) => {
            assert_eq!(transition.effects.len(), 5);
            assert_eq!(
                transition.effects[0],
                Effect::ConsumeCommsVerification {
                    account_id: AccountId { value: 7 },
                    scope: CommsVerificationScope::DelayNotifyActor(Actor::Hardware),
                }
            );
            assert_eq!(
                transition.effects[4],
                Effect::RecordCreation { lost_factor: Factor::App, created_during_contest: true }
            );
        }
        Step::Ask(query) => panic!("unexpected question {:?}", query),
    }
}

#[test]
fn contest_window_is_thirty_days() {
    let ledger = contested_ledger();
    let id = AccountId { value: 7 };
    assert!(ledger.active_contest(&id, at(T + DAY)));
    assert!(ledger.active_contest(&id, at(T + 31 * DAY)));
    assert!(!ledger.active_contest(&id, at(T + 31 * DAY + 1)));
    assert!(!ledger.active_contest(&AccountId { value: 8 }, at(T + 2 * DAY)));
}

#[test]
fn cancel_by_the_other_factor_is_no_contest() {
    let mut ledger = RecoveryLedger::new();
    ledger.handle(&account(false), &create_event(), &world(T)).unwrap();
    let state = ledger.load(&account(false), at(T + DAY));
    // Both factors signed: the request is attributed to the hardware.
    let transition = state.cancel_recovery(&key_proof(true, true)).unwrap();
    assert_eq!(transition.effects.len(), 3);
    assert_eq!(
        transition.effects[0],
        Effect::CompleteRecovery {
            account_id: AccountId { value: 7 },
            created_at: at(T),
            status: RecoveryStatus::Canceled,
        }
    );
    match transition.effects[1] {
        Effect::SendNotification { account_id, canceled } => {
            assert_eq!(account_id, AccountId { value: 7 });
            assert_eq!(canceled.initiation_time, at(T));
            assert_eq!(canceled.lost_factor, Factor::App);
        }
        other => panic!("unexpected effect {:?}", other),
    }
    assert_eq!(
        transition.effects[2],
        Effect::RecordCancellation {
            lost_factor: Factor::App,
            created_during_contest: false,
            canceled_in_contest: false,
            created_at: at(T),
        }
    );
    ledger
        .handle(
            &account(false),
            &RecoveryEvent::CancelRecovery { key_proof: key_proof(true, true) },
            &world(T + DAY),
        )
        .unwrap();
    assert_eq!(ledger.get(0).unwrap().recovery_status, RecoveryStatus::Canceled);
    assert!(!ledger.active_contest(&AccountId { value: 7 }, at(T + 2 * DAY)));
}

#[test]
fn cancel_needs_a_recovery_and_a_signature() {
    let mut ledger = RecoveryLedger::new();
    let cancel = RecoveryEvent::CancelRecovery { key_proof: key_proof(true, false) };
    assert_eq!(
        ledger.handle(&account(false), &cancel, &world(T)),
        Err(RecoveryError::NoExistingRecovery)
    );
    ledger.handle(&account(false), &create_event(), &world(T)).unwrap();
    let unsigned = RecoveryEvent::CancelRecovery { key_proof: key_proof(false, false) };
    assert_eq!(
        ledger.handle(&account(false), &unsigned, &world(T)),
        Err(RecoveryError::UnexpectedKeyProof)
    );
    assert_eq!(pending_count(&ledger), 1);
}

#[test]
fn delay_of_an_ordinary_account_cannot_be_updated() {
    let mut ledger = RecoveryLedger::new();
    ledger.handle(&account(false), &create_event(), &world(T)).unwrap();
    let before = ledger.get(0).unwrap();
    let update = RecoveryEvent::UpdateDelayForTestAccountRecovery { delay_period_num_sec: Some(60) };
    assert_eq!(
        ledger.handle(&account(false), &update, &world(T + 10)),
        Err(RecoveryError::InvalidUpdateForNonTestAccount)
    );
    assert_eq!(ledger.get(0), Some(before));
    assert_eq!(
        ledger.get(0).unwrap().requirements.delay_notify_requirements.unwrap().delay_end_time,
        at(T + 7 * DAY)
    );
}

#[test]
fn delay_of_a_test_account_is_counted_from_creation() {
    let mut ledger = RecoveryLedger::new();
    ledger.handle(&account(true), &create_event(), &world(T)).unwrap();
    let update = RecoveryEvent::UpdateDelayForTestAccountRecovery { delay_period_num_sec: Some(60) };
    let state = ledger.handle(&account(true), &update, &world(T + 10)).unwrap();
    let recovery = match state {
        RecoveryState::PendingRecovery(pending) => pending.recovery,
        other => panic!("unexpected state {:?}", other),
    };
    assert_eq!(recovery.requirements.delay_notify_requirements.unwrap().delay_end_time, at(T + 60));
    assert_eq!(recovery.requirements.delay_notify_requirements.unwrap().lost_factor, Factor::App);
    assert_eq!(recovery.updated_at, at(T + 10));
    assert_eq!(recovery.created_at, at(T));
    assert_eq!(ledger.get(0), Some(recovery));

    // Without a number the end of the delay stays.
    let keep = RecoveryEvent::UpdateDelayForTestAccountRecovery { delay_period_num_sec: None };
    let state = ledger.handle(&account(true), &keep, &world(T + 20)).unwrap();
    match state {
        RecoveryState::PendingRecovery(pending) => assert_eq!(
            pending.recovery.requirements.delay_notify_requirements.unwrap().delay_end_time,
            at(T + 60)
        ),
        other => panic!("unexpected state {:?}", other),
    }
    // The recovery can now complete after a minute.
    assert!(ledger.handle(&account(true), &check_event(11, 2), &world(T + 60)).is_ok());
}

#[test]
fn delay_update_needs_a_recovery() {
    let mut ledger = RecoveryLedger::new();
    let update = RecoveryEvent::UpdateDelayForTestAccountRecovery { delay_period_num_sec: Some(60) };
    assert_eq!(
        ledger.handle(&account(true), &update, &world(T)),
        Err(RecoveryError::NoExistingRecovery)
    );
}

#[test]
fn events_are_taken_up_in_the_entry_state_only() {
    let state = RecoveryState::CanceledRecovery(wallet_recovery::state_machine::CanceledRecoveryState {});
    let lookups = wallet_recovery::destination::DestinationLookups::none();
    match state.transition(&create_event(), &lookups, at(T)) {
        Err(error) => assert_eq!(error, RecoveryError::InvalidTransition),
        Ok(step) => panic!("unexpected step {:?}", step),
    }
    let rotated = RecoveryState::RotatedKeyset(wallet_recovery::state_machine::RotatedKeysetState {
        active_keyset_id: KeysetId { value: 1 },
    });
    let cancel = RecoveryEvent::CancelRecovery { key_proof: key_proof(true, false) };
    assert!(matches!(
        rotated.transition(&cancel, &lookups, at(T)),
        Err(RecoveryError::InvalidTransition)
    ));
}

#[test]
fn response_shows_the_pending_recovery() {
    let mut ledger = RecoveryLedger::new();
    let empty = ledger.load(&account(false), at(T)).response();
    assert_eq!(empty.pending_delay_notify, None);
    assert!(!empty.active_contest);

    ledger.handle(&account(false), &create_event(), &world(T)).unwrap();
    let shown = ledger.load(&account(false), at(T + 1)).response();
    let pending = shown.pending_delay_notify.unwrap();
    assert_eq!(pending.delay_start_time, at(T));
    assert_eq!(pending.delay_end_time, at(T + 7 * DAY));
    assert_eq!(pending.lost_factor, Factor::App);
    assert_eq!(pending.auth_keys.app, pubkey(11));
    assert_eq!(pending.auth_keys.hardware, pubkey(2));
    assert_eq!(pending.auth_keys.recovery, None);
    assert!(!shown.active_contest);
}

#[test]
fn at_most_one_recovery_is_pending_through_a_run_of_events() {
    let mut ledger = RecoveryLedger::new();
    let cancel = RecoveryEvent::CancelRecovery { key_proof: key_proof(false, true) };
    let mut now = T;
    for round in 0..4 {
        for _ in 0..3 {
            let _ = ledger.handle(&account(false), &create_event(), &world(now));
            assert_eq!(pending_count(&ledger), 1);
            now += 100;
        }
        let _ = ledger.handle(&account(false), &cancel, &world(now));
        assert_eq!(pending_count(&ledger), 0);
        assert_eq!(ledger.len(), round + 1);
        now += 100;
    }
}

#[test]
fn events_out_of_the_range_of_time_are_not_taken_up() {
    let mut ledger = RecoveryLedger::new();
    let last = Timestamp::from_unix_nanos(wallet_recovery::instant::MAX_UNIX_NANOS).unwrap();
    let state = ledger.load(&account(true), last);
    // A week after the last instant is no instant.
    assert!(!state.is_admitted(&create_event(), last));
    assert!(state.is_admitted(&create_event(), at(T)));
    let mut late = world(T);
    late.now = last;
    assert_eq!(ledger.try_handle(&account(true), &create_event(), &late), None);
    assert_eq!(ledger.len(), 0);

    let created = ledger.try_handle(&account(true), &create_event(), &world(T));
    assert!(matches!(created, Some(Ok(RecoveryState::PendingRecovery(_)))));
    let far = RecoveryEvent::UpdateDelayForTestAccountRecovery { delay_period_num_sec: Some(i64::MAX) };
    assert!(!ledger.load(&account(true), at(T)).is_admitted(&far, at(T)));
    assert_eq!(ledger.try_handle(&account(true), &far, &world(T)), None);
    // For an ordinary account the update is turned down before any instant is computed.
    assert!(ledger.load(&account(false), at(T)).is_admitted(&far, at(T)));
    assert_eq!(
        ledger.try_handle(&account(false), &far, &world(T)),
        Some(Err(RecoveryError::InvalidUpdateForNonTestAccount))
    );
    let back = RecoveryEvent::UpdateDelayForTestAccountRecovery { delay_period_num_sec: Some(-60) };
    match ledger.try_handle(&account(true), &back, &world(T)) {
        Some(Ok(RecoveryState::PendingRecovery(pending))) => assert_eq!(
            pending.recovery.requirements.delay_notify_requirements.unwrap().delay_end_time,
            at(T - 60)
        ),
        other => panic!("unexpected outcome {:?}", other),
    }
}
