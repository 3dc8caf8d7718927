//! The state machine at work on a ledger.
//!
//! `RecoveryLedger::handle` takes one event from beginning to end: it loads
//! the state of the account from the ledger, lets the state machine decide,
//! and carries out the effects of the transition in their order. The services
//! other than the store are stood for by a `World`, which says what they
//! answer and whether they accept what is asked of them.

use vstd::prelude::*;
use crate::account::{AccountId, AuthFactor, FullAccount};
use crate::current_account_recovery::new_recovery;
use crate::destination::{DestinationLookups, OwnerAnswer, PendingAnswer, lemma_answers_decide};
use crate::entities::{RecoveryDestination, RecoveryStatus, RecoveryType, WalletRecovery};
use crate::error::RecoveryError;
use crate::instant::Timestamp;
use crate::ledger::{
    RecoveryLedger,
    completed,
    contest_active,
    created,
    has_pending,
    holds_key,
    lemma_place_of_key_is_first,
    is_pending_of,
    keys_unique,
    pending_of,
    place_of_key,
    requirements_updated,
    single_pending,
    some_proposes,
};
use crate::state_machine::{
    CurrentAccountRecoveryState,
    Effect,
    NextState,
    PendingRecoveryState,
    RecoveryEvent,
    RecoveryState,
    Step,
    StepView,
    Transition,
    TransitionView,
};

verus! {

/// What lies outside the ledger while one event is handled.
#[derive(Clone, Copy, Debug, PartialEq, Eq, Structural)]
pub struct World {
    /// The time.
    pub now: Timestamp,
    /// The account on which the proposed application key is active, if any.
    pub app_key_owner: Option<AccountId>,
    /// The account on which the proposed recovery key is active, if any.
    pub recovery_key_owner: Option<AccountId>,
    /// The account on which the proposed hardware key is active, if any.
    pub hardware_key_owner: Option<AccountId>,
    /// Whether an unconsumed proof of contact is there for the actor.
    pub comms_verified: bool,
    /// Whether the account service accepts a new spending limit.
    pub spending_limit_accepted: bool,
    /// Whether notifications can be scheduled and sent.
    pub notifications_accepted: bool,
}

/// The records once `effect` is carried out, or the error with which it is
/// turned down. Only the effects on the store change the records.
pub open spec fn apply_effect(records: Seq<WalletRecovery>, effect: Effect, world: World) -> Result<
    Seq<WalletRecovery>,
    RecoveryError,
> {
    match effect {
        Effect::ConsumeCommsVerification { .. } => if world.comms_verified {
            Ok(records)
        } else {
            Err(RecoveryError::CommsVerification)
        },
        Effect::CreateRecovery { recovery } => created(records, recovery),
        Effect::CompleteRecovery { account_id, created_at, status } => completed(
            records,
            account_id,
            created_at,
            status,
            world.now,
        ),
        Effect::UpdateRecoveryRequirements {
            account_id,
            created_at,
            requirements,
        } => requirements_updated(records, account_id, created_at, requirements, world.now),
        Effect::UpdateSpendingLimit { .. } => if world.spending_limit_accepted {
            Ok(records)
        } else {
            Err(RecoveryError::AccountService)
        },
        Effect::ScheduleNotifications { .. } => if world.notifications_accepted {
            Ok(records)
        } else {
            Err(RecoveryError::ScheduleNotificationPersistanceError)
        },
        Effect::SendNotification { .. } => if world.notifications_accepted {
            Ok(records)
        } else {
            Err(RecoveryError::SendNotificationError)
        },
        Effect::RecordCreation { .. } => Ok(records),
        Effect::RecordCancellation { .. } => Ok(records),
    }
}

/// The records once the effects from place `from` on are carried out in
/// their order, and the error of the first one that is turned down. The
/// effects before that one stay done; those after it are not tried.
pub open spec fn settled(records: Seq<WalletRecovery>, effects: Seq<Effect>, world: World, from: int) -> (
    Seq<WalletRecovery>,
    Option<RecoveryError>,
)
    decreases effects.len() - from,
{
    if from < 0 || from >= effects.len() {
        (records, None)
    } else {
        match apply_effect(records, effects[from], world) {
            Ok(after) => settled(after, effects, world, from + 1),
            Err(error) => (records, Some(error)),
        }
    }
}

/// An effect is turned down with the error that it names as its refusal.
pub proof fn lemma_refusal_is_named(records: Seq<WalletRecovery>, effect: Effect, world: World)
    ensures
        apply_effect(records, effect, world) matches Err(error) ==> effect.spec_refusal() == Some(
            error,
        ),
{
}

impl RecoveryLedger {
    fn apply(&mut self, effect: &Effect, world: &World) -> (r: Result<(), RecoveryError>)
        ensures
            match apply_effect(old(self)@, *effect, *world) {
                Ok(records) => r is Ok && final(self)@ == records,
                Err(error) => r == Err::<(), RecoveryError>(error) && final(self)@ == old(self)@,
            },
    {
        match effect {
            Effect::ConsumeCommsVerification { .. } => if world.comms_verified {
                Ok(())
            } else {
                Err(RecoveryError::CommsVerification)
            },
            Effect::CreateRecovery { recovery } => self.create(recovery),
            Effect::CompleteRecovery { account_id, created_at, status } => self.complete(
                *account_id,
                *created_at,
                *status,
                world.now,
            ),
            Effect::UpdateRecoveryRequirements {
                account_id,
                created_at,
                requirements,
            } => self.update_recovery_requirements(*account_id, *created_at, *requirements, world.now),
            Effect::UpdateSpendingLimit { .. } => if world.spending_limit_accepted {
                Ok(())
            } else {
                Err(RecoveryError::AccountService)
            },
            Effect::ScheduleNotifications { .. } => if world.notifications_accepted {
                Ok(())
            } else {
                Err(RecoveryError::ScheduleNotificationPersistanceError)
            },
            Effect::SendNotification { .. } => if world.notifications_accepted {
                Ok(())
            } else {
                Err(RecoveryError::SendNotificationError)
            },
            Effect::RecordCreation { .. } => Ok(()),
            Effect::RecordCancellation { .. } => Ok(()),
        }
    }

    /// Carries out `effects` in their order and stops at the first one that
    /// is turned down.
    pub fn settle(&mut self, effects: &Vec<Effect>, world: &World) -> (r: Result<(), RecoveryError>)
        ensures
            final(self)@ == settled(old(self)@, effects@, *world, 0).0,
            r == match settled(old(self)@, effects@, *world, 0).1 {
                Some(error) => Err::<(), RecoveryError>(error),
                None => Ok(()),
            },
    {
        let mut i: usize = 0;
        while i < effects.len()
            invariant
                i <= effects.len(),
                settled(old(self)@, effects@, *world, 0) == settled(self@, effects@, *world, i as int),
            decreases effects.len() - i,
        {
            match self.apply(&effects[i], world) {
                Ok(()) => {},
                Err(error) => {
                    return Err(error);
                },
            }
            i = i + 1;
        }
        Ok(())
    }
}

/// The state of the account as the records show it at `now`: its pending
/// recovery, and whether it is contested.
pub open spec fn loaded_state(records: Seq<WalletRecovery>, account: FullAccount, now: Timestamp) -> CurrentAccountRecoveryState {
    CurrentAccountRecoveryState {
        account,
        recovery: pending_of(records, account.id, RecoveryType::DelayAndNotify),
        active_contest: contest_active(records, account.id, now),
    }
}

/// Every answer on the keys of `destination`: who holds a key is known to the
/// world, and which keys the pending recoveries propose is in the records.
pub open spec fn known_lookups(records: Seq<WalletRecovery>, world: World, destination: RecoveryDestination) -> DestinationLookups {
    DestinationLookups {
        app_account: OwnerAnswer::spec_from_owner(world.app_key_owner),
        app_recovery: PendingAnswer::spec_from_found(
            some_proposes(
                records,
                AuthFactor::App,
                destination.app_auth_pubkey,
                RecoveryStatus::Pending,
            ),
        ),
        recovery_account: match destination.recovery_auth_pubkey {
            Some(_) => OwnerAnswer::spec_from_owner(world.recovery_key_owner),
            None => OwnerAnswer::NotAsked,
        },
        recovery_recovery: match destination.recovery_auth_pubkey {
            Some(pubkey) => PendingAnswer::spec_from_found(
                some_proposes(records, AuthFactor::Recovery, pubkey, RecoveryStatus::Pending),
            ),
            None => PendingAnswer::NotAsked,
        },
        hardware_account: OwnerAnswer::spec_from_owner(world.hardware_key_owner),
        hardware_recovery: PendingAnswer::spec_from_found(
            some_proposes(
                records,
                AuthFactor::Hw,
                destination.hardware_auth_pubkey,
                RecoveryStatus::Pending,
            ),
        ),
    }
}

/// The answers that `event` can ask for: those on the destination of a
/// creation, and none for any other event.
pub open spec fn event_lookups(records: Seq<WalletRecovery>, world: World, event: RecoveryEvent) -> DestinationLookups {
    match event {
        RecoveryEvent::CreateRecovery { destination, .. } => known_lookups(records, world, destination),
        _ => DestinationLookups::spec_none(),
    }
}

/// The state that follows a transition whose effects have left `records`.
pub open spec fn state_after(records: Seq<WalletRecovery>, next: NextState) -> Result<
    RecoveryState,
    RecoveryError,
> {
    match next {
        NextState::State(state) => Ok(state),
        NextState::ReloadPending { account_id, recovery_type } => match pending_of(
            records,
            account_id,
            recovery_type,
        ) {
            Some(recovery) => Ok(RecoveryState::PendingRecovery(PendingRecoveryState { recovery })),
            None => Err(RecoveryError::NoExistingRecovery),
        },
    }
}

/// What becomes of `records` when the transition is carried out in `world`,
/// and the state or the error that the event ends with.
pub open spec fn carried_out(records: Seq<WalletRecovery>, transition: TransitionView, world: World) -> (
    Seq<WalletRecovery>,
    Result<RecoveryState, RecoveryError>,
) {
    let (after, refused) = settled(records, transition.effects, world, 0);
    match refused {
        Some(error) => (after, Err(error)),
        None => (after, state_after(after, transition.next)),
    }
}

/// What becomes of `records` when `event` is handled for `account` in
/// `world`, and the state or the error that the event ends with. An event
/// that the state machine turns down changes nothing.
pub open spec fn handled(
    records: Seq<WalletRecovery>,
    account: FullAccount,
    event: RecoveryEvent,
    world: World,
) -> (Seq<WalletRecovery>, Result<RecoveryState, RecoveryError>) {
    match loaded_state(records, account, world.now).outcome(
        event,
        event_lookups(records, world, event),
        world.now,
    ) {
        Ok(StepView::Transition(transition)) => carried_out(records, transition, world),
        Ok(StepView::Ask(_)) => (records, Err(RecoveryError::InvalidTransition)),
        Err(error) => (records, Err(error)),
    }
}

impl RecoveryLedger {
    /// The state of the account as the ledger shows it at `now`.
    pub fn load(&self, account: &FullAccount, now: Timestamp) -> (state: CurrentAccountRecoveryState)
        ensures
            state == loaded_state(self@, *account, now),
    {
        CurrentAccountRecoveryState {
            account: *account,
            recovery: self.fetch_pending(&account.id, RecoveryType::DelayAndNotify),
            active_contest: self.active_contest(&account.id, now),
        }
    }

    /// Every answer on the keys of `destination`.
    pub fn lookups(&self, destination: &RecoveryDestination, world: &World) -> (lookups:
        DestinationLookups)
        ensures
            lookups == known_lookups(self@, *world, *destination),
    {
        let (recovery_account, recovery_recovery) = match destination.recovery_auth_pubkey {
            Some(pubkey) => (
                OwnerAnswer::from_owner(world.recovery_key_owner),
                PendingAnswer::from_found(
                    self.has_recovery_by_auth_pubkey(
                        AuthFactor::Recovery,
                        &pubkey,
                        RecoveryStatus::Pending,
                    ),
                ),
            ),
            None => (OwnerAnswer::NotAsked, PendingAnswer::NotAsked),
        };
        DestinationLookups {
            app_account: OwnerAnswer::from_owner(world.app_key_owner),
            app_recovery: PendingAnswer::from_found(
                self.has_recovery_by_auth_pubkey(
                    AuthFactor::App,
                    &destination.app_auth_pubkey,
                    RecoveryStatus::Pending,
                ),
            ),
            recovery_account,
            recovery_recovery,
            hardware_account: OwnerAnswer::from_owner(world.hardware_key_owner),
            hardware_recovery: PendingAnswer::from_found(
                self.has_recovery_by_auth_pubkey(
                    AuthFactor::Hw,
                    &destination.hardware_auth_pubkey,
                    RecoveryStatus::Pending,
                ),
            ),
        }
    }

    /// Carries out the effects of `transition` and gives the state that
    /// follows, or the error of the effect that was turned down.
    pub fn carry_out(&mut self, transition: &Transition, world: &World) -> (r: Result<
        RecoveryState,
        RecoveryError,
    >)
        ensures
            (final(self)@, r) == carried_out(old(self)@, transition@, *world),
    {
        match self.settle(&transition.effects, world) {
            Ok(()) => {},
            Err(error) => {
                return Err(error);
            },
        }
        match transition.next {
            NextState::State(state) => Ok(state),
            NextState::ReloadPending { account_id, recovery_type } => {
                match PendingRecoveryState::reloaded(self.fetch_pending(&account_id, recovery_type)) {
                    Ok(pending) => Ok(RecoveryState::PendingRecovery(pending)),
                    Err(error) => Err(error),
                }
            },
        }
    }

    /// Handles `event` for `account` where the state of the account can take
    /// it up, and does nothing where it cannot.
    pub fn try_handle(&mut self, account: &FullAccount, event: &RecoveryEvent, world: &World) -> (r:
        Option<Result<RecoveryState, RecoveryError>>)
        ensures
            r is Some == loaded_state(old(self)@, *account, world.now).admits(*event, world.now),
            r matches Some(result) ==> (final(self)@, result) == handled(
                old(self)@,
                *account,
                *event,
                *world,
            ),
            r is None ==> final(self)@ == old(self)@,
            single_pending(old(self)@) ==> single_pending(final(self)@),
            keys_unique(old(self)@) ==> keys_unique(final(self)@),
    {
        if self.load(account, world.now).is_admitted(event, world.now) {
            Some(self.handle(account, event, world))
        } else {
            None
        }
    }

    /// Handles `event` for `account` from beginning to end.
    pub fn handle(&mut self, account: &FullAccount, event: &RecoveryEvent, world: &World) -> (r:
        Result<RecoveryState, RecoveryError>)
        requires
            loaded_state(old(self)@, *account, world.now).admits(*event, world.now),
        ensures
            (final(self)@, r) == handled(old(self)@, *account, *event, *world),
            single_pending(old(self)@) ==> single_pending(final(self)@),
            keys_unique(old(self)@) ==> keys_unique(final(self)@),
    {
        proof {
            lemma_handling_keeps_invariants(self@, *account, *event, *world);
        }
        let state = self.load(account, world.now);
        let lookups = match event {
            RecoveryEvent::CreateRecovery { destination, .. } => self.lookups(destination, world),
            _ => DestinationLookups::none(),
        };
        match state.next_transition_or_err(event, &lookups, world.now) {
            Ok(Step::Transition(transition)) => self.carry_out(&transition, world),
            Ok(Step::Ask(_)) => Err(RecoveryError::InvalidTransition),
            Err(error) => Err(error),
        }
    }
}

/// Where an account has a pending record at place `j`, it has a first one.
proof fn lemma_first_pending_exists(
    records: Seq<WalletRecovery>,
    account_id: AccountId,
    recovery_type: RecoveryType,
    j: int,
)
    requires
        0 <= j < records.len(),
        is_pending_of(records[j], account_id),
        records[j].recovery_type == recovery_type,
    ensures
        pending_of(records, account_id, recovery_type) is Some,
    decreases j,
{
    if exists|k: int|
        0 <= k < j && is_pending_of(#[trigger] records[k], account_id) && records[k].recovery_type
            == recovery_type {
        let k = choose|k: int|
            0 <= k < j && is_pending_of(#[trigger] records[k], account_id)
                && records[k].recovery_type == recovery_type;
        lemma_first_pending_exists(records, account_id, recovery_type, k);
    } else {
        assert(crate::ledger::is_first_pending(records, account_id, recovery_type, j));
    }
}

/// The pending record of an account is one of the records, pending and of
/// that account; and an account without one has no pending record at all.
pub proof fn lemma_pending_of_is_sound(records: Seq<WalletRecovery>, account_id: AccountId)
    ensures
        match pending_of(records, account_id, RecoveryType::DelayAndNotify) {
            Some(recovery) => {
                &&& holds_key(records, account_id, recovery.created_at)
                &&& records.contains(recovery)
                &&& is_pending_of(recovery, account_id)
            },
            None => !has_pending(records, account_id),
        },
{
    let recovery_type = RecoveryType::DelayAndNotify;
    if pending_of(records, account_id, recovery_type) is Some {
        let i = choose|i: int| crate::ledger::is_first_pending(records, account_id, recovery_type, i);
        assert(records[i].has_key(account_id, records[i].created_at));
    } else {
        if has_pending(records, account_id) {
            let j = choose|j: int| 0 <= j < records.len() && is_pending_of(#[trigger] records[j], account_id);
            lemma_first_pending_exists(records, account_id, recovery_type, j);
        }
    }
}

/// A new pending record for an account that has none, under a key that is
/// not taken, keeps both invariants of the records.
proof fn lemma_push_keeps_invariants(records: Seq<WalletRecovery>, recovery: WalletRecovery)
    requires
        !holds_key(records, recovery.account_id, recovery.created_at),
        !has_pending(records, recovery.account_id),
    ensures
        single_pending(records) ==> single_pending(records.push(recovery)),
        keys_unique(records) ==> keys_unique(records.push(recovery)),
{
    let after = records.push(recovery);
    assert forall|i: int| 0 <= i < records.len() implies !(#[trigger] records[i]).has_key(
        recovery.account_id,
        recovery.created_at,
    ) && !is_pending_of(records[i], recovery.account_id) by {}
    if single_pending(records) {
        assert forall|i: int, j: int|
            0 <= i < after.len() && 0 <= j < after.len() && (#[trigger] after[i]).recovery_status
                == RecoveryStatus::Pending && (#[trigger] after[j]).recovery_status
                == RecoveryStatus::Pending && after[i].account_id == after[j].account_id implies i
            == j by {
            if i < records.len() && j < records.len() {
                assert(after[i] == records[i] && after[j] == records[j]);
            } else if i < records.len() {
                assert(is_pending_of(records[i], recovery.account_id));
            } else if j < records.len() {
                assert(is_pending_of(records[j], recovery.account_id));
            }
        }
    }
    if keys_unique(records) {
        assert forall|i: int, j: int| 0 <= i < j < after.len() implies !(#[trigger] after[i]).has_key(
            (#[trigger] after[j]).account_id,
            after[j].created_at,
        ) by {
            if j < records.len() {
                assert(after[i] == records[i] && after[j] == records[j]);
            } else {
                assert(after[i] == records[i]);
            }
        }
    }
}

/// A record that is replaced by one with the same key, and that does not
/// become pending by it, keeps both invariants of the records.
proof fn lemma_update_keeps_invariants(records: Seq<WalletRecovery>, i: int, replacement: WalletRecovery)
    requires
        0 <= i < records.len(),
        replacement.has_key(records[i].account_id, records[i].created_at),
        replacement.recovery_status == RecoveryStatus::Pending ==> records[i].recovery_status
            == RecoveryStatus::Pending,
    ensures
        single_pending(records) ==> single_pending(records.update(i, replacement)),
        keys_unique(records) ==> keys_unique(records.update(i, replacement)),
{
    let after = records.update(i, replacement);
    if single_pending(records) {
        assert forall|a: int, b: int|
            0 <= a < after.len() && 0 <= b < after.len() && (#[trigger] after[a]).recovery_status
                == RecoveryStatus::Pending && (#[trigger] after[b]).recovery_status
                == RecoveryStatus::Pending && after[a].account_id == after[b].account_id implies a
            == b by {
            assert(records[a].recovery_status == RecoveryStatus::Pending);
            assert(records[b].recovery_status == RecoveryStatus::Pending);
            assert(records[a].account_id == records[b].account_id);
        }
    }
    if keys_unique(records) {
        assert forall|a: int, b: int| 0 <= a < b < after.len() implies !(#[trigger] after[a]).has_key(
            (#[trigger] after[b]).account_id,
            after[b].created_at,
        ) by {
            assert(!records[a].has_key(records[b].account_id, records[b].created_at));
        }
    }
}

/// Whether `after` is what `records` can become when one effect on the store
/// is carried out, or none: the same records, one new pending record that
/// breaks no invariant, or one record that is replaced under its key without
/// becoming pending.
pub open spec fn one_safe_write(records: Seq<WalletRecovery>, after: Seq<WalletRecovery>) -> bool {
    ||| after == records
    ||| exists|recovery: WalletRecovery|
        #![trigger records.push(recovery)]
        {
            &&& after == records.push(recovery)
            &&& !holds_key(records, recovery.account_id, recovery.created_at)
            &&& !has_pending(records, recovery.account_id)
        }
    ||| exists|i: int, replacement: WalletRecovery|
        #![trigger records.update(i, replacement)]
        {
            &&& 0 <= i < records.len()
            &&& after == records.update(i, replacement)
            &&& replacement.has_key(records[i].account_id, records[i].created_at)
            &&& replacement.recovery_status == RecoveryStatus::Pending ==> records[i].recovery_status
                == RecoveryStatus::Pending
        }
}

/// One safe write keeps both invariants of the records.
proof fn lemma_safe_write_keeps_invariants(records: Seq<WalletRecovery>, after: Seq<WalletRecovery>)
    requires
        one_safe_write(records, after),
    ensures
        single_pending(records) ==> single_pending(after),
        keys_unique(records) ==> keys_unique(after),
{
    if after == records {
    } else if exists|recovery: WalletRecovery|
        #![trigger records.push(recovery)]
        {
            &&& after == records.push(recovery)
            &&& !holds_key(records, recovery.account_id, recovery.created_at)
            &&& !has_pending(records, recovery.account_id)
        } {
        let recovery = choose|recovery: WalletRecovery|
            #![trigger records.push(recovery)]
            {
                &&& after == records.push(recovery)
                &&& !holds_key(records, recovery.account_id, recovery.created_at)
                &&& !has_pending(records, recovery.account_id)
            };
        lemma_push_keeps_invariants(records, recovery);
    } else {
        let (i, replacement) = choose|i: int, replacement: WalletRecovery|
            #![trigger records.update(i, replacement)]
            {
                &&& 0 <= i < records.len()
                &&& after == records.update(i, replacement)
                &&& replacement.has_key(records[i].account_id, records[i].created_at)
                &&& replacement.recovery_status == RecoveryStatus::Pending
                    ==> records[i].recovery_status == RecoveryStatus::Pending
            };
        lemma_update_keeps_invariants(records, i, replacement);
    }
}

/// The transitions of the state machine write to the store at most once, and
/// safely: whatever event is handled, for whatever account and in whatever
/// world, the records end as they were or differ by one safe write.
pub proof fn lemma_handling_writes_safely(
    records: Seq<WalletRecovery>,
    account: FullAccount,
    event: RecoveryEvent,
    world: World,
)
    ensures
        one_safe_write(records, handled(records, account, event, world).0),
{
    reveal_with_fuel(settled, 7);
    let state = loaded_state(records, account, world.now);
    lemma_pending_of_is_sound(records, account.id);
    match state.outcome(event, event_lookups(records, world, event), world.now) {
        Ok(StepView::Transition(transition)) => {
            let after = settled(records, transition.effects, world, 0).0;
            match event {
                RecoveryEvent::CreateRecovery { account: owner, lost_factor, destination, key_proof } => {
                    if state.recovery is None {
                        let recovery = new_recovery(
                            state.account.id,
                            lost_factor,
                            destination,
                            world.now,
                            owner.recovery_delay_period,
                        );
                        if after != records {
                            assert(after == records.push(recovery));
                        }
                    }
                },
                RecoveryEvent::CheckEligibleForCompletion { .. } => {},
                RecoveryEvent::CancelRecovery { key_proof } => {
                    let recovery = state.recovery->0;
                    if after != records {
                        let i = place_of_key(records, recovery.account_id, recovery.created_at);
                        lemma_place_of_key_is_first(records, recovery.account_id, recovery.created_at);
                        let replacement = after[i];
                        assert(after == records.update(i, replacement));
                    }
                },
                RecoveryEvent::UpdateDelayForTestAccountRecovery { delay_period_num_sec } => {
                    let recovery = state.recovery->0;
                    if after != records {
                        let i = place_of_key(records, recovery.account_id, recovery.created_at);
                        lemma_place_of_key_is_first(records, recovery.account_id, recovery.created_at);
                        let replacement = after[i];
                        assert(after == records.update(i, replacement));
                    }
                },
            }
        },
        _ => {},
    }
}

/// At most one record of an account is pending, whatever is handled: an
/// event that finds the records with at most one pending recovery for each
/// account leaves them so, and likewise with no two records under one key.
pub proof fn lemma_handling_keeps_invariants(
    records: Seq<WalletRecovery>,
    account: FullAccount,
    event: RecoveryEvent,
    world: World,
)
    ensures
        single_pending(records) ==> single_pending(handled(records, account, event, world).0),
        keys_unique(records) ==> keys_unique(handled(records, account, event, world).0),
{
    lemma_handling_writes_safely(records, account, event, world);
    lemma_safe_write_keeps_invariants(records, handled(records, account, event, world).0);
}

/// With every answer on the keys of a destination at hand, the creation of a
/// recovery puts no question.
pub proof fn lemma_known_lookups_decide(
    records: Seq<WalletRecovery>,
    account: FullAccount,
    event: RecoveryEvent,
    world: World,
)
    ensures
        !(loaded_state(records, account, world.now).outcome(
            event,
            event_lookups(records, world, event),
            world.now,
        ) matches Ok(StepView::Ask(_))),
{
    if let RecoveryEvent::CreateRecovery { account: owner, lost_factor, destination, key_proof } = event {
        if let Some(keys) = owner.active_auth_keys {
            lemma_answers_decide(
                owner.id,
                keys,
                lost_factor,
                destination,
                known_lookups(records, world, destination),
            );
        }
    }
}

/// An event that the state machine turns down leaves the records as they
/// are and ends with the error of the state machine.
pub proof fn lemma_refused_event_changes_nothing(
    records: Seq<WalletRecovery>,
    account: FullAccount,
    event: RecoveryEvent,
    world: World,
    error: RecoveryError,
)
    requires
        loaded_state(records, account, world.now).outcome(
            event,
            event_lookups(records, world, event),
            world.now,
        ) == Err::<StepView, RecoveryError>(error),
    ensures
        handled(records, account, event, world) == (records, Err::<RecoveryState, RecoveryError>(error)),
{
}

/// A contest of a pending recovery while the account is contested needs a
/// proof of contact: where none is there, the cancellation by the holder of
/// the lost factor ends with `CommsVerification` and the records stay as they
/// are, the recovery pending.
pub proof fn lemma_contest_without_contact_changes_nothing(
    records: Seq<WalletRecovery>,
    account: FullAccount,
    key_proof: crate::key_claims::KeyClaims,
    world: World,
)
    requires
        !world.comms_verified,
        contest_active(records, account.id, world.now),
        pending_of(records, account.id, RecoveryType::DelayAndNotify) matches Some(recovery)
            && recovery.requirements.delay_notify_requirements matches Some(requirements)
            && crate::entities::spec_to_actor(
            key_proof.app_signed,
            key_proof.hw_signed,
            crate::entities::ToActorStrategy::PreferNonLostFactor(requirements.lost_factor),
        ) == Ok::<crate::entities::Actor, RecoveryError>(
            crate::entities::Actor::spec_holder(requirements.lost_factor),
        ),
    ensures
        handled(records, account, RecoveryEvent::CancelRecovery { key_proof }, world) == (
            records,
            Err::<RecoveryState, RecoveryError>(RecoveryError::CommsVerification),
        ),
{
    reveal_with_fuel(settled, 2);
}

/// The delay of a recovery can be changed for a test account only: for any
/// other account the update ends with `InvalidUpdateForNonTestAccount` and
/// the records, with the end of the delay in them, stay as they are.
pub proof fn lemma_delay_of_ordinary_account_stays(
    records: Seq<WalletRecovery>,
    account: FullAccount,
    delay_period_num_sec: Option<i64>,
    world: World,
)
    requires
        !account.is_test_account,
    ensures
        handled(
            records,
            account,
            RecoveryEvent::UpdateDelayForTestAccountRecovery { delay_period_num_sec },
            world,
        ) == (
            records,
            Err::<RecoveryState, RecoveryError>(RecoveryError::InvalidUpdateForNonTestAccount),
        ),
{
}

/// Creation is idempotent on the records: asked again with the destination
/// of the recovery that is pending, and signed as creation must be, it ends
/// in `PendingRecovery` with that recovery and writes no second record. What
/// the world is like does not matter.
pub proof fn lemma_repeated_creation_writes_nothing(
    records: Seq<WalletRecovery>,
    account: FullAccount,
    owner: FullAccount,
    lost_factor: crate::account::Factor,
    destination: RecoveryDestination,
    key_proof: crate::key_claims::KeyClaims,
    world: World,
)
    requires
        pending_of(records, account.id, RecoveryType::DelayAndNotify) matches Some(existing)
            && existing.spec_destination() == Some(destination),
        crate::current_account_recovery::vouches_for_recovery(
            key_proof.app_signed,
            key_proof.hw_signed,
            lost_factor,
        ),
    ensures
        handled(
            records,
            account,
            RecoveryEvent::CreateRecovery { account: owner, lost_factor, destination, key_proof },
            world,
        ) == (
            records,
            Ok::<RecoveryState, RecoveryError>(
                RecoveryState::PendingRecovery(
                    PendingRecoveryState {
                        recovery: pending_of(records, account.id, RecoveryType::DelayAndNotify)->0,
                    },
                ),
            ),
        ),
{
    reveal_with_fuel(settled, 1);
}

} // verus!
