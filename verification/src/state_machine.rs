//! The states of a recovery, the events that move it, and what a transition
//! is made of: the state that follows and the effects that have to be
//! carried out, in order, before the transition counts.

use vstd::prelude::*;
use crate::account::{AccountId, AuthPubkey, Factor, FullAccount, KeysetId, SpendingLimit};
use crate::destination::DestinationQuery;
use crate::entities::{
    CommsVerificationScope,
    RecoveryDestination,
    RecoveryRequirements,
    RecoveryStatus,
    RecoveryType,
    WalletRecovery,
};
use crate::error::RecoveryError;
use crate::instant::Timestamp;
use crate::key_claims::KeyClaims;

verus! {

/// The state in which every event arrives: the account, its pending recovery
/// if it has one, and whether a contested recovery of the account ended
/// within the last thirty days.
#[derive(Clone, Copy, Debug, PartialEq, Eq)]
pub struct CurrentAccountRecoveryState {
    pub account: FullAccount,
    pub recovery: Option<WalletRecovery>,
    pub active_contest: bool,
}

/// A recovery waits for its delay to run out.
#[derive(Clone, Copy, Debug, PartialEq, Eq)]
pub struct PendingRecoveryState {
    pub recovery: WalletRecovery,
}

/// The delay has run out and the new keys have signed: the recovery can
/// complete.
#[derive(Clone, Copy, Debug, PartialEq, Eq)]
pub struct CompletableRecoveryState {
    pub account: FullAccount,
    pub recovery: WalletRecovery,
    pub active_contest: bool,
}

/// The keys of the account are the new ones.
#[derive(Clone, Copy, Debug, PartialEq, Eq, Structural)]
pub struct RotatedKeysetState {
    pub active_keyset_id: KeysetId,
}

/// The recovery was called off.
#[derive(Clone, Copy, Debug, PartialEq, Eq, Structural)]
pub struct CanceledRecoveryState {}

/// The states of the recovery of one account.
#[derive(Clone, Copy, Debug, PartialEq, Eq)]
pub enum RecoveryState {
    CurrentAccountRecovery(CurrentAccountRecoveryState),
    PendingRecovery(PendingRecoveryState),
    CompletableRecovery(CompletableRecoveryState),
    RotatedKeyset(RotatedKeysetState),
    CanceledRecovery(CanceledRecoveryState),
}

/// What can happen to the recovery of an account.
#[derive(Clone, Debug)]
pub enum RecoveryEvent {
    /// A recovery toward `destination` is asked for.
    CreateRecovery {
        account: FullAccount,
        lost_factor: Factor,
        destination: RecoveryDestination,
        key_proof: KeyClaims,
    },
    /// The holder of the new keys asks whether the recovery can complete,
    /// and proves the keys by signing `challenge`.
    CheckEligibleForCompletion { challenge: String, app_signature: String, hardware_signature: String },
    /// The recovery is called off.
    CancelRecovery { key_proof: KeyClaims },
    /// The delay of the recovery of a test account is set anew, counted in
    /// seconds from the creation of the recovery.
    UpdateDelayForTestAccountRecovery { delay_period_num_sec: Option<i64> },
}

/// What the notification of a pending recovery says.
#[derive(Clone, Copy, Debug, PartialEq, Eq, Structural)]
pub struct RecoveryPendingDelayPeriodPayload {
    pub initiation_time: Timestamp,
    pub delay_end_time: Timestamp,
    pub lost_factor: Factor,
}

/// What the notification of a delay that has run out says.
#[derive(Clone, Copy, Debug, PartialEq, Eq, Structural)]
pub struct RecoveryCompletedDelayPeriodPayload {
    pub initiation_time: Timestamp,
    pub lost_factor: Factor,
}

/// What the notification of a canceled recovery says.
#[derive(Clone, Copy, Debug, PartialEq, Eq, Structural)]
pub struct RecoveryCanceledDelayPeriodPayload {
    pub initiation_time: Timestamp,
    pub lost_factor: Factor,
}

/// One thing that a transition asks of the services around the state
/// machine. The effects of a transition are carried out in their order; the
/// first one that a service turns down ends the event with its `refusal()`, and
/// those before it stay done.
#[derive(Clone, Copy, Debug, PartialEq, Eq)]
pub enum Effect {
    /// Use up one proof of contact of the account for `scope`.
    ConsumeCommsVerification { account_id: AccountId, scope: CommsVerificationScope },
    /// Write a new record, on condition that none is there under its key.
    CreateRecovery { recovery: WalletRecovery },
    /// Give the record with the key its final status.
    CompleteRecovery { account_id: AccountId, created_at: Timestamp, status: RecoveryStatus },
    /// Replace the requirements of the record with the key.
    UpdateRecoveryRequirements {
        account_id: AccountId,
        created_at: Timestamp,
        requirements: RecoveryRequirements,
    },
    /// Set the spending limit of the account.
    UpdateSpendingLimit { account_id: AccountId, new_spending_limit: Option<SpendingLimit> },
    /// Schedule the notification that a recovery is pending, and the one
    /// that is due when its delay runs out at `delay_end_time`.
    ScheduleNotifications {
        account_id: AccountId,
        delay_end_time: Timestamp,
        pending: RecoveryPendingDelayPeriodPayload,
        completed: RecoveryCompletedDelayPeriodPayload,
    },
    /// Send at once the notification that the recovery was canceled, to
    /// every touchpoint of the account.
    SendNotification { account_id: AccountId, canceled: RecoveryCanceledDelayPeriodPayload },
    /// Count one recovery that was created.
    RecordCreation { lost_factor: Factor, created_during_contest: bool },
    /// Count one recovery that was canceled, and record the whole minutes
    /// from `created_at` to the instant at which the effect is carried out.
    RecordCancellation {
        lost_factor: Factor,
        created_during_contest: bool,
        canceled_in_contest: bool,
        created_at: Timestamp,
    },
}

impl Effect {
    /// The error that ends the event where a service turns the effect down.
    /// Counting cannot fail.
    pub open spec fn spec_refusal(self) -> Option<RecoveryError> {
        match self {
            Effect::ConsumeCommsVerification { .. } => Some(RecoveryError::CommsVerification),
            Effect::CreateRecovery { .. } => Some(RecoveryError::Repository),
            Effect::CompleteRecovery { .. } => Some(RecoveryError::Repository),
            Effect::UpdateRecoveryRequirements { .. } => Some(RecoveryError::Repository),
            Effect::UpdateSpendingLimit { .. } => Some(RecoveryError::AccountService),
            Effect::ScheduleNotifications { .. } => Some(
                RecoveryError::ScheduleNotificationPersistanceError,
            ),
            Effect::SendNotification { .. } => Some(RecoveryError::SendNotificationError),
            Effect::RecordCreation { .. } => None,
            Effect::RecordCancellation { .. } => None,
        }
    }

    /// The error that ends the event where a service turns the effect down,
    /// if the effect can be turned down at all.
    pub fn refusal(&self) -> (r: Option<RecoveryError>)
        ensures
            r == self.spec_refusal(),
    {
        match self {
            Effect::ConsumeCommsVerification { .. } => Some(RecoveryError::CommsVerification),
            Effect::CreateRecovery { .. } => Some(RecoveryError::Repository),
            Effect::CompleteRecovery { .. } => Some(RecoveryError::Repository),
            Effect::UpdateRecoveryRequirements { .. } => Some(RecoveryError::Repository),
            Effect::UpdateSpendingLimit { .. } => Some(RecoveryError::AccountService),
            Effect::ScheduleNotifications { .. } => Some(
                RecoveryError::ScheduleNotificationPersistanceError,
            ),
            Effect::SendNotification { .. } => Some(RecoveryError::SendNotificationError),
            Effect::RecordCreation { .. } => None,
            Effect::RecordCancellation { .. } => None,
        }
    }
}

/// The state that follows a transition.
#[derive(Clone, Copy, Debug, PartialEq, Eq)]
pub enum NextState {
    /// The state is known before the effects are carried out.
    State(RecoveryState),
    /// The state is `PendingRecovery` with the pending record of the account
    /// as the store holds it once the effects are carried out.
    ReloadPending { account_id: AccountId, recovery_type: RecoveryType },
}

/// The outcome of an event: the effects to carry out and the state that
/// follows them.
#[derive(Clone, Debug)]
pub struct Transition {
    pub next: NextState,
    pub effects: Vec<Effect>,
}

/// A transition as a value of specifications.
pub struct TransitionView {
    pub next: NextState,
    pub effects: Seq<Effect>,
}

impl View for Transition {
    type V = TransitionView;

    open spec fn view(&self) -> TransitionView {
        TransitionView { next: self.next, effects: self.effects@ }
    }
}

/// What the state machine says to an event: a question that has to be
/// answered before it can decide, or the transition.
#[derive(Clone, Debug)]
pub enum Step {
    Ask(DestinationQuery),
    Transition(Transition),
}

/// A step as a value of specifications.
pub enum StepView {
    Ask(DestinationQuery),
    Transition(TransitionView),
}

impl View for Step {
    type V = StepView;

    open spec fn view(&self) -> StepView {
        match *self {
            Step::Ask(query) => StepView::Ask(query),
            Step::Transition(transition) => StepView::Transition(transition@),
        }
    }
}

/// The result of an event that ends in a transition, as a value of
/// specifications.
pub open spec fn transition_result_view(result: Result<Transition, RecoveryError>) -> Result<
    TransitionView,
    RecoveryError,
> {
    match result {
        Ok(transition) => Ok(transition@),
        Err(error) => Err(error),
    }
}

/// The result of an event, as a value of specifications.
pub open spec fn step_result_view(result: Result<Step, RecoveryError>) -> Result<
    StepView,
    RecoveryError,
> {
    match result {
        Ok(step) => Ok(step@),
        Err(error) => Err(error),
    }
}

/// The transition to `state` that asks for nothing.
pub open spec fn plain_transition(state: RecoveryState) -> TransitionView {
    TransitionView { next: NextState::State(state), effects: Seq::empty() }
}

impl PendingRecoveryState {
    /// The state after a transition to `ReloadPending`: the pending record
    /// that the store gave, or `NoExistingRecovery` where it gave none.
    pub fn reloaded(found: Option<WalletRecovery>) -> (r: Result<PendingRecoveryState, RecoveryError>)
        ensures
            r == match found {
                Some(recovery) => Ok::<PendingRecoveryState, RecoveryError>(
                    (PendingRecoveryState { recovery }),
                ),
                None => Err(RecoveryError::NoExistingRecovery),
            },
    {
        match found {
            Some(recovery) => Ok(PendingRecoveryState { recovery }),
            None => Err(RecoveryError::NoExistingRecovery),
        }
    }
}

/// The keys that a pending recovery will make the active ones.
#[derive(Clone, Copy, Debug, PartialEq, Eq)]
pub struct FullAccountAuthKeysPayload {
    pub app: AuthPubkey,
    pub hardware: AuthPubkey,
    pub recovery: Option<AuthPubkey>,
}

/// A pending recovery as it is shown to the outside.
#[derive(Clone, Copy, Debug, PartialEq, Eq)]
pub struct PendingDelayNotifyRecovery {
    pub delay_start_time: Timestamp,
    pub delay_end_time: Timestamp,
    pub lost_factor: Factor,
    pub auth_keys: FullAccountAuthKeysPayload,
}

/// The recovery of an account as it is shown to the outside.
#[derive(Clone, Copy, Debug, PartialEq, Eq)]
pub struct RecoveryResponse {
    pub pending_delay_notify: Option<PendingDelayNotifyRecovery>,
    pub active_contest: bool,
}

impl WalletRecovery {
    /// Whether the record holds what a delay-and-notify recovery needs: its
    /// requirements and its destination.
    pub open spec fn is_delay_notify(self) -> bool {
        &&& self.requirements.delay_notify_requirements is Some
        &&& self.recovery_action.delay_notify_action is Some
    }
}

impl CurrentAccountRecoveryState {
    /// What the state shows to the outside: whether the account is
    /// contested and, where a recovery is pending, when its delay began and
    /// ends, which factor was lost and which keys it leads to.
    pub open spec fn spec_response(self) -> RecoveryResponse {
        RecoveryResponse {
            pending_delay_notify: match self.recovery {
                Some(recovery) => Some(
                    PendingDelayNotifyRecovery {
                        delay_start_time: recovery.created_at,
                        delay_end_time: recovery.requirements.delay_notify_requirements->0.delay_end_time,
                        lost_factor: recovery.requirements.delay_notify_requirements->0.lost_factor,
                        auth_keys: FullAccountAuthKeysPayload {
                            app: recovery.spec_destination()->0.app_auth_pubkey,
                            hardware: recovery.spec_destination()->0.hardware_auth_pubkey,
                            recovery: recovery.spec_destination()->0.recovery_auth_pubkey,
                        },
                    },
                ),
                None => None,
            },
            active_contest: self.active_contest,
        }
    }

    /// Computes `spec_response`.
    pub fn response(self) -> (response: RecoveryResponse)
        requires
            self.recovery matches Some(recovery) ==> recovery.is_delay_notify(),
        ensures
            response == self.spec_response(),
    {
        let recovery = match self.recovery {
            Some(recovery) => recovery,
            None => {
                return RecoveryResponse {
                    pending_delay_notify: None,
                    active_contest: self.active_contest,
                };
            },
        };
        let requirements = recovery.requirements.delay_notify_requirements.unwrap();
        let destination = recovery.recovery_action.delay_notify_action.unwrap().destination;
        RecoveryResponse {
            pending_delay_notify: Some(
                PendingDelayNotifyRecovery {
                    delay_start_time: recovery.created_at,
                    delay_end_time: requirements.delay_end_time,
                    lost_factor: requirements.lost_factor,
                    auth_keys: FullAccountAuthKeysPayload {
                        app: destination.app_auth_pubkey,
                        hardware: destination.hardware_auth_pubkey,
                        recovery: destination.recovery_auth_pubkey,
                    },
                },
            ),
            active_contest: self.active_contest,
        }
    }
}

} // verus!
