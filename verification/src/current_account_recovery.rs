//! The transitions out of `CurrentAccountRecoveryState`.
//!
//! Each event has a specification function that gives its outcome as a value
//! and an executable function that computes it. Nothing here reaches a
//! service: what an event needs to know of the world it is handed (the answers
//! of the key lookups, the time), and what it wants done to the world it hands
//! back as the effects of the transition.

use vstd::prelude::*;
use crate::account::{AccountId, Factor, FullAccount, disabled_limit, spec_disabled_limit};
use crate::destination::{
    DestinationLookups,
    DestinationVerdict,
    destination_verdict,
    validate_destination,
};
use crate::entities::{
    Actor,
    CommsVerificationScope,
    DelayNotifyRecoveryAction,
    DelayNotifyRequirements,
    RecoveryAction,
    RecoveryDestination,
    RecoveryRequirements,
    RecoveryStatus,
    RecoveryType,
    ToActorStrategy,
    WalletRecovery,
    spec_to_actor,
};
use crate::error::RecoveryError;
use crate::helpers::{signatures_hold, validate_signatures};
use crate::instant::{
    Duration,
    NANOS_PER_SECOND,
    Timestamp,
    representable,
    rfc3339_representable,
};
use crate::key_claims::KeyClaims;
use crate::state_machine::{
    CanceledRecoveryState,
    CompletableRecoveryState,
    CurrentAccountRecoveryState,
    Effect,
    NextState,
    PendingRecoveryState,
    RecoveryCanceledDelayPeriodPayload,
    RecoveryCompletedDelayPeriodPayload,
    RecoveryEvent,
    RecoveryPendingDelayPeriodPayload,
    RecoveryState,
    RotatedKeysetState,
    Step,
    StepView,
    Transition,
    TransitionView,
    plain_transition,
    step_result_view,
    transition_result_view,
};

verus! {

/// The record that a recovery starts with: pending, created at `now`, and
/// completable once `delay` has passed.
pub open spec fn new_recovery(
    account_id: AccountId,
    lost_factor: Factor,
    destination: RecoveryDestination,
    now: Timestamp,
    delay: Duration,
) -> WalletRecovery {
    WalletRecovery {
        account_id,
        created_at: now,
        recovery_status: RecoveryStatus::Pending,
        recovery_type: RecoveryType::DelayAndNotify,
        requirements: RecoveryRequirements {
            delay_notify_requirements: Some(
                DelayNotifyRequirements { lost_factor, delay_end_time: Timestamp::at(now@ + delay@) },
            ),
        },
        recovery_action: RecoveryAction {
            delay_notify_action: Some(DelayNotifyRecoveryAction { destination }),
        },
        updated_at: now,
    }
}

/// The effect that uses up a proof of contact, where `needed`.
pub open spec fn comms_verification_effects(needed: bool, account_id: AccountId, actor: Actor) -> Seq<
    Effect,
> {
    if needed {
        seq![
            Effect::ConsumeCommsVerification {
                account_id,
                scope: CommsVerificationScope::DelayNotifyActor(actor),
            },
        ]
    } else {
        Seq::empty()
    }
}

/// The effect that switches spending under the limit off, where `needed`.
pub open spec fn spending_limit_effects(needed: bool, account_id: AccountId, account: FullAccount) -> Seq<
    Effect,
> {
    if needed {
        seq![
            Effect::UpdateSpendingLimit {
                account_id,
                new_spending_limit: spec_disabled_limit(account.spending_limit),
            },
        ]
    } else {
        Seq::empty()
    }
}

/// The record of `state` with the requirements that an update of the delay
/// to `delay_period_num_sec` seconds gives it: the delay ends that long after
/// the creation of the record, or where it ended before if no number is
/// given.
pub open spec fn updated_requirements(
    recovery: WalletRecovery,
    requirements: DelayNotifyRequirements,
    delay_period_num_sec: Option<i64>,
) -> RecoveryRequirements {
    RecoveryRequirements {
        delay_notify_requirements: Some(
            DelayNotifyRequirements {
                delay_end_time: match delay_period_num_sec {
                    Some(seconds) => Timestamp::at(recovery.created_at@ + seconds * NANOS_PER_SECOND),
                    None => requirements.delay_end_time,
                },
                ..requirements
            },
        ),
    }
}

impl CurrentAccountRecoveryState {
    /// What the creation of a recovery asks of the services, in order: a
    /// proof of contact of `actor` where a contest is active; the new record;
    /// where the application key is lost, the end of spending under the
    /// limit; the notifications; the count.
    pub open spec fn creation_effects(
        self,
        account: FullAccount,
        lost_factor: Factor,
        destination: RecoveryDestination,
        actor: Actor,
        now: Timestamp,
    ) -> Seq<Effect> {
        let account_id = self.account.id;
        let delay_end_time = Timestamp::at(now@ + account.recovery_delay_period@);
        comms_verification_effects(self.active_contest, account_id, actor) + seq![
            Effect::CreateRecovery {
                recovery: new_recovery(
                    account_id,
                    lost_factor,
                    destination,
                    now,
                    account.recovery_delay_period,
                ),
            },
        ] + spending_limit_effects(lost_factor == Factor::App, account_id, account) + seq![
            Effect::ScheduleNotifications {
                account_id,
                delay_end_time,
                pending: RecoveryPendingDelayPeriodPayload {
                    initiation_time: now,
                    delay_end_time,
                    lost_factor,
                },
                completed: RecoveryCompletedDelayPeriodPayload { initiation_time: now, lost_factor },
            },
            Effect::RecordCreation { lost_factor, created_during_contest: self.active_contest },
        ]
    }

    /// The transition that creates a recovery.
    pub open spec fn creation(
        self,
        account: FullAccount,
        lost_factor: Factor,
        destination: RecoveryDestination,
        actor: Actor,
        now: Timestamp,
    ) -> TransitionView {
        TransitionView {
            next: NextState::State(
                RecoveryState::PendingRecovery(
                    PendingRecoveryState {
                        recovery: new_recovery(
                            self.account.id,
                            lost_factor,
                            destination,
                            now,
                            account.recovery_delay_period,
                        ),
                    },
                ),
            ),
            effects: self.creation_effects(account, lost_factor, destination, actor, now),
        }
    }

    /// The outcome of `CreateRecovery` for a request that `actor` made.
    pub open spec fn create_outcome_for(
        self,
        account: FullAccount,
        lost_factor: Factor,
        destination: RecoveryDestination,
        actor: Actor,
        lookups: DestinationLookups,
        now: Timestamp,
    ) -> Result<StepView, RecoveryError> {
        if actor == Actor::spec_holder(lost_factor) {
            Err(RecoveryError::UnexpectedKeyProof)
        } else if let Some(existing) = self.recovery {
            if existing.spec_destination() == Some(destination) {
                Ok(
                    StepView::Transition(
                        plain_transition(
                            RecoveryState::PendingRecovery(PendingRecoveryState { recovery: existing }),
                        ),
                    ),
                )
            } else {
                Err(RecoveryError::StartRecoveryForAccount)
            }
        } else if account.active_auth_keys_id != destination.source_auth_keys_id {
            Err(RecoveryError::InvalidRecoverySource)
        } else if let Some(account_auth_keys) = account.active_auth_keys {
            match destination_verdict(account.id, account_auth_keys, lost_factor, destination, lookups) {
                DestinationVerdict::Ask(query) => Ok(StepView::Ask(query)),
                DestinationVerdict::Rejected(error) => Err(error),
                DestinationVerdict::Accepted => Ok(
                    StepView::Transition(self.creation(account, lost_factor, destination, actor, now)),
                ),
            }
        } else {
            Err(RecoveryError::NoActiveAuthKeysError)
        }
    }

    /// The outcome of `CreateRecovery`. Exactly one factor must have signed
    /// the request, and not the lost one. A pending recovery toward the same
    /// destination is returned as it is, and one toward another destination
    /// stands in the way. Otherwise the destination must start from the active
    /// keys of `account` and pass the rules on its keys, for which `lookups`
    /// may still lack an answer; then the recovery is created at `now`.
    pub open spec fn create_outcome(
        self,
        account: FullAccount,
        lost_factor: Factor,
        destination: RecoveryDestination,
        app_signed: bool,
        hw_signed: bool,
        lookups: DestinationLookups,
        now: Timestamp,
    ) -> Result<StepView, RecoveryError> {
        match spec_to_actor(app_signed, hw_signed, ToActorStrategy::ExclusiveOr) {
            Ok(actor) => self.create_outcome_for(account, lost_factor, destination, actor, lookups, now),
            Err(error) => Err(error),
        }
    }

    fn plan_creation(
        &self,
        account: &FullAccount,
        lost_factor: Factor,
        destination: &RecoveryDestination,
        actor: Actor,
        now: Timestamp,
    ) -> (transition: Transition)
        requires
            representable(now@ + account.recovery_delay_period@),
        ensures
            transition@ == self.creation(*account, lost_factor, *destination, actor, now),
    {
        let account_id = self.account.id;
        let delay_end_time = now.checked_add(account.recovery_delay_period).unwrap();
        let recovery = WalletRecovery {
            account_id,
            created_at: now,
            recovery_status: RecoveryStatus::Pending,
            recovery_type: RecoveryType::DelayAndNotify,
            requirements: RecoveryRequirements {
                delay_notify_requirements: Some(DelayNotifyRequirements { lost_factor, delay_end_time }),
            },
            recovery_action: RecoveryAction {
                delay_notify_action: Some(DelayNotifyRecoveryAction { destination: *destination }),
            },
            updated_at: now,
        };
        let mut effects: Vec<Effect> = Vec::new();
        if self.active_contest {
            effects.push(
                Effect::ConsumeCommsVerification {
                    account_id,
                    scope: CommsVerificationScope::DelayNotifyActor(actor),
                },
            );
        }
        effects.push(Effect::CreateRecovery { recovery });
        if lost_factor == Factor::App {
            effects.push(
                Effect::UpdateSpendingLimit {
                    account_id,
                    new_spending_limit: disabled_limit(account.spending_limit),
                },
            );
        }
        effects.push(
            Effect::ScheduleNotifications {
                account_id,
                delay_end_time,
                pending: RecoveryPendingDelayPeriodPayload {
                    initiation_time: now,
                    delay_end_time,
                    lost_factor,
                },
                completed: RecoveryCompletedDelayPeriodPayload { initiation_time: now, lost_factor },
            },
        );
        effects.push(
            Effect::RecordCreation { lost_factor, created_during_contest: self.active_contest },
        );
        assert(effects@ =~= self.creation_effects(*account, lost_factor, *destination, actor, now));
        Transition {
            next: NextState::State(RecoveryState::PendingRecovery(PendingRecoveryState { recovery })),
            effects,
        }
    }

    /// Handles `CreateRecovery`. Called again with each answer added to
    /// `lookups` and with the time as it then is, until the step is no longer
    /// a question. The new record is sorted by the RFC 3339 text of `now`, so
    /// `now` must have one, and the end of the delay must be an instant that
    /// can be represented.
    pub fn create_recovery(
        &self,
        account: &FullAccount,
        lost_factor: Factor,
        destination: &RecoveryDestination,
        key_proof: &KeyClaims,
        lookups: &DestinationLookups,
        now: Timestamp,
    ) -> (r: Result<Step, RecoveryError>)
        requires
            rfc3339_representable(now@),
            representable(now@ + account.recovery_delay_period@),
        ensures
            step_result_view(r) == self.create_outcome(
                *account,
                lost_factor,
                *destination,
                key_proof.app_signed,
                key_proof.hw_signed,
                *lookups,
                now,
            ),
    {
        let actor = match key_proof.to_actor(ToActorStrategy::ExclusiveOr) {
            Ok(actor) => actor,
            Err(error) => {
                return Err(error);
            },
        };
        if actor.holds(lost_factor) {
            return Err(RecoveryError::UnexpectedKeyProof);
        }
        if let Some(existing) = self.recovery {
            let same_destination = match existing.recovery_action.delay_notify_action {
                Some(action) => action.destination.same(destination),
                None => false,
            };
            if same_destination {
                let transition = Transition {
                    next: NextState::State(
                        RecoveryState::PendingRecovery(PendingRecoveryState { recovery: existing }),
                    ),
                    effects: Vec::new(),
                };
                assert(transition.effects@ =~= Seq::<Effect>::empty());
                return Ok(Step::Transition(transition));
            } else {
                return Err(RecoveryError::StartRecoveryForAccount);
            }
        }
        if account.active_auth_keys_id != destination.source_auth_keys_id {
            return Err(RecoveryError::InvalidRecoverySource);
        }
        let account_auth_keys = match account.active_auth_keys {
            Some(keys) => keys,
            None => {
                return Err(RecoveryError::NoActiveAuthKeysError);
            },
        };
        match validate_destination(&account.id, &account_auth_keys, lost_factor, destination, lookups) {
            DestinationVerdict::Ask(query) => Ok(Step::Ask(query)),
            DestinationVerdict::Rejected(error) => Err(error),
            DestinationVerdict::Accepted => Ok(
                Step::Transition(self.plan_creation(account, lost_factor, destination, actor, now)),
            ),
        }
    }

    /// The outcome of `CheckEligibleForCompletion`, given whether the
    /// signatures over the challenge hold under the keys that
    /// `completion_keys` names. With no recovery pending the check is a repeat
    /// of one that has gone through: the active keys must have signed. With a
    /// recovery pending its destination keys must have signed, and the delay
    /// must be over at `now`.
    pub open spec fn completion_outcome(self, signatures_valid: bool, now: Timestamp) -> Result<
        TransitionView,
        RecoveryError,
    > {
        match self.recovery {
            None => {
                if self.account.active_auth_keys is None {
                    Err(RecoveryError::NoActiveAuthKeysError)
                } else if !signatures_valid {
                    Err(RecoveryError::NoExistingRecovery)
                } else {
                    Ok(
                        plain_transition(
                            RecoveryState::RotatedKeyset(
                                RotatedKeysetState { active_keyset_id: self.account.active_keyset_id },
                            ),
                        ),
                    )
                }
            },
            Some(recovery) => {
                if recovery.requirements.delay_notify_requirements is None
                    || recovery.recovery_action.delay_notify_action is None {
                    Err(RecoveryError::InvalidRecoveryDestination)
                } else if !signatures_valid {
                    Err(RecoveryError::InvalidInputForCompletion)
                } else if now@ < recovery.requirements.delay_notify_requirements->0.delay_end_time@ {
                    Err(RecoveryError::DelayPeriodNotFinished)
                } else {
                    Ok(
                        plain_transition(
                            RecoveryState::CompletableRecovery(
                                CompletableRecoveryState {
                                    account: self.account,
                                    recovery,
                                    active_contest: self.active_contest,
                                },
                            ),
                        ),
                    )
                }
            },
        }
    }

    /// Whether the signatures over `challenge` hold under the keys that have
    /// to sign: the destination keys of the pending recovery, or the active
    /// keys of the account where no recovery is pending.
    pub open spec fn completion_signatures_hold(
        self,
        challenge: Seq<char>,
        app_signature: Seq<char>,
        hardware_signature: Seq<char>,
    ) -> bool {
        match self.recovery {
            None => self.account.active_auth_keys matches Some(keys) && signatures_hold(
                keys.app_pubkey,
                keys.hardware_pubkey,
                challenge,
                app_signature,
                hardware_signature,
            ),
            Some(recovery) => recovery.spec_destination() matches Some(destination)
                && signatures_hold(
                destination.app_auth_pubkey,
                destination.hardware_auth_pubkey,
                challenge,
                app_signature,
                hardware_signature,
            ),
        }
    }

    /// Decides `CheckEligibleForCompletion` once the signatures are checked.
    pub fn judge_completion(&self, signatures_valid: bool, now: Timestamp) -> (r: Result<
        Transition,
        RecoveryError,
    >)
        ensures
            transition_result_view(r) == self.completion_outcome(signatures_valid, now),
    {
        let next = match self.recovery {
            None => {
                if self.account.active_auth_keys.is_none() {
                    return Err(RecoveryError::NoActiveAuthKeysError);
                }
                if !signatures_valid {
                    return Err(RecoveryError::NoExistingRecovery);
                }
                RecoveryState::RotatedKeyset(
                    RotatedKeysetState { active_keyset_id: self.account.active_keyset_id },
                )
            },
            Some(recovery) => {
                let requirements = match (
                    recovery.requirements.delay_notify_requirements,
                    recovery.recovery_action.delay_notify_action,
                ) {
                    (Some(requirements), Some(_)) => requirements,
                    _ => {
                        return Err(RecoveryError::InvalidRecoveryDestination);
                    },
                };
                if !signatures_valid {
                    return Err(RecoveryError::InvalidInputForCompletion);
                }
                if now.is_before(requirements.delay_end_time) {
                    return Err(RecoveryError::DelayPeriodNotFinished);
                }
                RecoveryState::CompletableRecovery(
                    CompletableRecoveryState {
                        account: self.account,
                        recovery,
                        active_contest: self.active_contest,
                    },
                )
            },
        };
        let transition = Transition { next: NextState::State(next), effects: Vec::new() };
        assert(transition.effects@ =~= Seq::<Effect>::empty());
        Ok(transition)
    }

    /// Handles `CheckEligibleForCompletion`: checks the signatures and
    /// decides.
    pub fn check_eligible_for_completion(
        &self,
        challenge: &str,
        app_signature: &str,
        hardware_signature: &str,
        now: Timestamp,
    ) -> (r: Result<Transition, RecoveryError>)
        ensures
            transition_result_view(r) == self.completion_outcome(
                self.completion_signatures_hold(challenge@, app_signature@, hardware_signature@),
                now,
            ),
    {
        let keys = match self.recovery {
            None => match self.account.active_auth_keys {
                Some(keys) => Some((keys.app_pubkey, keys.hardware_pubkey)),
                None => None,
            },
            Some(recovery) => match recovery.recovery_action.delay_notify_action {
                Some(action) => Some(
                    (action.destination.app_auth_pubkey, action.destination.hardware_auth_pubkey),
                ),
                None => None,
            },
        };
        let signatures_valid = match keys {
            Some((app_auth_pubkey, hardware_auth_pubkey)) => validate_signatures(
                &app_auth_pubkey,
                &hardware_auth_pubkey,
                challenge,
                app_signature,
                hardware_signature,
            ).is_ok(),
            None => false,
        };
        self.judge_completion(signatures_valid, now)
    }

    /// Whether the pending record of the state, if there is one, says which
    /// factor was lost.
    pub open spec fn names_lost_factor(self) -> bool {
        self.recovery matches Some(recovery) ==> recovery.requirements.delay_notify_requirements
            is Some
    }

    /// What the cancellation of `recovery` by `actor` asks of the services,
    /// in order. The actor contests the recovery where it holds the factor
    /// that is given as lost. A contest during an active contest takes a proof
    /// of contact first; the record is then marked as canceled, in contest or
    /// not; a contest ends spending under the limit; the notification goes out
    /// and the cancellation is counted.
    pub open spec fn cancellation_effects(self, recovery: WalletRecovery, actor: Actor) -> Seq<Effect> {
        let lost_factor = recovery.requirements.delay_notify_requirements->0.lost_factor;
        let contesting = actor == Actor::spec_holder(lost_factor);
        let account_id = self.account.id;
        comms_verification_effects(contesting && self.active_contest, account_id, actor) + seq![
            Effect::CompleteRecovery {
                account_id: recovery.account_id,
                created_at: recovery.created_at,
                status: if contesting {
                    RecoveryStatus::CanceledInContest
                } else {
                    RecoveryStatus::Canceled
                },
            },
        ] + spending_limit_effects(contesting, account_id, self.account) + seq![
            Effect::SendNotification {
                account_id,
                canceled: RecoveryCanceledDelayPeriodPayload {
                    initiation_time: recovery.created_at,
                    lost_factor,
                },
            },
            Effect::RecordCancellation {
                lost_factor,
                created_during_contest: self.active_contest,
                canceled_in_contest: contesting,
                created_at: recovery.created_at,
            },
        ]
    }

    /// The outcome of `CancelRecovery`. Where both factors have signed, the
    /// request is attributed to the one that is not lost.
    pub open spec fn cancel_outcome(self, app_signed: bool, hw_signed: bool) -> Result<
        TransitionView,
        RecoveryError,
    > {
        match self.recovery {
            None => Err(RecoveryError::NoExistingRecovery),
            Some(recovery) => match spec_to_actor(
                app_signed,
                hw_signed,
                ToActorStrategy::PreferNonLostFactor(
                    recovery.requirements.delay_notify_requirements->0.lost_factor,
                ),
            ) {
                Ok(actor) => Ok(
                    TransitionView {
                        next: NextState::State(RecoveryState::CanceledRecovery(CanceledRecoveryState {  })),
                        effects: self.cancellation_effects(recovery, actor),
                    },
                ),
                Err(error) => Err(error),
            },
        }
    }

    /// Handles `CancelRecovery`.
    pub fn cancel_recovery(&self, key_proof: &KeyClaims) -> (r: Result<Transition, RecoveryError>)
        requires
            self.names_lost_factor(),
        ensures
            transition_result_view(r) == self.cancel_outcome(key_proof.app_signed, key_proof.hw_signed),
    {
        let recovery = match self.recovery {
            Some(recovery) => recovery,
            None => {
                return Err(RecoveryError::NoExistingRecovery);
            },
        };
        let requirements = recovery.requirements.delay_notify_requirements.unwrap();
        let lost_factor = requirements.lost_factor;
        let actor = match key_proof.to_actor(ToActorStrategy::PreferNonLostFactor(lost_factor)) {
            Ok(actor) => actor,
            Err(error) => {
                return Err(error);
            },
        };
        let is_contesting_recovery = actor.holds(lost_factor);
        let account_id = self.account.id;
        let mut effects: Vec<Effect> = Vec::new();
        if is_contesting_recovery && self.active_contest {
            effects.push(
                Effect::ConsumeCommsVerification {
                    account_id,
                    scope: CommsVerificationScope::DelayNotifyActor(actor),
                },
            );
        }
        let status = if is_contesting_recovery {
            RecoveryStatus::CanceledInContest
        } else {
            RecoveryStatus::Canceled
        };
        effects.push(
            Effect::CompleteRecovery {
                account_id: recovery.account_id,
                created_at: recovery.created_at,
                status,
            },
        );
        if is_contesting_recovery {
            effects.push(
                Effect::UpdateSpendingLimit {
                    account_id,
                    new_spending_limit: disabled_limit(self.account.spending_limit),
                },
            );
        }
        effects.push(
            Effect::SendNotification {
                account_id,
                canceled: RecoveryCanceledDelayPeriodPayload {
                    initiation_time: recovery.created_at,
                    lost_factor,
                },
            },
        );
        effects.push(
            Effect::RecordCancellation {
                lost_factor,
                created_during_contest: self.active_contest,
                canceled_in_contest: is_contesting_recovery,
                created_at: recovery.created_at,
            },
        );
        assert(effects@ =~= self.cancellation_effects(recovery, actor));
        Ok(
            Transition {
                next: NextState::State(RecoveryState::CanceledRecovery(CanceledRecoveryState {  })),
                effects,
            },
        )
    }

    /// Whether the end of the delay that an update to `delay_period_num_sec`
    /// seconds asks for is an instant that can be represented. This is asked
    /// only where the update comes to compute it: for a test account whose
    /// pending record holds requirements.
    pub open spec fn delay_update_fits(self, delay_period_num_sec: Option<i64>) -> bool {
        match (self.recovery, delay_period_num_sec) {
            (Some(recovery), Some(seconds)) => self.account.is_test_account
                && recovery.requirements.delay_notify_requirements is Some ==> representable(
                recovery.created_at@ + seconds * NANOS_PER_SECOND,
            ),
            _ => true,
        }
    }

    /// The outcome of `UpdateDelayForTestAccountRecovery`: for a test account
    /// with a pending recovery, the new requirements are written and the
    /// state that follows is the pending record as the store then holds it.
    pub open spec fn update_delay_outcome(self, delay_period_num_sec: Option<i64>) -> Result<
        TransitionView,
        RecoveryError,
    > {
        if !self.account.is_test_account {
            Err(RecoveryError::InvalidUpdateForNonTestAccount)
        } else if let Some(recovery) = self.recovery {
            if let Some(requirements) = recovery.requirements.delay_notify_requirements {
                Ok(
                    TransitionView {
                        next: NextState::ReloadPending {
                            account_id: self.account.id,
                            recovery_type: RecoveryType::DelayAndNotify,
                        },
                        effects: seq![
                            Effect::UpdateRecoveryRequirements {
                                account_id: recovery.account_id,
                                created_at: recovery.created_at,
                                requirements: updated_requirements(
                                    recovery,
                                    requirements,
                                    delay_period_num_sec,
                                ),
                            },
                        ],
                    },
                )
            } else {
                Err(RecoveryError::MalformedRecoveryRequirements)
            }
        } else {
            Err(RecoveryError::NoExistingRecovery)
        }
    }

    /// Handles `UpdateDelayForTestAccountRecovery`.
    pub fn update_delay_for_test_account_recovery(&self, delay_period_num_sec: Option<i64>) -> (r:
        Result<Transition, RecoveryError>)
        requires
            self.delay_update_fits(delay_period_num_sec),
        ensures
            transition_result_view(r) == self.update_delay_outcome(delay_period_num_sec),
    {
        if !self.account.is_test_account {
            return Err(RecoveryError::InvalidUpdateForNonTestAccount);
        }
        let recovery = match self.recovery {
            Some(recovery) => recovery,
            None => {
                return Err(RecoveryError::NoExistingRecovery);
            },
        };
        let requirements = match recovery.requirements.delay_notify_requirements {
            Some(requirements) => requirements,
            None => {
                return Err(RecoveryError::MalformedRecoveryRequirements);
            },
        };
        let delay_end_time = match delay_period_num_sec {
            Some(delay_period) => recovery.created_at.checked_add(
                Duration::seconds(delay_period),
            ).unwrap(),
            None => requirements.delay_end_time,
        };
        let updated = RecoveryRequirements {
            delay_notify_requirements: Some(DelayNotifyRequirements { delay_end_time, ..requirements }),
        };
        let mut effects: Vec<Effect> = Vec::new();
        effects.push(
            Effect::UpdateRecoveryRequirements {
                account_id: recovery.account_id,
                created_at: recovery.created_at,
                requirements: updated,
            },
        );
        assert(effects@ =~= seq![
            Effect::UpdateRecoveryRequirements {
                account_id: recovery.account_id,
                created_at: recovery.created_at,
                requirements: updated_requirements(recovery, requirements, delay_period_num_sec),
            },
        ]);
        Ok(
            Transition {
                next: NextState::ReloadPending {
                    account_id: self.account.id,
                    recovery_type: RecoveryType::DelayAndNotify,
                },
                effects,
            },
        )
    }

    /// Whether the state can take up `event` at `now`: the instants that the
    /// event gives rise to can be represented, and a record that is to be
    /// canceled says which factor was lost.
    pub open spec fn admits(self, event: RecoveryEvent, now: Timestamp) -> bool {
        match event {
            RecoveryEvent::CreateRecovery { account, .. } => rfc3339_representable(now@)
                && representable(now@ + account.recovery_delay_period@),
            RecoveryEvent::CheckEligibleForCompletion { .. } => true,
            RecoveryEvent::CancelRecovery { .. } => self.names_lost_factor(),
            RecoveryEvent::UpdateDelayForTestAccountRecovery {
                delay_period_num_sec,
            } => self.delay_update_fits(delay_period_num_sec),
        }
    }

    /// Computes `admits`.
    pub fn is_admitted(&self, event: &RecoveryEvent, now: Timestamp) -> (r: bool)
        ensures
            r == self.admits(*event, now),
    {
        match event {
            RecoveryEvent::CreateRecovery { account, .. } => now.to_rfc3339().is_some()
                && now.checked_add(account.recovery_delay_period).is_some(),
            RecoveryEvent::CheckEligibleForCompletion { .. } => true,
            RecoveryEvent::CancelRecovery { .. } => match self.recovery {
                Some(recovery) => recovery.requirements.delay_notify_requirements.is_some(),
                None => true,
            },
            RecoveryEvent::UpdateDelayForTestAccountRecovery {
                delay_period_num_sec,
            } => match (self.recovery, delay_period_num_sec) {
                (Some(recovery), Some(seconds)) => !self.account.is_test_account
                    || recovery.requirements.delay_notify_requirements.is_none()
                    || recovery.created_at.checked_add(Duration::seconds(*seconds)).is_some(),
                _ => true,
            },
        }
    }

    /// The outcome of `event`: that of the one event that it is.
    pub open spec fn outcome(self, event: RecoveryEvent, lookups: DestinationLookups, now: Timestamp) -> Result<
        StepView,
        RecoveryError,
    > {
        match event {
            RecoveryEvent::CreateRecovery {
                account,
                lost_factor,
                destination,
                key_proof,
            } => self.create_outcome(
                account,
                lost_factor,
                destination,
                key_proof.app_signed,
                key_proof.hw_signed,
                lookups,
                now,
            ),
            RecoveryEvent::CheckEligibleForCompletion {
                challenge,
                app_signature,
                hardware_signature,
            } => as_step(
                self.completion_outcome(
                    self.completion_signatures_hold(challenge@, app_signature@, hardware_signature@),
                    now,
                ),
            ),
            RecoveryEvent::CancelRecovery { key_proof } => as_step(
                self.cancel_outcome(key_proof.app_signed, key_proof.hw_signed),
            ),
            RecoveryEvent::UpdateDelayForTestAccountRecovery { delay_period_num_sec } => as_step(
                self.update_delay_outcome(delay_period_num_sec),
            ),
        }
    }

    /// The transition that `event` leads to, the question that has to be
    /// answered first, or the error that turns the event down. `lookups`
    /// holds the answers given so far and `now` is the time of the call.
    pub fn next_transition_or_err(
        &self,
        event: &RecoveryEvent,
        lookups: &DestinationLookups,
        now: Timestamp,
    ) -> (r: Result<Step, RecoveryError>)
        requires
            self.admits(*event, now),
        ensures
            step_result_view(r) == self.outcome(*event, *lookups, now),
    {
        let result = match event {
            RecoveryEvent::CreateRecovery { account, lost_factor, destination, key_proof } => {
                return self.create_recovery(account, *lost_factor, destination, key_proof, lookups, now);
            },
            RecoveryEvent::CheckEligibleForCompletion {
                challenge,
                app_signature,
                hardware_signature,
            } => self.check_eligible_for_completion(
                challenge.as_str(),
                app_signature.as_str(),
                hardware_signature.as_str(),
                now,
            ),
            RecoveryEvent::CancelRecovery { key_proof } => self.cancel_recovery(key_proof),
            RecoveryEvent::UpdateDelayForTestAccountRecovery {
                delay_period_num_sec,
            } => self.update_delay_for_test_account_recovery(*delay_period_num_sec),
        };
        match result {
            Ok(transition) => Ok(Step::Transition(transition)),
            Err(error) => Err(error),
        }
    }
}

/// The outcome of an event that puts no question, as a step.
pub open spec fn as_step(result: Result<TransitionView, RecoveryError>) -> Result<
    StepView,
    RecoveryError,
> {
    match result {
        Ok(transition) => Ok(StepView::Transition(transition)),
        Err(error) => Err(error),
    }
}

impl RecoveryState {
    /// The outcome of `event` in any state. Events are taken up in
    /// `CurrentAccountRecovery` only; in every other state each of them is an
    /// invalid transition.
    pub open spec fn outcome(self, event: RecoveryEvent, lookups: DestinationLookups, now: Timestamp) -> Result<
        StepView,
        RecoveryError,
    > {
        match self {
            RecoveryState::CurrentAccountRecovery(state) => state.outcome(event, lookups, now),
            _ => Err(RecoveryError::InvalidTransition),
        }
    }

    /// Whether the state can take up `event` at `now`.
    pub open spec fn admits(self, event: RecoveryEvent, now: Timestamp) -> bool {
        self matches RecoveryState::CurrentAccountRecovery(state) ==> state.admits(event, now)
    }

    /// The one transition function of the state machine.
    pub fn transition(&self, event: &RecoveryEvent, lookups: &DestinationLookups, now: Timestamp) -> (r:
        Result<Step, RecoveryError>)
        requires
            self.admits(*event, now),
        ensures
            step_result_view(r) == self.outcome(*event, *lookups, now),
    {
        match self {
            RecoveryState::CurrentAccountRecovery(state) => state.next_transition_or_err(
                event,
                lookups,
                now,
            ),
            _ => Err(RecoveryError::InvalidTransition),
        }
    }
}

/// Whether the signatures on a request are those of exactly one factor, and
/// not of `lost_factor`: the key proof that the creation of a recovery asks
/// for.
pub open spec fn vouches_for_recovery(app_signed: bool, hw_signed: bool, lost_factor: Factor) -> bool {
    match lost_factor {
        Factor::App => hw_signed && !app_signed,
        Factor::Hw => app_signed && !hw_signed,
    }
}

/// Creation is idempotent: asked again with the destination of the recovery
/// that is pending, and signed as creation must be, it returns that recovery
/// as `PendingRecovery` and asks for no effect, so that no second record is
/// written. Neither the answers of the key lookups nor the time matter.
pub proof fn lemma_repeated_creation_returns_pending(
    state: CurrentAccountRecoveryState,
    account: FullAccount,
    lost_factor: Factor,
    destination: RecoveryDestination,
    app_signed: bool,
    hw_signed: bool,
    lookups: DestinationLookups,
    now: Timestamp,
)
    requires
        state.recovery matches Some(existing) && existing.spec_destination() == Some(destination),
        vouches_for_recovery(app_signed, hw_signed, lost_factor),
    ensures
        state.create_outcome(account, lost_factor, destination, app_signed, hw_signed, lookups, now)
            == Ok::<StepView, RecoveryError>(
            StepView::Transition(
                TransitionView {
                    next: NextState::State(
                        RecoveryState::PendingRecovery(
                            PendingRecoveryState { recovery: state.recovery->0 },
                        ),
                    ),
                    effects: Seq::empty(),
                },
            ),
        ),
{
}

/// While a recovery is pending, the creation of one toward another
/// destination fails with `StartRecoveryForAccount`.
pub proof fn lemma_other_destination_refused(
    state: CurrentAccountRecoveryState,
    account: FullAccount,
    lost_factor: Factor,
    destination: RecoveryDestination,
    app_signed: bool,
    hw_signed: bool,
    lookups: DestinationLookups,
    now: Timestamp,
)
    requires
        state.recovery matches Some(existing) && existing.spec_destination() != Some(destination),
        vouches_for_recovery(app_signed, hw_signed, lost_factor),
    ensures
        state.create_outcome(account, lost_factor, destination, app_signed, hw_signed, lookups, now)
            == Err::<StepView, RecoveryError>(RecoveryError::StartRecoveryForAccount),
{
}

/// A request for creation that is not signed as creation must be fails with
/// `UnexpectedKeyProof`, whatever else holds.
pub proof fn lemma_creation_needs_key_proof(
    state: CurrentAccountRecoveryState,
    account: FullAccount,
    lost_factor: Factor,
    destination: RecoveryDestination,
    app_signed: bool,
    hw_signed: bool,
    lookups: DestinationLookups,
    now: Timestamp,
)
    requires
        !vouches_for_recovery(app_signed, hw_signed, lost_factor),
    ensures
        state.create_outcome(account, lost_factor, destination, app_signed, hw_signed, lookups, now)
            == Err::<StepView, RecoveryError>(RecoveryError::UnexpectedKeyProof),
{
}

/// With valid signatures of the destination keys, the check for completion
/// of a pending recovery fails with `DelayPeriodNotFinished` before the end
/// of the delay, and leads to `CompletableRecovery` at the end and after it.
pub proof fn lemma_completion_waits_for_delay(
    state: CurrentAccountRecoveryState,
    recovery: WalletRecovery,
    requirements: DelayNotifyRequirements,
    now: Timestamp,
)
    requires
        state.recovery == Some(recovery),
        recovery.requirements.delay_notify_requirements == Some(requirements),
        recovery.recovery_action.delay_notify_action is Some,
    ensures
        now@ < requirements.delay_end_time@ ==> state.completion_outcome(true, now) == Err::<
            TransitionView,
            RecoveryError,
        >(RecoveryError::DelayPeriodNotFinished),
        now@ >= requirements.delay_end_time@ ==> state.completion_outcome(true, now) == Ok::<
            TransitionView,
            RecoveryError,
        >(
            plain_transition(
                RecoveryState::CompletableRecovery(
                    CompletableRecoveryState {
                        account: state.account,
                        recovery,
                        active_contest: state.active_contest,
                    },
                ),
            ),
        ),
{
}

/// A contest during an active contest begins with the proof of contact: the
/// first effect of the cancellation uses one up, and the record is touched by
/// the second only.
pub proof fn lemma_contest_verifies_contact_first(
    state: CurrentAccountRecoveryState,
    recovery: WalletRecovery,
    actor: Actor,
)
    requires
        state.active_contest,
        recovery.requirements.delay_notify_requirements matches Some(requirements) && actor
            == Actor::spec_holder(requirements.lost_factor),
    ensures
        state.cancellation_effects(recovery, actor).len() == 5,
        state.cancellation_effects(recovery, actor)[0] == (Effect::ConsumeCommsVerification {
            account_id: state.account.id,
            scope: CommsVerificationScope::DelayNotifyActor(actor),
        }),
        state.cancellation_effects(recovery, actor)[1] == (Effect::CompleteRecovery {
            account_id: recovery.account_id,
            created_at: recovery.created_at,
            status: RecoveryStatus::CanceledInContest,
        }),
{
}

/// A recovery that is created at `now` for an account with the delay `delay`
/// is pending, starts at `now`, and can complete exactly `delay` later.
pub proof fn lemma_creation_sets_delay(
    account_id: AccountId,
    lost_factor: Factor,
    destination: RecoveryDestination,
    now: Timestamp,
    delay: Duration,
)
    requires
        representable(now@ + delay@),
    ensures
        ({
            let recovery = new_recovery(account_id, lost_factor, destination, now, delay);
            &&& recovery.recovery_status == RecoveryStatus::Pending
            &&& recovery.created_at == now
            &&& recovery.requirements.delay_notify_requirements matches Some(requirements)
            &&& requirements.delay_end_time@ == now@ + delay@
            &&& requirements.lost_factor == lost_factor
            &&& recovery.spec_destination() == Some(destination)
        }),
{
    Timestamp::lemma_at_view(now@ + delay@);
}

} // verus!
