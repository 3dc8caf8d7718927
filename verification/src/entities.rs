//! The record of a recovery and the values it is made of.

use vstd::prelude::*;
use vstd::string::StringExecFns;
use crate::account::{AccountId, AuthKeysId, AuthPubkey, Factor, same_optional_key};
use crate::error::RecoveryError;
use crate::instant::{Timestamp, rfc3339_representable, rfc3339_text};
use crate::key_claims::KeyClaims;

verus! {

/// Where a recovery stands. `Pending` is the one status that is not final.
#[derive(Clone, Copy, Debug, PartialEq, Eq, Structural)]
pub enum RecoveryStatus {
    Pending,
    Completed,
    Canceled,
    CanceledInContest,
}

/// The protocol that a recovery follows.
#[derive(Clone, Copy, Debug, PartialEq, Eq, Structural)]
pub enum RecoveryType {
    DelayAndNotify,
}

/// The name of a recovery type as records are keyed by it.
pub open spec fn recovery_type_name(recovery_type: RecoveryType) -> Seq<char> {
    match recovery_type {
        RecoveryType::DelayAndNotify => "DelayAndNotify"@,
    }
}

impl RecoveryType {
    /// The name of the type.
    pub fn name(self) -> (text: String)
        ensures
            text@ == recovery_type_name(self),
    {
        match self {
            RecoveryType::DelayAndNotify => String::from_str("DelayAndNotify"),
        }
    }
}

/// The party that a signed request is attributed to.
#[derive(Clone, Copy, Debug, PartialEq, Eq, Structural)]
pub enum Actor {
    App,
    Hardware,
    Recovery,
}

impl Actor {
    /// The actor who holds `factor`.
    pub open spec fn spec_holder(factor: Factor) -> Actor {
        match factor {
            Factor::App => Actor::App,
            Factor::Hw => Actor::Hardware,
        }
    }

    /// The actor who holds `factor`.
    pub fn holder(factor: Factor) -> (actor: Actor)
        ensures
            actor == Actor::spec_holder(factor),
    {
        match factor {
            Factor::App => Actor::App,
            Factor::Hw => Actor::Hardware,
        }
    }

    /// Whether the actor is the holder of `factor`.
    pub fn holds(self, factor: Factor) -> (r: bool)
        ensures
            r == (self == Actor::spec_holder(factor)),
    {
        self == Actor::holder(factor)
    }
}

/// How the signatures on a request are resolved to one actor.
#[derive(Clone, Copy, Debug, PartialEq, Eq, Structural)]
pub enum ToActorStrategy {
    /// Exactly one factor must have signed.
    ExclusiveOr,
    /// Where both factors have signed, the request is attributed to the one
    /// that is not the given lost factor.
    PreferNonLostFactor(Factor),
}

/// The actor that the signatures of the two factors resolve to under
/// `strategy`, or `UnexpectedKeyProof` where they resolve to none.
pub open spec fn spec_to_actor(app_signed: bool, hw_signed: bool, strategy: ToActorStrategy) -> Result<
    Actor,
    RecoveryError,
> {
    if app_signed && hw_signed {
        match strategy {
            ToActorStrategy::ExclusiveOr => Err(RecoveryError::UnexpectedKeyProof),
            ToActorStrategy::PreferNonLostFactor(Factor::App) => Ok(Actor::Hardware),
            ToActorStrategy::PreferNonLostFactor(Factor::Hw) => Ok(Actor::App),
        }
    } else if app_signed {
        Ok(Actor::App)
    } else if hw_signed {
        Ok(Actor::Hardware)
    } else {
        Err(RecoveryError::UnexpectedKeyProof)
    }
}

impl KeyClaims {
    /// Resolves the key proof to the one actor that the request is
    /// attributed to.
    pub fn to_actor(&self, strategy: ToActorStrategy) -> (r: Result<Actor, RecoveryError>)
        ensures
            r == spec_to_actor(self.app_signed, self.hw_signed, strategy),
    {
        match (self.app_signed, self.hw_signed) {
            (true, true) => match strategy {
                ToActorStrategy::ExclusiveOr => Err(RecoveryError::UnexpectedKeyProof),
                ToActorStrategy::PreferNonLostFactor(lost_factor) => Ok(
                    Actor::holder(lost_factor.other()),
                ),
            },
            (true, false) => Ok(Actor::App),
            (false, true) => Ok(Actor::Hardware),
            (false, false) => Err(RecoveryError::UnexpectedKeyProof),
        }
    }
}

/// What a proof of contact is good for.
#[derive(Clone, Copy, Debug, PartialEq, Eq, Structural)]
pub enum CommsVerificationScope {
    /// An action of the given actor on a delay-and-notify recovery.
    DelayNotifyActor(Actor),
}

/// The key set that a recovery puts in the place of the active one.
#[derive(Clone, Copy, Debug, PartialEq, Eq)]
pub struct RecoveryDestination {
    /// The key set that was active when the recovery was asked for.
    pub source_auth_keys_id: AuthKeysId,
    pub app_auth_pubkey: AuthPubkey,
    pub hardware_auth_pubkey: AuthPubkey,
    pub recovery_auth_pubkey: Option<AuthPubkey>,
}

impl RecoveryDestination {
    /// Whether the two destinations are the same: the same source and the
    /// same three keys.
    pub fn same(&self, other: &RecoveryDestination) -> (r: bool)
        ensures
            r == (*self == *other),
    {
        self.source_auth_keys_id == other.source_auth_keys_id && self.app_auth_pubkey.same(
            &other.app_auth_pubkey,
        ) && self.hardware_auth_pubkey.same(&other.hardware_auth_pubkey) && same_optional_key(
            &self.recovery_auth_pubkey,
            &other.recovery_auth_pubkey,
        )
    }
}

/// What has to hold before a delay-and-notify recovery can complete.
#[derive(Clone, Copy, Debug, PartialEq, Eq, Structural)]
pub struct DelayNotifyRequirements {
    pub lost_factor: Factor,
    /// The recovery can complete at this instant and after it.
    pub delay_end_time: Timestamp,
}

/// The requirements of a recovery, by protocol.
#[derive(Clone, Copy, Debug, PartialEq, Eq, Structural)]
pub struct RecoveryRequirements {
    pub delay_notify_requirements: Option<DelayNotifyRequirements>,
}

/// What a delay-and-notify recovery does when it completes.
#[derive(Clone, Copy, Debug, PartialEq, Eq)]
pub struct DelayNotifyRecoveryAction {
    pub destination: RecoveryDestination,
}

/// The action of a recovery, by protocol.
#[derive(Clone, Copy, Debug, PartialEq, Eq)]
pub struct RecoveryAction {
    pub delay_notify_action: Option<DelayNotifyRecoveryAction>,
}

/// One attempt at recovery. A record is known by its account and the instant
/// of its creation.
#[derive(Clone, Copy, Debug, PartialEq, Eq)]
pub struct WalletRecovery {
    pub account_id: AccountId,
    pub created_at: Timestamp,
    pub recovery_status: RecoveryStatus,
    pub recovery_type: RecoveryType,
    pub requirements: RecoveryRequirements,
    pub recovery_action: RecoveryAction,
    /// The instant of the last write, by which concurrent writers are told
    /// apart.
    pub updated_at: Timestamp,
}

/// The key under which the records of one account are sorted: the name of
/// the recovery type, a colon, and the RFC 3339 text of the creation time.
pub open spec fn spec_recovery_type_time(recovery_type: RecoveryType, created_at: Timestamp) -> Seq<
    char,
> {
    recovery_type_name(recovery_type) + seq![':'] + rfc3339_text(created_at@)
}

impl WalletRecovery {
    /// The destination that the record names, if it names one.
    pub open spec fn spec_destination(self) -> Option<RecoveryDestination> {
        match self.recovery_action.delay_notify_action {
            Some(action) => Some(action.destination),
            None => None,
        }
    }

    /// Whether the record has the given account and creation time.
    pub open spec fn has_key(self, account_id: AccountId, created_at: Timestamp) -> bool {
        self.account_id == account_id && self.created_at == created_at
    }

    /// The sort key of the record, where RFC 3339 can write its creation
    /// time.
    pub fn recovery_type_time(&self) -> (key: Option<String>)
        ensures
            key is Some <==> rfc3339_representable(self.created_at@),
            key matches Some(text) ==> text@ == spec_recovery_type_time(
                self.recovery_type,
                self.created_at,
            ),
    {
        match self.created_at.to_rfc3339() {
            Some(time) => {
                let mut text = self.recovery_type.name();
                text.append(":");
                proof {
                    reveal_strlit(":");
                    assert(":"@ =~= seq![':']);
                }
                text.append(time.as_str());
                Some(text)
            },
            None => None,
        }
    }
}

} // verus!
