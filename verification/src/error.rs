//! The ways in which a recovery event can be turned down.

use vstd::prelude::*;

verus! {

/// Why an event did not lead to a transition.
#[derive(Clone, Copy, Debug, PartialEq, Eq, Structural)]
pub enum RecoveryError {
    /// The request was signed by the lost factor, by both factors where
    /// exactly one must sign, or by none.
    UnexpectedKeyProof,
    /// The destination does not start from the key set that is active on the
    /// account.
    InvalidRecoverySource,
    /// The account holds no active authentication keys.
    NoActiveAuthKeysError,
    /// The destination changes the hardware key although the application key
    /// is the lost one, or the recovery on record names no destination.
    InvalidRecoveryDestination,
    /// A signature over the completion challenge does not verify.
    InvalidInputForCompletion,
    /// A recovery toward another destination is already pending.
    StartRecoveryForAccount,
    /// The proposed application key is active on an account.
    AppAuthPubkeyReuseAccount,
    /// The proposed application key is the destination of a pending recovery.
    AppAuthPubkeyReuseRecovery,
    /// The proposed recovery key is active on an account.
    RecoveryAuthPubkeyReuseAccount,
    /// The proposed recovery key is the destination of a pending recovery.
    RecoveryAuthPubkeyReuseRecovery,
    /// The proposed hardware key is active on an account.
    HwAuthPubkeyReuseAccount,
    /// The proposed hardware key is the destination of a pending recovery.
    HwAuthPubkeyReuseRecovery,
    /// The account has no recovery under way.
    NoExistingRecovery,
    /// The delay of the recovery has not run out yet.
    DelayPeriodNotFinished,
    /// The event is not one that the state accepts.
    InvalidTransition,
    /// The recovery on record holds no delay-and-notify requirements.
    MalformedRecoveryRequirements,
    /// Only the delay of a test account can be changed.
    InvalidUpdateForNonTestAccount,
    /// The payload of a notification could not be built.
    GenerateNotificationPayloadError,
    /// The deferred notifications could not be scheduled.
    ScheduleNotificationPersistanceError,
    /// The notification could not be sent.
    SendNotificationError,
    /// No unconsumed proof of contact was there for the actor.
    CommsVerification,
    /// The store of recoveries turned a read or a write down.
    Repository,
    /// The account service turned a read or a write down.
    AccountService,
}

} // verus!
