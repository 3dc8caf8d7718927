//! The rules on the keys of a proposed destination.
//!
//! No key of a destination may be active on an account or be proposed by a
//! pending recovery. The one exception: where the application key is the lost
//! factor, the account keeps its own hardware key. Whether a key is in use is
//! known to the account service and to the store of recoveries only, so the
//! validator works on the answers that it has been given so far and says
//! which question is next.

use vstd::prelude::*;
use crate::account::{AccountId, AuthPubkey, Factor, FullAccountAuthKeys};
use crate::entities::RecoveryDestination;
use crate::error::RecoveryError;

verus! {

/// The answer to the question which account holds a key as an active key.
#[derive(Clone, Copy, Debug, PartialEq, Eq, Structural)]
pub enum OwnerAnswer {
    /// The question has not been put yet.
    NotAsked,
    /// No account holds the key.
    NoAccount,
    /// The given account holds the key.
    Account(AccountId),
}

/// The answer to the question whether a pending recovery proposes a key.
#[derive(Clone, Copy, Debug, PartialEq, Eq, Structural)]
pub enum PendingAnswer {
    /// The question has not been put yet.
    NotAsked,
    /// No pending recovery proposes the key.
    NoRecovery,
    /// Some pending recovery proposes the key.
    Recovery,
}

/// What is known so far of the use of the keys of one destination.
#[derive(Clone, Copy, Debug, PartialEq, Eq, Structural)]
pub struct DestinationLookups {
    pub app_account: OwnerAnswer,
    pub app_recovery: PendingAnswer,
    pub recovery_account: OwnerAnswer,
    pub recovery_recovery: PendingAnswer,
    pub hardware_account: OwnerAnswer,
    pub hardware_recovery: PendingAnswer,
}

/// A question on the use of a key.
#[derive(Clone, Copy, Debug, PartialEq, Eq)]
pub enum DestinationQuery {
    /// Which account has this key as its active application key?
    AccountByAppPubkey(AuthPubkey),
    /// Does a pending recovery propose this key as application key?
    PendingRecoveryByAppPubkey(AuthPubkey),
    /// Which account has this key as its active recovery key?
    AccountByRecoveryPubkey(AuthPubkey),
    /// Does a pending recovery propose this key as recovery key?
    PendingRecoveryByRecoveryPubkey(AuthPubkey),
    /// Which account has this key as its active hardware key?
    AccountByHwPubkey(AuthPubkey),
    /// Does a pending recovery propose this key as hardware key?
    PendingRecoveryByHwPubkey(AuthPubkey),
}

/// What a service answers to a `DestinationQuery`.
#[derive(Clone, Copy, Debug, PartialEq, Eq, Structural)]
pub enum LookupAnswer {
    /// The account that holds the key, if any: the answer to a question for
    /// an account.
    Owner(Option<AccountId>),
    /// Whether a pending recovery proposes the key: the answer to a question
    /// for a pending recovery.
    Pending(bool),
}

/// Where the validation of a destination stands.
#[derive(Clone, Copy, Debug, PartialEq, Eq)]
pub enum DestinationVerdict {
    /// Nothing is decided before this question is answered.
    Ask(DestinationQuery),
    /// The destination breaks no rule.
    Accepted,
    /// The destination breaks a rule; the error names the first one.
    Rejected(RecoveryError),
}

impl DestinationQuery {
    /// The place of the question in the order of the rules, from 0 to 5.
    pub open spec fn rank(self) -> int {
        match self {
            DestinationQuery::AccountByAppPubkey(_) => 0,
            DestinationQuery::PendingRecoveryByAppPubkey(_) => 1,
            DestinationQuery::AccountByRecoveryPubkey(_) => 2,
            DestinationQuery::PendingRecoveryByRecoveryPubkey(_) => 3,
            DestinationQuery::AccountByHwPubkey(_) => 4,
            DestinationQuery::PendingRecoveryByHwPubkey(_) => 5,
        }
    }
}

impl OwnerAnswer {
    /// The answer in the form in which a service gives it.
    pub open spec fn spec_from_owner(owner: Option<AccountId>) -> OwnerAnswer {
        match owner {
            Some(account_id) => OwnerAnswer::Account(account_id),
            None => OwnerAnswer::NoAccount,
        }
    }

    /// The answer that a service gave.
    pub fn from_owner(owner: Option<AccountId>) -> (r: OwnerAnswer)
        ensures
            r == OwnerAnswer::spec_from_owner(owner),
    {
        match owner {
            Some(account_id) => OwnerAnswer::Account(account_id),
            None => OwnerAnswer::NoAccount,
        }
    }
}

impl PendingAnswer {
    /// The answer in the form in which a service gives it.
    pub open spec fn spec_from_found(found: bool) -> PendingAnswer {
        if found {
            PendingAnswer::Recovery
        } else {
            PendingAnswer::NoRecovery
        }
    }

    /// The answer that a service gave.
    pub fn from_found(found: bool) -> (r: PendingAnswer)
        ensures
            r == PendingAnswer::spec_from_found(found),
    {
        if found {
            PendingAnswer::Recovery
        } else {
            PendingAnswer::NoRecovery
        }
    }
}

impl DestinationLookups {
    /// The state in which no question has been put.
    pub open spec fn spec_none() -> DestinationLookups {
        DestinationLookups {
            app_account: OwnerAnswer::NotAsked,
            app_recovery: PendingAnswer::NotAsked,
            recovery_account: OwnerAnswer::NotAsked,
            recovery_recovery: PendingAnswer::NotAsked,
            hardware_account: OwnerAnswer::NotAsked,
            hardware_recovery: PendingAnswer::NotAsked,
        }
    }

    /// The state in which no question has been put.
    pub fn none() -> (r: DestinationLookups)
        ensures
            r == DestinationLookups::spec_none(),
    {
        DestinationLookups {
            app_account: OwnerAnswer::NotAsked,
            app_recovery: PendingAnswer::NotAsked,
            recovery_account: OwnerAnswer::NotAsked,
            recovery_recovery: PendingAnswer::NotAsked,
            hardware_account: OwnerAnswer::NotAsked,
            hardware_recovery: PendingAnswer::NotAsked,
        }
    }

    /// What is known once `answer` has been given to `query`. An answer of
    /// the wrong form teaches nothing.
    pub open spec fn spec_answered(self, query: DestinationQuery, answer: LookupAnswer) -> DestinationLookups {
        match (query, answer) {
            (DestinationQuery::AccountByAppPubkey(_), LookupAnswer::Owner(owner)) => DestinationLookups {
                app_account: OwnerAnswer::spec_from_owner(owner),
                ..self
            },
            (
                DestinationQuery::PendingRecoveryByAppPubkey(_),
                LookupAnswer::Pending(found),
            ) => DestinationLookups { app_recovery: PendingAnswer::spec_from_found(found), ..self },
            (
                DestinationQuery::AccountByRecoveryPubkey(_),
                LookupAnswer::Owner(owner),
            ) => DestinationLookups { recovery_account: OwnerAnswer::spec_from_owner(owner), ..self },
            (
                DestinationQuery::PendingRecoveryByRecoveryPubkey(_),
                LookupAnswer::Pending(found),
            ) => DestinationLookups {
                recovery_recovery: PendingAnswer::spec_from_found(found),
                ..self
            },
            (DestinationQuery::AccountByHwPubkey(_), LookupAnswer::Owner(owner)) => DestinationLookups {
                hardware_account: OwnerAnswer::spec_from_owner(owner),
                ..self
            },
            (
                DestinationQuery::PendingRecoveryByHwPubkey(_),
                LookupAnswer::Pending(found),
            ) => DestinationLookups {
                hardware_recovery: PendingAnswer::spec_from_found(found),
                ..self
            },
            _ => self,
        }
    }

    /// Records the answer that a service gave to `query`.
    pub fn answered(self, query: &DestinationQuery, answer: LookupAnswer) -> (r: DestinationLookups)
        ensures
            r == self.spec_answered(*query, answer),
    {
        match (query, answer) {
            (DestinationQuery::AccountByAppPubkey(_), LookupAnswer::Owner(owner)) => DestinationLookups {
                app_account: OwnerAnswer::from_owner(owner),
                ..self
            },
            (
                DestinationQuery::PendingRecoveryByAppPubkey(_),
                LookupAnswer::Pending(found),
            ) => DestinationLookups { app_recovery: PendingAnswer::from_found(found), ..self },
            (
                DestinationQuery::AccountByRecoveryPubkey(_),
                LookupAnswer::Owner(owner),
            ) => DestinationLookups { recovery_account: OwnerAnswer::from_owner(owner), ..self },
            (
                DestinationQuery::PendingRecoveryByRecoveryPubkey(_),
                LookupAnswer::Pending(found),
            ) => DestinationLookups { recovery_recovery: PendingAnswer::from_found(found), ..self },
            (DestinationQuery::AccountByHwPubkey(_), LookupAnswer::Owner(owner)) => DestinationLookups {
                hardware_account: OwnerAnswer::from_owner(owner),
                ..self
            },
            (
                DestinationQuery::PendingRecoveryByHwPubkey(_),
                LookupAnswer::Pending(found),
            ) => DestinationLookups { hardware_recovery: PendingAnswer::from_found(found), ..self },
            _ => self,
        }
    }
}

/// The rules on the hardware key, which come last: the key stays where the
/// application key is the lost one; no account holds it but, in that case,
/// the account under recovery; no pending recovery proposes it.
pub open spec fn hardware_verdict(
    account_id: AccountId,
    account_auth_keys: FullAccountAuthKeys,
    lost_factor: Factor,
    destination: RecoveryDestination,
    lookups: DestinationLookups,
) -> DestinationVerdict {
    if lost_factor == Factor::App && account_auth_keys.hardware_pubkey
        != destination.hardware_auth_pubkey {
        DestinationVerdict::Rejected(RecoveryError::InvalidRecoveryDestination)
    } else if lookups.hardware_account == OwnerAnswer::NotAsked {
        DestinationVerdict::Ask(DestinationQuery::AccountByHwPubkey(destination.hardware_auth_pubkey))
    } else if lookups.hardware_account != OwnerAnswer::NoAccount && !(lookups.hardware_account
        == OwnerAnswer::Account(account_id) && lost_factor == Factor::App) {
        DestinationVerdict::Rejected(RecoveryError::HwAuthPubkeyReuseAccount)
    } else if lookups.hardware_recovery == PendingAnswer::NotAsked {
        DestinationVerdict::Ask(
            DestinationQuery::PendingRecoveryByHwPubkey(destination.hardware_auth_pubkey),
        )
    } else if lookups.hardware_recovery == PendingAnswer::Recovery {
        DestinationVerdict::Rejected(RecoveryError::HwAuthPubkeyReuseRecovery)
    } else {
        DestinationVerdict::Accepted
    }
}

/// The rules on the recovery key, which apply where one is proposed, and the
/// rules that follow them.
pub open spec fn recovery_key_verdict(
    account_id: AccountId,
    account_auth_keys: FullAccountAuthKeys,
    lost_factor: Factor,
    destination: RecoveryDestination,
    lookups: DestinationLookups,
) -> DestinationVerdict {
    match destination.recovery_auth_pubkey {
        Some(recovery_auth_pubkey) => {
            if lookups.recovery_account == OwnerAnswer::NotAsked {
                DestinationVerdict::Ask(DestinationQuery::AccountByRecoveryPubkey(recovery_auth_pubkey))
            } else if lookups.recovery_account != OwnerAnswer::NoAccount {
                DestinationVerdict::Rejected(RecoveryError::RecoveryAuthPubkeyReuseAccount)
            } else if lookups.recovery_recovery == PendingAnswer::NotAsked {
                DestinationVerdict::Ask(
                    DestinationQuery::PendingRecoveryByRecoveryPubkey(recovery_auth_pubkey),
                )
            } else if lookups.recovery_recovery == PendingAnswer::Recovery {
                DestinationVerdict::Rejected(RecoveryError::RecoveryAuthPubkeyReuseRecovery)
            } else {
                hardware_verdict(account_id, account_auth_keys, lost_factor, destination, lookups)
            }
        },
        None => hardware_verdict(account_id, account_auth_keys, lost_factor, destination, lookups),
    }
}

/// Where the validation of `destination` stands for the account
/// `account_id` with the active keys `account_auth_keys`, given what
/// `lookups` knows. The rules are taken in order and the first one that is
/// broken decides: the application key against accounts, then against pending
/// recoveries; the recovery key likewise; then the hardware key.
pub open spec fn destination_verdict(
    account_id: AccountId,
    account_auth_keys: FullAccountAuthKeys,
    lost_factor: Factor,
    destination: RecoveryDestination,
    lookups: DestinationLookups,
) -> DestinationVerdict {
    if lookups.app_account == OwnerAnswer::NotAsked {
        DestinationVerdict::Ask(DestinationQuery::AccountByAppPubkey(destination.app_auth_pubkey))
    } else if lookups.app_account != OwnerAnswer::NoAccount {
        DestinationVerdict::Rejected(RecoveryError::AppAuthPubkeyReuseAccount)
    } else if lookups.app_recovery == PendingAnswer::NotAsked {
        DestinationVerdict::Ask(
            DestinationQuery::PendingRecoveryByAppPubkey(destination.app_auth_pubkey),
        )
    } else if lookups.app_recovery == PendingAnswer::Recovery {
        DestinationVerdict::Rejected(RecoveryError::AppAuthPubkeyReuseRecovery)
    } else {
        recovery_key_verdict(account_id, account_auth_keys, lost_factor, destination, lookups)
    }
}

fn validate_hardware_key(
    account_id: &AccountId,
    account_auth_keys: &FullAccountAuthKeys,
    lost_factor: Factor,
    destination: &RecoveryDestination,
    lookups: &DestinationLookups,
) -> (verdict: DestinationVerdict)
    ensures
        verdict == hardware_verdict(
            *account_id,
            *account_auth_keys,
            lost_factor,
            *destination,
            *lookups,
        ),
{
    let lost_app = lost_factor == Factor::App;
    if lost_app && !account_auth_keys.hardware_pubkey.same(&destination.hardware_auth_pubkey) {
        return DestinationVerdict::Rejected(RecoveryError::InvalidRecoveryDestination);
    }
    match lookups.hardware_account {
        OwnerAnswer::NotAsked => {
            return DestinationVerdict::Ask(
                DestinationQuery::AccountByHwPubkey(destination.hardware_auth_pubkey),
            );
        },
        OwnerAnswer::Account(existing_account) => {
            if !(existing_account == *account_id && lost_app) {
                return DestinationVerdict::Rejected(RecoveryError::HwAuthPubkeyReuseAccount);
            }
        },
        OwnerAnswer::NoAccount => {},
    }
    match lookups.hardware_recovery {
        PendingAnswer::NotAsked => DestinationVerdict::Ask(
            DestinationQuery::PendingRecoveryByHwPubkey(destination.hardware_auth_pubkey),
        ),
        PendingAnswer::Recovery => DestinationVerdict::Rejected(
            RecoveryError::HwAuthPubkeyReuseRecovery,
        ),
        PendingAnswer::NoRecovery => DestinationVerdict::Accepted,
    }
}

/// Validates `destination` as far as `lookups` allows: the verdict is a
/// question while an answer is missing that the rules need, and final
/// otherwise.
pub fn validate_destination(
    account_id: &AccountId,
    account_auth_keys: &FullAccountAuthKeys,
    lost_factor: Factor,
    destination: &RecoveryDestination,
    lookups: &DestinationLookups,
) -> (verdict: DestinationVerdict)
    ensures
        verdict == destination_verdict(
            *account_id,
            *account_auth_keys,
            lost_factor,
            *destination,
            *lookups,
        ),
{
    match lookups.app_account {
        OwnerAnswer::NotAsked => {
            return DestinationVerdict::Ask(
                DestinationQuery::AccountByAppPubkey(destination.app_auth_pubkey),
            );
        },
        OwnerAnswer::Account(_) => {
            return DestinationVerdict::Rejected(RecoveryError::AppAuthPubkeyReuseAccount);
        },
        OwnerAnswer::NoAccount => {},
    }
    match lookups.app_recovery {
        PendingAnswer::NotAsked => {
            return DestinationVerdict::Ask(
                DestinationQuery::PendingRecoveryByAppPubkey(destination.app_auth_pubkey),
            );
        },
        PendingAnswer::Recovery => {
            return DestinationVerdict::Rejected(RecoveryError::AppAuthPubkeyReuseRecovery);
        },
        PendingAnswer::NoRecovery => {},
    }
    if let Some(recovery_auth_pubkey) = destination.recovery_auth_pubkey {
        match lookups.recovery_account {
            OwnerAnswer::NotAsked => {
                return DestinationVerdict::Ask(
                    DestinationQuery::AccountByRecoveryPubkey(recovery_auth_pubkey),
                );
            },
            OwnerAnswer::Account(_) => {
                return DestinationVerdict::Rejected(RecoveryError::RecoveryAuthPubkeyReuseAccount);
            },
            OwnerAnswer::NoAccount => {},
        }
        match lookups.recovery_recovery {
            PendingAnswer::NotAsked => {
                return DestinationVerdict::Ask(
                    DestinationQuery::PendingRecoveryByRecoveryPubkey(recovery_auth_pubkey),
                );
            },
            PendingAnswer::Recovery => {
                return DestinationVerdict::Rejected(RecoveryError::RecoveryAuthPubkeyReuseRecovery);
            },
            PendingAnswer::NoRecovery => {},
        }
    }
    validate_hardware_key(account_id, account_auth_keys, lost_factor, destination, lookups)
}

/// Whether every question that the rules can put has its answer in
/// `lookups`.
pub open spec fn all_answered(destination: RecoveryDestination, lookups: DestinationLookups) -> bool {
    &&& lookups.app_account != OwnerAnswer::NotAsked
    &&& lookups.app_recovery != PendingAnswer::NotAsked
    &&& destination.recovery_auth_pubkey is Some ==> lookups.recovery_account
        != OwnerAnswer::NotAsked && lookups.recovery_recovery != PendingAnswer::NotAsked
    &&& lookups.hardware_account != OwnerAnswer::NotAsked
    &&& lookups.hardware_recovery != PendingAnswer::NotAsked
}

/// Once every question is answered the verdict is final.
pub proof fn lemma_answers_decide(
    account_id: AccountId,
    account_auth_keys: FullAccountAuthKeys,
    lost_factor: Factor,
    destination: RecoveryDestination,
    lookups: DestinationLookups,
)
    requires
        all_answered(destination, lookups),
    ensures
        !(destination_verdict(account_id, account_auth_keys, lost_factor, destination, lookups) is Ask),
{
}

/// Answering the question that the validator asks moves the validation on:
/// the next verdict is final or asks a question that comes later in the
/// order of the rules. So at most six questions are ever put.
pub proof fn lemma_answer_advances(
    account_id: AccountId,
    account_auth_keys: FullAccountAuthKeys,
    lost_factor: Factor,
    destination: RecoveryDestination,
    lookups: DestinationLookups,
    answer: LookupAnswer,
)
    requires
        destination_verdict(account_id, account_auth_keys, lost_factor, destination, lookups) is Ask,
        ({
            let query = destination_verdict(
                account_id,
                account_auth_keys,
                lost_factor,
                destination,
                lookups,
            )->Ask_0;
            (answer is Owner) == (query.rank() % 2 == 0)
        }),
    ensures
        ({
            let query = destination_verdict(
                account_id,
                account_auth_keys,
                lost_factor,
                destination,
                lookups,
            )->Ask_0;
            let next = destination_verdict(
                account_id,
                account_auth_keys,
                lost_factor,
                destination,
                lookups.spec_answered(query, answer),
            );
            next matches DestinationVerdict::Ask(later) ==> query.rank() < later.rank()
        }),
{
}

/// A recovery of a lost application key keeps the hardware key of the
/// account: where the keys of `destination` are otherwise unused and its
/// hardware key is the active hardware key of the account `account_id`, which
/// the account service reports as the holder, the destination is accepted.
pub proof fn lemma_own_hardware_key_accepted(
    account_id: AccountId,
    account_auth_keys: FullAccountAuthKeys,
    destination: RecoveryDestination,
    lookups: DestinationLookups,
)
    requires
        lookups.app_account == OwnerAnswer::NoAccount,
        lookups.app_recovery == PendingAnswer::NoRecovery,
        destination.recovery_auth_pubkey is Some ==> lookups.recovery_account
            == OwnerAnswer::NoAccount && lookups.recovery_recovery == PendingAnswer::NoRecovery,
        destination.hardware_auth_pubkey == account_auth_keys.hardware_pubkey,
        lookups.hardware_account == OwnerAnswer::Account(account_id),
        lookups.hardware_recovery == PendingAnswer::NoRecovery,
    ensures
        destination_verdict(account_id, account_auth_keys, Factor::App, destination, lookups)
            == DestinationVerdict::Accepted,
{
}

/// A hardware key that another account holds, or that a pending recovery
/// proposes, is never accepted, whatever the lost factor is and whatever else
/// is known.
pub proof fn lemma_foreign_hardware_key_rejected(
    account_id: AccountId,
    account_auth_keys: FullAccountAuthKeys,
    lost_factor: Factor,
    destination: RecoveryDestination,
    lookups: DestinationLookups,
    holder: AccountId,
)
    requires
        (lookups.hardware_account == OwnerAnswer::Account(holder) && holder != account_id)
            || lookups.hardware_recovery == PendingAnswer::Recovery,
    ensures
        destination_verdict(account_id, account_auth_keys, lost_factor, destination, lookups)
            != DestinationVerdict::Accepted,
        all_answered(destination, lookups) ==> destination_verdict(
            account_id,
            account_auth_keys,
            lost_factor,
            destination,
            lookups,
        ) is Rejected,
{
}

/// With the keys of `destination` otherwise unused and its hardware key kept,
/// a recovery of a lost application key is turned down with the error of the
/// hardware rule that is broken: by an account other than `account_id` that
/// holds the key, or else by a pending recovery that proposes it.
pub proof fn lemma_foreign_hardware_key_error(
    account_id: AccountId,
    account_auth_keys: FullAccountAuthKeys,
    destination: RecoveryDestination,
    lookups: DestinationLookups,
    holder: AccountId,
)
    requires
        lookups.app_account == OwnerAnswer::NoAccount,
        lookups.app_recovery == PendingAnswer::NoRecovery,
        destination.recovery_auth_pubkey is Some ==> lookups.recovery_account
            == OwnerAnswer::NoAccount && lookups.recovery_recovery == PendingAnswer::NoRecovery,
        destination.hardware_auth_pubkey == account_auth_keys.hardware_pubkey,
        lookups.hardware_account != OwnerAnswer::NotAsked,
        lookups.hardware_recovery != PendingAnswer::NotAsked,
    ensures
        lookups.hardware_account == OwnerAnswer::Account(holder) && holder != account_id
            ==> destination_verdict(account_id, account_auth_keys, Factor::App, destination, lookups)
            == DestinationVerdict::Rejected(RecoveryError::HwAuthPubkeyReuseAccount),
        (lookups.hardware_account == OwnerAnswer::NoAccount || lookups.hardware_account
            == OwnerAnswer::Account(account_id)) && lookups.hardware_recovery
            == PendingAnswer::Recovery ==> destination_verdict(
            account_id,
            account_auth_keys,
            Factor::App,
            destination,
            lookups,
        ) == DestinationVerdict::Rejected(RecoveryError::HwAuthPubkeyReuseRecovery),
{
}

/// Whether `later` knows every answer that `earlier` knows.
pub open spec fn extends(later: DestinationLookups, earlier: DestinationLookups) -> bool {
    &&& earlier.app_account != OwnerAnswer::NotAsked ==> later.app_account == earlier.app_account
    &&& earlier.app_recovery != PendingAnswer::NotAsked ==> later.app_recovery
        == earlier.app_recovery
    &&& earlier.recovery_account != OwnerAnswer::NotAsked ==> later.recovery_account
        == earlier.recovery_account
    &&& earlier.recovery_recovery != PendingAnswer::NotAsked ==> later.recovery_recovery
        == earlier.recovery_recovery
    &&& earlier.hardware_account != OwnerAnswer::NotAsked ==> later.hardware_account
        == earlier.hardware_account
    &&& earlier.hardware_recovery != PendingAnswer::NotAsked ==> later.hardware_recovery
        == earlier.hardware_recovery
}

/// A final verdict stands: answers to questions that were never put do not
/// change it. So the verdict that is reached by answering one question after
/// the other is the verdict on all the answers.
pub proof fn lemma_final_verdict_stands(
    account_id: AccountId,
    account_auth_keys: FullAccountAuthKeys,
    lost_factor: Factor,
    destination: RecoveryDestination,
    earlier: DestinationLookups,
    later: DestinationLookups,
)
    requires
        extends(later, earlier),
        !(destination_verdict(account_id, account_auth_keys, lost_factor, destination, earlier) is Ask),
    ensures
        destination_verdict(account_id, account_auth_keys, lost_factor, destination, later)
            == destination_verdict(account_id, account_auth_keys, lost_factor, destination, earlier),
{
}

} // verus!
