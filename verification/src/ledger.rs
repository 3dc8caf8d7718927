//! A store of recovery records held in memory.
//!
//! The ledger does what the state machine asks of a store of recoveries: it
//! takes a new record on condition that none is there under its key, marks a
//! record with its final status, replaces the requirements of a record, and
//! finds the pending record of an account. It keeps the records that have
//! reached a final status, by which a contest within the last thirty days is
//! known.

use vstd::prelude::*;
use crate::account::{AccountId, AuthFactor, AuthPubkey, same_optional_key};
use crate::entities::{
    RecoveryDestination,
    RecoveryRequirements,
    RecoveryStatus,
    RecoveryType,
    WalletRecovery,
};
use crate::error::RecoveryError;
use crate::instant::{NANOS_PER_DAY, Timestamp};

verus! {

/// The length in days of the window after a contested recovery in which the
/// account counts as contested.
pub const CONTEST_WINDOW_DAYS: i128 = 30;

/// Whether `i` is the place of the first record in `records` with the key.
pub open spec fn is_first_with_key(
    records: Seq<WalletRecovery>,
    account_id: AccountId,
    created_at: Timestamp,
    i: int,
) -> bool {
    &&& 0 <= i < records.len()
    &&& records[i].has_key(account_id, created_at)
    &&& forall|j: int| 0 <= j < i ==> !(#[trigger] records[j]).has_key(account_id, created_at)
}

/// Whether `records` holds a record with the key.
pub open spec fn holds_key(records: Seq<WalletRecovery>, account_id: AccountId, created_at: Timestamp) -> bool {
    exists|i: int| 0 <= i < records.len() && (#[trigger] records[i]).has_key(account_id, created_at)
}

/// The place of the first record with the key, where `records` holds one.
pub open spec fn place_of_key(
    records: Seq<WalletRecovery>,
    account_id: AccountId,
    created_at: Timestamp,
) -> int {
    choose|i: int| is_first_with_key(records, account_id, created_at, i)
}

/// No two records have the same account and the same creation time.
pub open spec fn keys_unique(records: Seq<WalletRecovery>) -> bool {
    forall|i: int, j: int|
        0 <= i < j < records.len() ==> !(#[trigger] records[i]).has_key(
            (#[trigger] records[j]).account_id,
            records[j].created_at,
        )
}

/// Whether the record is a pending recovery of the account.
pub open spec fn is_pending_of(record: WalletRecovery, account_id: AccountId) -> bool {
    record.account_id == account_id && record.recovery_status == RecoveryStatus::Pending
}

/// Whether the account has a pending recovery in `records`.
pub open spec fn has_pending(records: Seq<WalletRecovery>, account_id: AccountId) -> bool {
    exists|i: int| 0 <= i < records.len() && is_pending_of(#[trigger] records[i], account_id)
}

/// No account has more than one pending recovery.
pub open spec fn single_pending(records: Seq<WalletRecovery>) -> bool {
    forall|i: int, j: int|
        0 <= i < records.len() && 0 <= j < records.len() && (#[trigger] records[i]).recovery_status
            == RecoveryStatus::Pending && (#[trigger] records[j]).recovery_status
            == RecoveryStatus::Pending && records[i].account_id == records[j].account_id ==> i
            == j
}

/// Whether `i` is the place of the first pending record of the account with
/// the given type.
pub open spec fn is_first_pending(
    records: Seq<WalletRecovery>,
    account_id: AccountId,
    recovery_type: RecoveryType,
    i: int,
) -> bool {
    &&& 0 <= i < records.len()
    &&& is_pending_of(records[i], account_id)
    &&& records[i].recovery_type == recovery_type
    &&& forall|j: int|
        0 <= j < i ==> !(is_pending_of(#[trigger] records[j], account_id) && records[j].recovery_type
            == recovery_type)
}

/// The pending record of the account with the given type: the first one in
/// `records`, which is the only one where `single_pending(records)`.
pub open spec fn pending_of(
    records: Seq<WalletRecovery>,
    account_id: AccountId,
    recovery_type: RecoveryType,
) -> Option<WalletRecovery> {
    if exists|i: int| is_first_pending(records, account_id, recovery_type, i) {
        Some(records[choose|i: int| is_first_pending(records, account_id, recovery_type, i)])
    } else {
        None
    }
}

/// The key of `destination` that stands in the place of `factor`.
pub open spec fn destination_key(destination: RecoveryDestination, factor: AuthFactor) -> Option<
    AuthPubkey,
> {
    match factor {
        AuthFactor::App => Some(destination.app_auth_pubkey),
        AuthFactor::Hw => Some(destination.hardware_auth_pubkey),
        AuthFactor::Recovery => destination.recovery_auth_pubkey,
    }
}

/// Whether the record has the given status and proposes `pubkey` in the
/// place of `factor`.
pub open spec fn proposes(
    record: WalletRecovery,
    factor: AuthFactor,
    pubkey: AuthPubkey,
    status: RecoveryStatus,
) -> bool {
    &&& record.recovery_status == status
    &&& record.spec_destination() matches Some(destination)
    &&& destination_key(destination, factor) == Some(pubkey)
}

/// Whether a record in `records` has the given status and proposes `pubkey`
/// in the place of `factor`.
pub open spec fn some_proposes(
    records: Seq<WalletRecovery>,
    factor: AuthFactor,
    pubkey: AuthPubkey,
    status: RecoveryStatus,
) -> bool {
    exists|i: int| 0 <= i < records.len() && proposes(#[trigger] records[i], factor, pubkey, status)
}

/// Whether the record shows a contest of the account that ended no more
/// than thirty days before `now`.
pub open spec fn is_recent_contest(record: WalletRecovery, account_id: AccountId, now: Timestamp) -> bool {
    &&& record.account_id == account_id
    &&& record.recovery_status == RecoveryStatus::CanceledInContest
    &&& now@ - record.updated_at@ <= CONTEST_WINDOW_DAYS * NANOS_PER_DAY
}

/// Whether the account is contested at `now`: a recovery of it was canceled
/// in contest within the thirty days before.
pub open spec fn contest_active(records: Seq<WalletRecovery>, account_id: AccountId, now: Timestamp) -> bool {
    exists|i: int| 0 <= i < records.len() && is_recent_contest(#[trigger] records[i], account_id, now)
}

/// The records once `recovery` is written on condition that its key is new;
/// a second record under one key is turned down.
pub open spec fn created(records: Seq<WalletRecovery>, recovery: WalletRecovery) -> Result<
    Seq<WalletRecovery>,
    RecoveryError,
> {
    if holds_key(records, recovery.account_id, recovery.created_at) {
        Err(RecoveryError::Repository)
    } else {
        Ok(records.push(recovery))
    }
}

/// The records once the record with the key has the status `status`, written
/// at `now`; a key that is not there is turned down.
pub open spec fn completed(
    records: Seq<WalletRecovery>,
    account_id: AccountId,
    created_at: Timestamp,
    status: RecoveryStatus,
    now: Timestamp,
) -> Result<Seq<WalletRecovery>, RecoveryError> {
    if holds_key(records, account_id, created_at) {
        let i = place_of_key(records, account_id, created_at);
        Ok(records.update(i, WalletRecovery { recovery_status: status, updated_at: now, ..records[i] }))
    } else {
        Err(RecoveryError::Repository)
    }
}

/// The records once the record with the key has the requirements
/// `requirements`, written at `now`; a key that is not there is turned down.
pub open spec fn requirements_updated(
    records: Seq<WalletRecovery>,
    account_id: AccountId,
    created_at: Timestamp,
    requirements: RecoveryRequirements,
    now: Timestamp,
) -> Result<Seq<WalletRecovery>, RecoveryError> {
    if holds_key(records, account_id, created_at) {
        let i = place_of_key(records, account_id, created_at);
        Ok(records.update(i, WalletRecovery { requirements, updated_at: now, ..records[i] }))
    } else {
        Err(RecoveryError::Repository)
    }
}

/// The first place with the key is the place of the key.
pub proof fn lemma_place_of_key(
    records: Seq<WalletRecovery>,
    account_id: AccountId,
    created_at: Timestamp,
    i: int,
)
    requires
        is_first_with_key(records, account_id, created_at, i),
    ensures
        holds_key(records, account_id, created_at),
        place_of_key(records, account_id, created_at) == i,
{
    let chosen = place_of_key(records, account_id, created_at);
    assert(is_first_with_key(records, account_id, created_at, chosen));
    if chosen < i {
        assert(!records[chosen].has_key(account_id, created_at));
    }
    if i < chosen {
        assert(!records[i].has_key(account_id, created_at));
    }
}

/// Where a record at place `j` has the key, some place is the first with it.
proof fn lemma_first_with_key_before(
    records: Seq<WalletRecovery>,
    account_id: AccountId,
    created_at: Timestamp,
    j: int,
)
    requires
        0 <= j < records.len(),
        records[j].has_key(account_id, created_at),
    ensures
        exists|i: int| is_first_with_key(records, account_id, created_at, i),
    decreases j,
{
    if exists|k: int| 0 <= k < j && (#[trigger] records[k]).has_key(account_id, created_at) {
        let k = choose|k: int| 0 <= k < j && (#[trigger] records[k]).has_key(account_id, created_at);
        lemma_first_with_key_before(records, account_id, created_at, k);
    } else {
        assert(is_first_with_key(records, account_id, created_at, j));
    }
}

/// Where the records hold the key, the place of the key is the first place
/// with it.
pub proof fn lemma_place_of_key_is_first(
    records: Seq<WalletRecovery>,
    account_id: AccountId,
    created_at: Timestamp,
)
    requires
        holds_key(records, account_id, created_at),
    ensures
        is_first_with_key(
            records,
            account_id,
            created_at,
            place_of_key(records, account_id, created_at),
        ),
{
    let j = choose|j: int| 0 <= j < records.len() && (#[trigger] records[j]).has_key(account_id, created_at);
    lemma_first_with_key_before(records, account_id, created_at, j);
}

/// The first pending record of an account is its pending record.
pub proof fn lemma_pending_of(
    records: Seq<WalletRecovery>,
    account_id: AccountId,
    recovery_type: RecoveryType,
    i: int,
)
    requires
        is_first_pending(records, account_id, recovery_type, i),
    ensures
        pending_of(records, account_id, recovery_type) == Some(records[i]),
{
    let chosen = choose|k: int| is_first_pending(records, account_id, recovery_type, k);
    assert(is_first_pending(records, account_id, recovery_type, chosen));
    if chosen < i {
        assert(!(is_pending_of(records[chosen], account_id) && records[chosen].recovery_type
            == recovery_type));
    }
    if i < chosen {
        assert(!(is_pending_of(records[i], account_id) && records[i].recovery_type == recovery_type));
    }
}

/// The records of recoveries, in the order in which they were written.
#[derive(Clone, Debug)]
pub struct RecoveryLedger {
    records: Vec<WalletRecovery>,
}

impl View for RecoveryLedger {
    type V = Seq<WalletRecovery>;

    closed spec fn view(&self) -> Seq<WalletRecovery> {
        self.records@
    }
}

impl RecoveryLedger {
    /// The ledger without records.
    pub fn new() -> (ledger: RecoveryLedger)
        ensures
            ledger@ == Seq::<WalletRecovery>::empty(),
    {
        RecoveryLedger { records: Vec::new() }
    }

    /// The number of records.
    pub fn len(&self) -> (n: usize)
        ensures
            n == self@.len(),
    {
        self.records.len()
    }

    /// The record at place `i`, if there is one.
    pub fn get(&self, i: usize) -> (record: Option<WalletRecovery>)
        ensures
            record == if i < self@.len() {
                Some(self@[i as int])
            } else {
                None
            },
    {
        if i < self.records.len() {
            Some(self.records[i])
        } else {
            None
        }
    }

    fn find_key(&self, account_id: AccountId, created_at: Timestamp) -> (place: Option<usize>)
        ensures
            place is Some == holds_key(self@, account_id, created_at),
            place matches Some(i) ==> i == place_of_key(self@, account_id, created_at) && i
                < self@.len(),
    {
        let mut i: usize = 0;
        while i < self.records.len()
            invariant
                i <= self.records.len(),
                forall|j: int| 0 <= j < i ==> !(#[trigger] self@[j]).has_key(account_id, created_at),
            decreases self.records.len() - i,
        {
            let record = self.records[i];
            if record.account_id == account_id && record.created_at == created_at {
                proof {
                    lemma_place_of_key(self@, account_id, created_at, i as int);
                }
                return Some(i);
            }
            i = i + 1;
        }
        None
    }

    /// The record with the key, if there is one.
    pub fn fetch(&self, account_id: AccountId, created_at: Timestamp) -> (record: Option<WalletRecovery>)
        ensures
            record == if holds_key(self@, account_id, created_at) {
                Some(self@[place_of_key(self@, account_id, created_at)])
            } else {
                None
            },
    {
        match self.find_key(account_id, created_at) {
            Some(i) => Some(self.records[i]),
            None => None,
        }
    }

    /// Writes a new record, on condition that none is there under its key.
    pub fn create(&mut self, recovery: &WalletRecovery) -> (r: Result<(), RecoveryError>)
        ensures
            match created(old(self)@, *recovery) {
                Ok(records) => r is Ok && final(self)@ == records,
                Err(error) => r == Err::<(), RecoveryError>(error) && final(self)@ == old(self)@,
            },
    {
        if self.find_key(recovery.account_id, recovery.created_at).is_some() {
            return Err(RecoveryError::Repository);
        }
        self.records.push(*recovery);
        Ok(())
    }

    /// Gives the record with the key the status `status` and notes `now` as
    /// the time of the write.
    pub fn complete(
        &mut self,
        account_id: AccountId,
        created_at: Timestamp,
        status: RecoveryStatus,
        now: Timestamp,
    ) -> (r: Result<(), RecoveryError>)
        ensures
            match completed(old(self)@, account_id, created_at, status, now) {
                Ok(records) => r is Ok && final(self)@ == records,
                Err(error) => r == Err::<(), RecoveryError>(error) && final(self)@ == old(self)@,
            },
    {
        match self.find_key(account_id, created_at) {
            Some(i) => {
                let record = self.records[i];
                self.records.set(
                    i,
                    WalletRecovery { recovery_status: status, updated_at: now, ..record },
                );
                Ok(())
            },
            None => Err(RecoveryError::Repository),
        }
    }

    /// Replaces the requirements of the record with the key and notes `now`
    /// as the time of the write.
    pub fn update_recovery_requirements(
        &mut self,
        account_id: AccountId,
        created_at: Timestamp,
        requirements: RecoveryRequirements,
        now: Timestamp,
    ) -> (r: Result<(), RecoveryError>)
        ensures
            match requirements_updated(old(self)@, account_id, created_at, requirements, now) {
                Ok(records) => r is Ok && final(self)@ == records,
                Err(error) => r == Err::<(), RecoveryError>(error) && final(self)@ == old(self)@,
            },
    {
        match self.find_key(account_id, created_at) {
            Some(i) => {
                let record = self.records[i];
                self.records.set(i, WalletRecovery { requirements, updated_at: now, ..record });
                Ok(())
            },
            None => Err(RecoveryError::Repository),
        }
    }

    /// The pending record of the account with the given type.
    pub fn fetch_pending(&self, account_id: &AccountId, recovery_type: RecoveryType) -> (record:
        Option<WalletRecovery>)
        ensures
            record == pending_of(self@, *account_id, recovery_type),
            record matches Some(found) ==> self@.contains(found) && is_pending_of(found, *account_id)
                && found.recovery_type == recovery_type,
            record is None ==> forall|j: int|
                0 <= j < self@.len() ==> !(is_pending_of(#[trigger] self@[j], *account_id)
                    && self@[j].recovery_type == recovery_type),
    {
        let mut i: usize = 0;
        while i < self.records.len()
            invariant
                i <= self.records.len(),
                forall|j: int|
                    0 <= j < i ==> !(is_pending_of(#[trigger] self@[j], *account_id)
                        && self@[j].recovery_type == recovery_type),
            decreases self.records.len() - i,
        {
            let record = self.records[i];
            if record.account_id == *account_id && record.recovery_status == RecoveryStatus::Pending
                && record.recovery_type == recovery_type {
                proof {
                    lemma_pending_of(self@, *account_id, recovery_type, i as int);
                }
                return Some(record);
            }
            i = i + 1;
        }
        assert(forall|k: int| !is_first_pending(self@, *account_id, recovery_type, k));
        None
    }

    /// Whether a record with the given status proposes `pubkey` in the place
    /// of `factor`.
    pub fn has_recovery_by_auth_pubkey(
        &self,
        factor: AuthFactor,
        pubkey: &AuthPubkey,
        status: RecoveryStatus,
    ) -> (found: bool)
        ensures
            found == some_proposes(self@, factor, *pubkey, status),
    {
        let mut i: usize = 0;
        while i < self.records.len()
            invariant
                i <= self.records.len(),
                forall|j: int| 0 <= j < i ==> !proposes(#[trigger] self@[j], factor, *pubkey, status),
            decreases self.records.len() - i,
        {
            let record = self.records[i];
            if record.recovery_status == status {
                if let Some(action) = record.recovery_action.delay_notify_action {
                    let proposed = match factor {
                        AuthFactor::App => Some(action.destination.app_auth_pubkey),
                        AuthFactor::Hw => Some(action.destination.hardware_auth_pubkey),
                        AuthFactor::Recovery => action.destination.recovery_auth_pubkey,
                    };
                    if same_optional_key(&proposed, &Some(*pubkey)) {
                        return true;
                    }
                }
            }
            i = i + 1;
        }
        false
    }

    /// Whether the account is contested at `now`.
    pub fn active_contest(&self, account_id: &AccountId, now: Timestamp) -> (active: bool)
        ensures
            active == contest_active(self@, *account_id, now),
    {
        let mut i: usize = 0;
        while i < self.records.len()
            invariant
                i <= self.records.len(),
                forall|j: int| 0 <= j < i ==> !is_recent_contest(#[trigger] self@[j], *account_id, now),
            decreases self.records.len() - i,
        {
            let record = self.records[i];
            if record.account_id == *account_id && record.recovery_status
                == RecoveryStatus::CanceledInContest && now.since(record.updated_at).nanos
                <= CONTEST_WINDOW_DAYS * NANOS_PER_DAY {
                return true;
            }
            i = i + 1;
        }
        false
    }
}

} // verus!
