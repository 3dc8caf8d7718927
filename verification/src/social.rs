//! Rules on the relationships of social recovery, and the conditional write
//! by which their records are kept.

use vstd::prelude::*;
use crate::account::AccountId;
use crate::instant::Timestamp;

verus! {

/// Why a change to a relationship is turned down.
#[derive(Clone, Copy, Debug, PartialEq, Eq, Structural)]
pub enum ServiceError {
    /// The invitation was taken up already: there is nothing to issue again.
    RelationshipAlreadyEstablished,
    /// The relationship belongs to another customer.
    UnauthorizedRelationshipUpdate,
}

/// Whether the invitation of a relationship may be issued again on behalf of
/// the account `requester`: the relationship must still be an invitation, and
/// the invitation must be one of that account.
pub open spec fn spec_may_reissue(
    invitation_of: Option<AccountId>,
    requester: AccountId,
) -> Result<(), ServiceError> {
    match invitation_of {
        None => Err(ServiceError::RelationshipAlreadyEstablished),
        Some(customer) => if customer != requester {
            Err(ServiceError::UnauthorizedRelationshipUpdate)
        } else {
            Ok(())
        },
    }
}

/// Decides whether an invitation may be issued again. `invitation_of` is the
/// customer account of the relationship where it is still an invitation, and
/// nothing where it is more than that.
pub fn may_reissue(invitation_of: Option<AccountId>, requester: &AccountId) -> (r: Result<
    (),
    ServiceError,
>)
    ensures
        r == spec_may_reissue(invitation_of, *requester),
{
    match invitation_of {
        None => Err(ServiceError::RelationshipAlreadyEstablished),
        Some(customer) => if customer != *requester {
            Err(ServiceError::UnauthorizedRelationshipUpdate)
        } else {
            Ok(())
        },
    }
}

/// Whether a conditional write goes through: the store holds no value under
/// the key yet, or it holds the one that the writer has read, which is known
/// by the time of its last write.
pub open spec fn spec_write_admitted(stored: Option<Timestamp>, read: Timestamp) -> bool {
    match stored {
        None => true,
        Some(updated_at) => updated_at == read,
    }
}

/// Computes `spec_write_admitted`.
pub fn write_admitted(stored: Option<Timestamp>, read: Timestamp) -> (admitted: bool)
    ensures
        admitted == spec_write_admitted(stored, read),
{
    match stored {
        None => true,
        Some(updated_at) => updated_at == read,
    }
}

/// Of two writers that have read the same value, the one that writes second
/// is turned down: the first write has given the value a later time.
pub proof fn lemma_second_writer_loses(read: Timestamp, first_write: Timestamp)
    requires
        read@ < first_write@,
    ensures
        spec_write_admitted(Some(read), read),
        !spec_write_admitted(Some(first_write), read),
{
}

} // verus!
