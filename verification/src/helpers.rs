//! The proof that the holder of a key set gives by signing a challenge.

use vstd::prelude::*;
use crate::account::{AuthPubkey, hex_text};
use crate::error::RecoveryError;
use crate::key_claims::{ecdsa_signature_holds, verify_signature};

verus! {

/// Whether the two signatures are signatures of `challenge` under the
/// application key and the hardware key.
pub open spec fn signatures_hold(
    app_auth_pubkey: AuthPubkey,
    hardware_auth_pubkey: AuthPubkey,
    challenge: Seq<char>,
    app_signature: Seq<char>,
    hardware_signature: Seq<char>,
) -> bool {
    &&& ecdsa_signature_holds(app_signature, challenge, hex_text(app_auth_pubkey.bytes@))
    &&& ecdsa_signature_holds(hardware_signature, challenge, hex_text(hardware_auth_pubkey.bytes@))
}

/// What the check of the signatures comes to, given whether they hold.
pub open spec fn signature_check(valid: bool) -> Result<(), RecoveryError> {
    if valid {
        Ok(())
    } else {
        Err(RecoveryError::InvalidInputForCompletion)
    }
}

/// Checks that both factors of a key set have signed `challenge`.
pub fn validate_signatures(
    app_auth_pubkey: &AuthPubkey,
    hardware_auth_pubkey: &AuthPubkey,
    challenge: &str,
    app_signature: &str,
    hardware_signature: &str,
) -> (r: Result<(), RecoveryError>)
    ensures
        r == signature_check(
            signatures_hold(
                *app_auth_pubkey,
                *hardware_auth_pubkey,
                challenge@,
                app_signature@,
                hardware_signature@,
            ),
        ),
{
    if !verify_signature(app_signature, challenge.to_owned(), app_auth_pubkey.to_hex()) {
        return Err(RecoveryError::InvalidInputForCompletion);
    }
    if !verify_signature(hardware_signature, challenge.to_owned(), hardware_auth_pubkey.to_hex()) {
        return Err(RecoveryError::InvalidInputForCompletion);
    }
    Ok(())
}

} // verus!
