//! The key proof of a request: which authentication factors of the account
//! have signed the access token that the request carries.

use vstd::prelude::*;
use vstd::string::StrSliceExecFns;
use secp256k1::ecdsa::Signature;
use secp256k1::hashes::sha256;
use secp256k1::{Message, PublicKey, Secp256k1};
use std::str::FromStr;

verus! {

/// The header that carries the signature of the application key.
pub const APP_SIG_HEADER: &'static str = "X-App-Signature";

/// The header that carries the signature of the hardware key.
pub const HW_SIG_HEADER: &'static str = "X-Hw-Signature";

/// The name under which the user pool knows a user.
#[derive(Clone, Debug, PartialEq, Eq)]
pub struct CognitoUsername {
    pub value: String,
}

/// The user that a user name stands for: the wallet user of an account, or
/// its recovery user, who holds no authentication factor.
#[derive(Clone, Debug, PartialEq, Eq)]
pub enum CognitoUser {
    Wallet(String),
    Recovery(String),
}

/// The claims of an access token.
#[derive(Clone, Debug)]
pub struct AccessTokenClaims {
    pub sub: String,
    pub iss: String,
    pub client_id: String,
    pub origin_jti: String,
    pub event_id: String,
    pub token_use: String,
    pub scope: String,
    pub auth_time: u64,
    pub exp: u64,
    pub iat: u64,
    pub jti: String,
    pub username: CognitoUsername,
}

/// Which factors of an account have signed a request.
#[derive(Debug, Clone)]
pub struct KeyClaims {
    pub account_id: String,
    pub username: CognitoUsername,
    pub app_signed: bool,
    pub hw_signed: bool,
}

/// Whether `signature`, read as the hexadecimal text of a DER-encoded ECDSA
/// signature, is a signature of the SHA-256 digest of the bytes of `message`
/// under the secp256k1 public key that the hexadecimal text `pubkey` encodes.
/// It is false where either text does not parse.
pub uninterp spec fn ecdsa_signature_holds(
    signature: Seq<char>,
    message: Seq<char>,
    pubkey: Seq<char>,
) -> bool;

/// `secp256k1::Secp256k1::verify_ecdsa` on the message that
/// `Message::from_hashed_data::<sha256::Hash>` makes of the bytes of
/// `message`, the signature that `Signature::from_str` reads and the key that
/// `PublicKey::from_str` reads. All four depend on their arguments alone, so
/// the outcome is named; a text that does not parse gives `false`.
#[verifier::external_body]
fn ecdsa_verify(signature: &str, message: &str, pubkey: &str) -> (valid: bool)
    ensures
        valid == ecdsa_signature_holds(signature@, message@, pubkey@),
{
    let secp = Secp256k1::verification_only();
    let message = Message::from_hashed_data::<sha256::Hash>(message.as_bytes());
    let Ok(signature) = Signature::from_str(signature) else {
        return false;
    };
    let Ok(pubkey) = PublicKey::from_str(pubkey) else {
        return false;
    };
    secp.verify_ecdsa(&message, &signature, &pubkey).is_ok()
}

/// Whether `signature` is a valid signature of `message` under `pubkey`.
pub fn verify_signature(signature: &str, message: String, pubkey: String) -> (valid: bool)
    ensures
        valid == ecdsa_signature_holds(signature@, message@, pubkey@),
{
    ecdsa_verify(signature, message.as_str(), pubkey.as_str())
}

/// Whether a header that may be absent carries a valid signature of
/// `message` under `pubkey`.
pub open spec fn header_signs(header: Option<String>, message: Seq<char>, pubkey: Seq<char>) -> bool {
    match header {
        Some(signature) => ecdsa_signature_holds(signature@, message, pubkey),
        None => false,
    }
}

/// What is known of the signatures on a request whose signature headers gave
/// the two verdicts: the function that `KeyClaims::for_wallet_user` computes,
/// with the verdicts of the signature checks as arguments.
pub fn wallet_claims(
    account_id: String,
    username: CognitoUsername,
    app_verdict: Option<bool>,
    hw_verdict: Option<bool>,
) -> (claims: KeyClaims)
    ensures
        claims.account_id == account_id,
        claims.username == username,
        claims.app_signed == (app_verdict == Some(true)),
        claims.hw_signed == (hw_verdict == Some(true)),
{
    let app_signed = match app_verdict {
        Some(valid) => valid,
        None => false,
    };
    let hw_signed = match hw_verdict {
        Some(valid) => valid,
        None => false,
    };
    KeyClaims { account_id, username, app_signed, hw_signed }
}

fn header_verdict(header: &Option<String>, message: &String, pubkey: String) -> (r: Option<bool>)
    ensures
        r is Some <==> *header is Some,
        (r == Some(true)) == header_signs(*header, message@, pubkey@),
{
    match header {
        Some(signature) => Some(verify_signature(signature.as_str(), message.clone(), pubkey)),
        None => None,
    }
}

impl KeyClaims {
    /// The claims of a request made by the recovery user of an account, who
    /// signs with neither factor.
    pub fn for_recovery_user(account_id: String, username: CognitoUsername) -> (claims: KeyClaims)
        ensures
            claims.account_id == account_id,
            claims.username == username,
            !claims.app_signed,
            !claims.hw_signed,
    {
        KeyClaims { account_id, username, app_signed: false, hw_signed: false }
    }

    /// The claims of a request made by the wallet user of an account: a
    /// factor has signed where its header is present and holds a valid
    /// signature of the access token `jwt` under the factor's public key.
    pub fn for_wallet_user(
        account_id: String,
        username: CognitoUsername,
        jwt: String,
        app_sig_header: Option<String>,
        hw_sig_header: Option<String>,
        app_pubkey: String,
        hw_pubkey: String,
    ) -> (claims: KeyClaims)
        ensures
            claims.account_id == account_id,
            claims.username == username,
            claims.app_signed == header_signs(app_sig_header, jwt@, app_pubkey@),
            claims.hw_signed == header_signs(hw_sig_header, jwt@, hw_pubkey@),
    {
        let app_verdict = header_verdict(&app_sig_header, &jwt, app_pubkey);
        let hw_verdict = header_verdict(&hw_sig_header, &jwt, hw_pubkey);
        wallet_claims(account_id, username, app_verdict, hw_verdict)
    }

    /// The claims of a request by `user`. For the wallet user the public
    /// keys of the two factors are `pubkeys`, application key first.
    pub fn for_user(
        user: CognitoUser,
        username: CognitoUsername,
        jwt: String,
        app_sig_header: Option<String>,
        hw_sig_header: Option<String>,
        pubkeys: (String, String),
    ) -> (claims: KeyClaims)
        ensures
            claims.username == username,
            match user {
                CognitoUser::Recovery(account_id) => {
                    &&& claims.account_id == account_id
                    &&& !claims.app_signed
                    &&& !claims.hw_signed
                },
                CognitoUser::Wallet(account_id) => {
                    &&& claims.account_id == account_id
                    &&& claims.app_signed == header_signs(app_sig_header, jwt@, pubkeys.0@)
                    &&& claims.hw_signed == header_signs(hw_sig_header, jwt@, pubkeys.1@)
                },
            },
    {
        match user {
            CognitoUser::Recovery(account_id) => KeyClaims::for_recovery_user(account_id, username),
            CognitoUser::Wallet(account_id) => KeyClaims::for_wallet_user(
                account_id,
                username,
                jwt,
                app_sig_header,
                hw_sig_header,
                pubkeys.0,
                pubkeys.1,
            ),
        }
    }
}

/// The scheme word and space that an `Authorization` header puts before an
/// access token.
pub open spec fn bearer_prefix() -> Seq<char> {
    seq!['B', 'e', 'a', 'r', 'e', 'r', ' ']
}

/// The access token in the value of an `Authorization` header: what follows
/// the prefix `Bearer `, if the value begins with it.
pub open spec fn spec_bearer_token(value: Seq<char>) -> Option<Seq<char>> {
    if value.len() >= 7 && value.take(7) == bearer_prefix() {
        Some(value.skip(7))
    } else {
        None
    }
}

/// Computes `spec_bearer_token`.
pub fn bearer_token(value: &str) -> (token: Option<String>)
    ensures
        match spec_bearer_token(value@) {
            Some(expected) => token matches Some(t) && t@ == expected,
            None => token is None,
        },
{
    let prefix = "Bearer ";
    proof {
        reveal_strlit("Bearer ");
        assert(prefix@ =~= bearer_prefix());
    }
    let len: usize = value.unicode_len();
    if len < 7 {
        return None;
    }
    let mut i: usize = 0;
    while i < 7
        invariant
            i <= 7,
            len == value@.len(),
            len >= 7,
            prefix@ == bearer_prefix(),
            forall|j: int| 0 <= j < i ==> value@[j] == bearer_prefix()[j],
        decreases 7 - i,
    {
        if value.get_char(i) != prefix.get_char(i) {
            assert(value@.take(7)[i as int] != bearer_prefix()[i as int]);
            return None;
        }
        i = i + 1;
    }
    assert(value@.take(7) =~= bearer_prefix());
    let rest = value.substring_char(7, len);
    assert(rest@ =~= value@.skip(7));
    Some(rest.to_owned())
}

/// Why the public keys of a wallet user could not be had from the user
/// pool.
#[derive(Clone, Copy, Debug, PartialEq, Eq, Structural)]
pub enum UserPoolError {
    /// The pool knows no such user.
    NonExistentUser,
    /// Any other failure of the pool.
    Other,
}

/// The status that says that the access token is missing or unusable.
pub const STATUS_UNAUTHORIZED: u16 = 401;

/// The status that says that the user is unknown.
pub const STATUS_NOT_FOUND: u16 = 404;

/// The status that says that the service itself failed.
pub const STATUS_INTERNAL_SERVER_ERROR: u16 = 500;

/// The status with which a request is turned down where the public keys of
/// its user could not be had: the user is not found, or the service failed.
pub fn pubkeys_failure_status(error: UserPoolError) -> (status: u16)
    ensures
        status == match error {
            UserPoolError::NonExistentUser => STATUS_NOT_FOUND,
            UserPoolError::Other => STATUS_INTERNAL_SERVER_ERROR,
        },
{
    match error {
        UserPoolError::NonExistentUser => STATUS_NOT_FOUND,
        UserPoolError::Other => STATUS_INTERNAL_SERVER_ERROR,
    }
}

/// The access token of a request, or the status `401` where the request
/// carries no `Authorization` header of the form `Bearer ` and a token.
pub fn access_token(authorization: Option<String>) -> (r: Result<String, u16>)
    ensures
        match authorization {
            Some(value) => match spec_bearer_token(value@) {
                Some(token) => r matches Ok(found) && found@ == token,
                None => r == Err::<String, u16>(STATUS_UNAUTHORIZED),
            },
            None => r == Err::<String, u16>(STATUS_UNAUTHORIZED),
        },
{
    match authorization {
        Some(value) => match bearer_token(value.as_str()) {
            Some(token) => Ok(token),
            None => Err(STATUS_UNAUTHORIZED),
        },
        None => Err(STATUS_UNAUTHORIZED),
    }
}

} // verus!
