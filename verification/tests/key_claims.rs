use secp256k1::hashes::sha256;
use secp256k1::{Message, PublicKey, Secp256k1, SecretKey};
use wallet_recovery::account::AuthPubkey;
use wallet_recovery::error::RecoveryError;
use wallet_recovery::helpers::validate_signatures;
use wallet_recovery::key_claims::{
    access_token, bearer_token, pubkeys_failure_status, verify_signature, wallet_claims,
    CognitoUser, CognitoUsername, KeyClaims, UserPoolError, APP_SIG_HEADER, HW_SIG_HEADER,
};

const TOKEN: &str = "header.claims.signature";

fn secret(seed: u8) -> SecretKey {
    SecretKey::from_slice(&[seed; 32]).unwrap()
}

fn public(seed: u8) -> PublicKey {
    PublicKey::from_secret_key(&Secp256k1::new(), &secret(seed))
}

fn sign(seed: u8, message: &str) -> String {
    let digest = Message::from_hashed_data::<sha256::Hash>(message.as_bytes());
    Secp256k1::new().sign_ecdsa(&digest, &secret(seed)).to_string()
}

fn username() -> CognitoUsername {
    CognitoUsername { value: String::from("urn:wallet-account:000000000000000000000000000") }
}

#[test]
fn signature_is_verified_under_the_key_of_the_signer() {
    let signature = sign(1, TOKEN);
    assert!(verify_signature(&signature, String::from(TOKEN), public(1).to_string()));
    assert!(!verify_signature(&signature, String::from(TOKEN), public(2).to_string()));
    assert!(!verify_signature(&signature, String::from("another token"), public(1).to_string()));
    // A signature is not its own message, nor a key.
    assert!(!verify_signature(TOKEN, signature.clone(), public(1).to_string()));
    assert!(!verify_signature(&public(1).to_string(), String::from(TOKEN), signature));
}

#[test]
fn texts_that_do_not_parse_verify_nothing() {
    let signature = sign(1, TOKEN);
    assert!(!verify_signature("", String::from(TOKEN), public(1).to_string()));
    assert!(!verify_signature("zz", String::from(TOKEN), public(1).to_string()));
    assert!(!verify_signature(&signature, String::from(TOKEN), String::new()));
    assert!(!verify_signature(&signature, String::from(TOKEN), String::from("02abcd")));
}

#[test]
fn uncompressed_and_upper_case_keys_verify_as_well() {
    let signature = sign(1, TOKEN);
    let uncompressed: String =
        public(1).serialize_uncompressed().iter().map(|b| format!("{:02X}", b)).collect();
    assert!(verify_signature(&signature, String::from(TOKEN), uncompressed));
}

#[test]
fn key_is_written_in_lower_case_hexadecimal() {
    let key = AuthPubkey { bytes: public(1).serialize() };
    assert_eq!(key.to_hex(), public(1).to_string());
    let mut bytes = [0u8; 33];
    bytes[0] = 0x02;
    bytes[1] = 0x9f;
    bytes[32] = 0xa0;
    let text = AuthPubkey { bytes }.to_hex();
    assert_eq!(text.len(), 66);
    assert!(text.starts_with("029f00"));
    assert!(text.ends_with("00a0"));
    assert!(AuthPubkey { bytes }.same(&AuthPubkey { bytes }));
    assert!(!AuthPubkey { bytes }.same(&key));
}

#[test]
fn both_factors_must_sign_the_challenge() {
    let app = AuthPubkey { bytes: public(1).serialize() };
    let hw = AuthPubkey { bytes: public(2).serialize() };
    let ok = validate_signatures(&app, &hw, "challenge", &sign(1, "challenge"), &sign(2, "challenge"));
    assert_eq!(ok, Ok(()));
    let swapped =
        validate_signatures(&app, &hw, "challenge", &sign(2, "challenge"), &sign(1, "challenge"));
    assert_eq!(swapped, Err(RecoveryError::InvalidInputForCompletion));
    let app_only =
        validate_signatures(&app, &hw, "challenge", &sign(1, "challenge"), &sign(1, "challenge"));
    assert_eq!(app_only, Err(RecoveryError::InvalidInputForCompletion));
    let hw_only =
        validate_signatures(&app, &hw, "challenge", &sign(2, "challenge"), &sign(2, "challenge"));
    assert_eq!(hw_only, Err(RecoveryError::InvalidInputForCompletion));
    let invalid = AuthPubkey { bytes: [0xff; 33] };
    assert_eq!(
        validate_signatures(&invalid, &hw, "challenge", &sign(1, "challenge"), &sign(2, "challenge")),
        Err(RecoveryError::InvalidInputForCompletion)
    );
}

fn wallet_claims_for(app_header: Option<String>, hw_header: Option<String>) -> KeyClaims {
    KeyClaims::for_user(
        CognitoUser::Wallet(String::from("urn:wallet-account:000000000000000000000000000")),
        username(),
        String::from(TOKEN),
        app_header,
        hw_header,
        (public(1).to_string(), public(2).to_string()),
    )
}

#[test]
fn app_signature_in_header_is_recognised() {
    let key_proof = wallet_claims_for(Some(sign(1, TOKEN)), None);
    assert_eq!(key_proof.account_id, "urn:wallet-account:000000000000000000000000000");
    assert_eq!(key_proof.username, username());
    assert!(key_proof.app_signed);
    assert!(!key_proof.hw_signed);
}

#[test]
fn hw_signature_in_header_is_recognised() {
    let key_proof = wallet_claims_for(None, Some(sign(2, TOKEN)));
    assert!(!key_proof.app_signed);
    assert!(key_proof.hw_signed);
}

#[test]
fn both_signatures_in_header_are_recognised() {
    let key_proof = wallet_claims_for(Some(sign(1, TOKEN)), Some(sign(2, TOKEN)));
    assert!(key_proof.app_signed);
    assert!(key_proof.hw_signed);
}

#[test]
fn signature_in_the_wrong_header_counts_for_nothing() {
    let key_proof = wallet_claims_for(Some(sign(2, TOKEN)), Some(sign(1, TOKEN)));
    assert!(!key_proof.app_signed);
    assert!(!key_proof.hw_signed);
    let garbage = wallet_claims_for(Some(String::from("garbage")), Some(String::new()));
    assert!(!garbage.app_signed);
    assert!(!garbage.hw_signed);
}

#[test]
fn recovery_user_signs_with_no_factor() {
    let key_proof = KeyClaims::for_user(
        CognitoUser::Recovery(String::from("urn:wallet-account:1")),
        username(),
        String::from(TOKEN),
        Some(sign(1, TOKEN)),
        Some(sign(2, TOKEN)),
        (public(1).to_string(), public(2).to_string()),
    );
    assert_eq!(key_proof.account_id, "urn:wallet-account:1");
    assert!(!key_proof.app_signed);
    assert!(!key_proof.hw_signed);
}

#[test]
fn claims_follow_the_verdicts_on_the_headers() {
    let claims = wallet_claims(String::from("a"), username(), Some(true), Some(false));
    assert!(claims.app_signed);
    assert!(!claims.hw_signed);
    let claims = wallet_claims(String::from("a"), username(), None, Some(true));
    assert!(!claims.app_signed);
    assert!(claims.hw_signed);
    assert_eq!(claims.account_id, "a");
}

#[test]
fn bearer_token_is_what_follows_the_prefix() {
    assert_eq!(bearer_token("Bearer abc.def"), Some(String::from("abc.def")));
    assert_eq!(bearer_token("Bearer "), Some(String::new()));
    assert_eq!(bearer_token("Bearer  x"), Some(String::from(" x")));
    assert_eq!(bearer_token("bearer abc"), None);
    assert_eq!(bearer_token("Bearer"), None);
    assert_eq!(bearer_token("Basic abc"), None);
    assert_eq!(bearer_token(""), None);
    assert_eq!(bearer_token(" Bearer abc"), None);
    assert_eq!(bearer_token("Bearer tökén"), Some(String::from("tökén")));
}

#[test]
fn request_without_token_is_unauthorized() {
    assert_eq!(access_token(None), Err(401));
    assert_eq!(access_token(Some(String::from("Basic abc"))), Err(401));
    assert_eq!(access_token(Some(String::from("Bearer abc"))), Ok(String::from("abc")));
}

#[test]
fn unknown_user_is_not_found() {
    assert_eq!(pubkeys_failure_status(UserPoolError::NonExistentUser), 404);
    assert_eq!(pubkeys_failure_status(UserPoolError::Other), 500);
    assert_eq!(APP_SIG_HEADER, "X-App-Signature");
    assert_eq!(HW_SIG_HEADER, "X-Hw-Signature");
}
