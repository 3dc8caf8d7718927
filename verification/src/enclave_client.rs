//! What the client of the signing enclave decides: when a request is tried
//! again, what is loaded into the enclave before that, and how the logs that
//! the enclave sends along are read.

use vstd::prelude::*;
use vstd::string::StringExecFns;
use vstd::utf8::{decode_utf8, valid_utf8};
use crate::text::{decimal, decimal_text, text_from_utf8};
use base64::Engine;
use base64::engine::general_purpose::STANDARD;

verus! {

/// Why the client could not do its work.
#[derive(Debug)]
pub enum EnclaveClientError {
    /// The credentials for the key management service could not be had.
    CredentialProviderError(String),
}

impl EnclaveClientError {
    /// The error as text.
    pub fn to_string(&self) -> (text: String)
        ensures
            text@ == match *self {
                EnclaveClientError::CredentialProviderError(reason) => "Could not load kms credentials: "@
                    + reason@,
            },
    {
        match self {
            EnclaveClientError::CredentialProviderError(reason) => {
                let mut text = "Could not load kms credentials: ".to_owned();
                text.append(reason.as_str());
                text
            },
        }
    }
}

/// The credentials provider of the configuration, or the error that says
/// that the configuration names none.
pub fn require_credentials_provider<P>(provider: Option<P>) -> (r: Result<P, EnclaveClientError>)
    ensures
        match provider {
            Some(found) => r == Ok::<P, EnclaveClientError>(found),
            None => r matches Err(EnclaveClientError::CredentialProviderError(reason)) && reason@
                == "No credentials provider provided through KMS config"@,
        },
{
    match provider {
        Some(found) => Ok(found),
        None => Err(
            EnclaveClientError::CredentialProviderError(
                "No credentials provider provided through KMS config".to_owned(),
            ),
        ),
    }
}

/// How often a request is sent at most.
pub const MAX_ATTEMPTS: u32 = 2;

/// The status with which the enclave says that it lacks the data encryption
/// key of the request.
pub const STATUS_KEY_NOT_LOADED: u16 = 404;

/// The status with which the enclave answers a request that it has served.
pub const STATUS_OK: u16 = 200;

/// What the client does with the response to a request.
#[derive(Clone, Copy, Debug, PartialEq, Eq, Structural)]
pub enum AfterResponse {
    /// Hand the response to the caller.
    Return,
    /// Load the data encryption key into the enclave, then send the request
    /// again.
    LoadKeyAndRetry,
    /// Load the data encryption key into the enclave, then give up: no
    /// attempt is left.
    LoadKeyAndGiveUp,
    /// Fail with the body of the response as the reason.
    Fail,
}

/// What the client does with the response of status `status` to attempt
/// number `attempt`, counted from 0. A served request is returned. A missing
/// key is loaded, and the request is sent again while an attempt is left. Any
/// other status is a failure.
pub open spec fn spec_after_response(attempt: u32, status: u16) -> AfterResponse {
    if status == STATUS_KEY_NOT_LOADED {
        if attempt + 1 < MAX_ATTEMPTS {
            AfterResponse::LoadKeyAndRetry
        } else {
            AfterResponse::LoadKeyAndGiveUp
        }
    } else if status == STATUS_OK {
        AfterResponse::Return
    } else {
        AfterResponse::Fail
    }
}

/// Computes `spec_after_response`.
pub fn after_response(attempt: u32, status: u16) -> (action: AfterResponse)
    ensures
        action == spec_after_response(attempt, status),
{
    if status == STATUS_KEY_NOT_LOADED {
        if attempt < MAX_ATTEMPTS - 1 {
            AfterResponse::LoadKeyAndRetry
        } else {
            AfterResponse::LoadKeyAndGiveUp
        }
    } else if status == STATUS_OK {
        AfterResponse::Return
    } else {
        AfterResponse::Fail
    }
}

/// A request is never sent a third time: after its second attempt the client
/// returns, fails or gives up.
pub proof fn lemma_two_attempts_at_most(attempt: u32, status: u16)
    requires
        attempt + 1 >= MAX_ATTEMPTS,
    ensures
        spec_after_response(attempt, status) != AfterResponse::LoadKeyAndRetry,
{
}

/// The reason with which the client fails on a response that is neither
/// served nor a missing key: the body of the response, or the error with
/// which the body could not be read.
pub fn enclave_failure(detail: &str) -> (text: String)
    ensures
        text@ == "Error from the enclave: "@ + detail@,
{
    let mut text = "Error from the enclave: ".to_owned();
    text.append(detail);
    text
}

/// The reason with which the client gives up.
pub fn giving_up() -> (text: String)
    ensures
        text@ == "Could not get result from server"@,
{
    "Could not get result from server".to_owned()
}

/// The identity of the data encryption key to use: the one that the store
/// of keys offers where the key management service is configured, and a fixed
/// one where it is not.
pub fn available_dek_id(kms_configured: bool, offered: String) -> (dek_id: String)
    ensures
        dek_id@ == if kms_configured {
            offered@
        } else {
            "FAKE_DEK_ID"@
        },
{
    if kms_configured {
        offered
    } else {
        "FAKE_DEK_ID".to_owned()
    }
}

/// The request that loads a wrapped data encryption key into the enclave.
#[derive(Debug)]
pub struct LoadSecretRequest {
    pub region: String,
    pub proxy_port: String,
    pub akid: String,
    pub skid: String,
    pub session_token: String,
    pub dek_id: String,
    pub ciphertext: String,
    pub cmk_id: String,
}

impl LoadSecretRequest {
    /// The request that is sent where no key management service is
    /// configured: every field holds a fixed text.
    pub fn fake() -> (request: LoadSecretRequest)
        ensures
            request.region@ == "FAKE_REGION"@,
            request.proxy_port@ == "FAKE_PROXY_PORT"@,
            request.akid@ == "FAKE_AKID"@,
            request.skid@ == "FAKE_SKID"@,
            request.session_token@ == "FAKE_SESSION_TOKEN"@,
            request.dek_id@ == "FAKE_DEK_ID"@,
            request.ciphertext@ == "FAKE_DEK_CIPHERTEXT"@,
            request.cmk_id@ == "FAKE_CMK_ID"@,
    {
        LoadSecretRequest {
            region: "FAKE_REGION".to_owned(),
            proxy_port: "FAKE_PROXY_PORT".to_owned(),
            akid: "FAKE_AKID".to_owned(),
            skid: "FAKE_SKID".to_owned(),
            session_token: "FAKE_SESSION_TOKEN".to_owned(),
            dek_id: "FAKE_DEK_ID".to_owned(),
            ciphertext: "FAKE_DEK_CIPHERTEXT".to_owned(),
            cmk_id: "FAKE_CMK_ID".to_owned(),
        }
    }

    /// The request that loads the wrapped key `ciphertext` with the
    /// credentials of the key management service. The port is written in
    /// decimal, and credentials without a session token give the empty text
    /// for it.
    pub fn with_credentials(
        region: String,
        proxy_port: u32,
        akid: String,
        skid: String,
        session_token: Option<String>,
        dek_id: String,
        ciphertext: String,
        cmk_id: String,
    ) -> (request: LoadSecretRequest)
        ensures
            request.region == region,
            request.proxy_port@ == decimal_text(proxy_port as nat),
            request.akid == akid,
            request.skid == skid,
            request.session_token@ == match session_token {
                Some(token) => token@,
                None => Seq::<char>::empty(),
            },
            request.dek_id == dek_id,
            request.ciphertext == ciphertext,
            request.cmk_id == cmk_id,
    {
        let session_token = match session_token {
            Some(token) => token,
            None => String::new(),
        };
        LoadSecretRequest {
            region,
            proxy_port: decimal(proxy_port),
            akid,
            skid,
            session_token,
            dek_id,
            ciphertext,
            cmk_id,
        }
    }
}

/// What the key management service gives toward loading a key: where it
/// is reached, the credentials for it, and the wrapped key.
#[derive(Debug)]
pub struct KmsMaterial {
    pub region: String,
    pub proxy_port: u32,
    pub akid: String,
    pub skid: String,
    pub session_token: Option<String>,
    pub ciphertext: String,
    pub cmk_id: String,
}

/// The request that loads the key `dek_id` into the enclave: made of the
/// material of the key management service where one is configured, and the
/// fixed request where none is.
pub fn load_secret_request(material: Option<KmsMaterial>, dek_id: &str) -> (request:
    LoadSecretRequest)
    ensures
        match material {
            Some(kms) => {
                &&& request.region == kms.region
                &&& request.proxy_port@ == decimal_text(kms.proxy_port as nat)
                &&& request.akid == kms.akid
                &&& request.skid == kms.skid
                &&& request.session_token@ == match kms.session_token {
                    Some(token) => token@,
                    None => Seq::<char>::empty(),
                }
                &&& request.dek_id@ == dek_id@
                &&& request.ciphertext == kms.ciphertext
                &&& request.cmk_id == kms.cmk_id
            },
            None => {
                &&& request.region@ == "FAKE_REGION"@
                &&& request.proxy_port@ == "FAKE_PROXY_PORT"@
                &&& request.akid@ == "FAKE_AKID"@
                &&& request.skid@ == "FAKE_SKID"@
                &&& request.session_token@ == "FAKE_SESSION_TOKEN"@
                &&& request.dek_id@ == "FAKE_DEK_ID"@
                &&& request.ciphertext@ == "FAKE_DEK_CIPHERTEXT"@
                &&& request.cmk_id@ == "FAKE_CMK_ID"@
            },
        },
{
    match material {
        Some(kms) => LoadSecretRequest::with_credentials(
            kms.region,
            kms.proxy_port,
            kms.akid,
            kms.skid,
            kms.session_token,
            dek_id.to_owned(),
            kms.ciphertext,
            kms.cmk_id,
        ),
        None => LoadSecretRequest::fake(),
    }
}

/// Why the logs of the enclave could not be read.
#[derive(Clone, Copy, Debug, PartialEq, Eq, Structural)]
pub enum LogDecodeError {
    /// The header is not base64.
    Base64,
    /// The bytes are no UTF-8 text.
    Utf8,
}

/// The bytes that the base64 text `text` encodes in the standard alphabet
/// with padding, or nothing where it encodes none.
pub uninterp spec fn base64_decoded(text: Seq<char>) -> Option<Seq<u8>>;

/// `base64::Engine::decode` of the engine `general_purpose::STANDARD`. The
/// outcome depends on the text alone and is named.
#[verifier::external_body]
fn base64_decode(text: &str) -> (r: Option<Vec<u8>>)
    ensures
        match base64_decoded(text@) {
            Some(bytes) => r matches Some(found) && found@ == bytes,
            None => r is None,
        },
{
    STANDARD.decode(text).ok()
}

/// The text of the logs whose base64 decoding gave `decoded`.
pub open spec fn logs_text(decoded: Option<Seq<u8>>) -> Result<Seq<char>, LogDecodeError> {
    match decoded {
        None => Err(LogDecodeError::Base64),
        Some(bytes) => if valid_utf8(bytes) {
            Ok(decode_utf8(bytes))
        } else {
            Err(LogDecodeError::Utf8)
        },
    }
}

/// Whether `result` is the text or the error that `expected` gives.
pub open spec fn is_logs_outcome(
    result: Result<String, LogDecodeError>,
    expected: Result<Seq<char>, LogDecodeError>,
) -> bool {
    match expected {
        Ok(text) => result matches Ok(found) && found@ == text,
        Err(error) => result matches Err(found) && found == error,
    }
}

/// The text of the logs, given what the base64 decoding of the header gave.
pub fn logs_from_decoded(decoded: Option<Vec<u8>>) -> (r: Result<String, LogDecodeError>)
    ensures
        is_logs_outcome(
            r,
            logs_text(
                match decoded {
                    Some(bytes) => Some(bytes@),
                    None => None,
                },
            ),
        ),
{
    match decoded {
        None => Err(LogDecodeError::Base64),
        Some(bytes) => match text_from_utf8(bytes) {
            Some(text) => Ok(text),
            None => Err(LogDecodeError::Utf8),
        },
    }
}

/// Unpacks the logs that the enclave sends in a header: the header is the
/// base64 encoding of the UTF-8 bytes of a JSON text, which is returned.
pub fn unpack_enclave_logs(logs: &str) -> (r: Result<String, LogDecodeError>)
    ensures
        is_logs_outcome(r, logs_text(base64_decoded(logs@))),
{
    logs_from_decoded(base64_decode(logs))
}

} // verus!
