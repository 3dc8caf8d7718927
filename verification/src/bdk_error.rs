//! The errors of the wallet utilities and what the API makes of them.

use vstd::prelude::*;
use vstd::string::StringExecFns;

verus! {

/// Why a wallet utility failed. Where the failure came from a library
/// underneath, the error holds the text of that library's error.
#[derive(Debug)]
pub enum BdkUtilError {
    GenerateDescriptorForDescriptorKeyset(String),
    GenerateWalletForDescriptorKeyset(String),
    ParseSignatureCheckInput(String),
    DecodeHexSignature(String),
    ParseXPub(String),
    SignatureMismatch(String, String),
    WalletSync(String),
    WalletCacheAddresses(String),
    PsbtNotAddressedToAWallet(String),
    PsbtInconsistentDerivationPaths,
    MalformedDerivationPath,
    MissingWitnessUtxo,
    UnsupportedBitcoinNetwork(String),
    MalformedURI,
    ElectrumClientError(String),
}

/// An error as the API reports it, with its message.
#[derive(Debug)]
pub enum ApiError {
    GenericInternalApplicationError(String),
    GenericServiceUnavailable(String),
    GenericBadRequest(String),
}

/// The kind of an API error.
#[derive(Clone, Copy, Debug, PartialEq, Eq, Structural)]
pub enum ApiErrorKind {
    InternalApplicationError,
    ServiceUnavailable,
    BadRequest,
}

impl BdkUtilError {
    /// The message of the error.
    pub open spec fn spec_message(self) -> Seq<char> {
        match self {
            BdkUtilError::GenerateDescriptorForDescriptorKeyset(_) => "Couldn't generate Descriptor"@,
            BdkUtilError::GenerateWalletForDescriptorKeyset(_) => "Couldn't create wallet for keyset"@,
            BdkUtilError::ParseSignatureCheckInput(cause) => "Error when parsing input for SignatureCheck "@
                + cause@,
            BdkUtilError::DecodeHexSignature(cause) => "Error when decoding signature: "@ + cause@,
            BdkUtilError::ParseXPub(cause) => "Couldn't parse XPub: "@ + cause@,
            BdkUtilError::SignatureMismatch(message, signature) => "Invalid Signature with message: "@
                + message@ + " and signature: "@ + signature@,
            BdkUtilError::WalletSync(_) => "Couldn't sync wallet to the blockchain"@,
            BdkUtilError::WalletCacheAddresses(_) => "Couldn't cache wallet addresses"@,
            BdkUtilError::PsbtNotAddressedToAWallet(_) => "PSBT is not addressed to a wallet"@,
            BdkUtilError::PsbtInconsistentDerivationPaths => "Inconsistent Derivation paths on psbt entry"@,
            BdkUtilError::MalformedDerivationPath => "Malformed Derivation path on psbt entry"@,
            BdkUtilError::MissingWitnessUtxo => "PSBT input missing witness UTXO data"@,
            BdkUtilError::UnsupportedBitcoinNetwork(network) => "Unsupported bitcoin network: "@
                + network@,
            BdkUtilError::MalformedURI => "Malformed RPC URI"@,
            BdkUtilError::ElectrumClientError(cause) => "Electrum client error: "@ + cause@,
        }
    }

    /// The kind of API error that the error is reported as: a fault of the
    /// service where the wallet could not be set up, an outage where the
    /// chain could not be reached, and a bad request in every other case.
    pub open spec fn spec_api_kind(self) -> ApiErrorKind {
        match self {
            BdkUtilError::GenerateWalletForDescriptorKeyset(_)
            | BdkUtilError::GenerateDescriptorForDescriptorKeyset(_)
            | BdkUtilError::WalletCacheAddresses(_)
            | BdkUtilError::MalformedURI => ApiErrorKind::InternalApplicationError,
            BdkUtilError::ElectrumClientError(_)
            | BdkUtilError::WalletSync(_) => ApiErrorKind::ServiceUnavailable,
            _ => ApiErrorKind::BadRequest,
        }
    }

    /// Computes `spec_message`.
    pub fn to_string(&self) -> (text: String)
        ensures
            text@ == self.spec_message(),
    {
        match self {
            BdkUtilError::GenerateDescriptorForDescriptorKeyset(_) => "Couldn't generate Descriptor".to_owned(),
            BdkUtilError::GenerateWalletForDescriptorKeyset(_) => "Couldn't create wallet for keyset".to_owned(),
            BdkUtilError::ParseSignatureCheckInput(cause) => "Error when parsing input for SignatureCheck ".to_owned().concat(
                cause.as_str(),
            ),
            BdkUtilError::DecodeHexSignature(cause) => "Error when decoding signature: ".to_owned().concat(
                cause.as_str(),
            ),
            BdkUtilError::ParseXPub(cause) => "Couldn't parse XPub: ".to_owned().concat(cause.as_str()),
            BdkUtilError::SignatureMismatch(message, signature) => "Invalid Signature with message: ".to_owned().concat(
                message.as_str(),
            ).concat(" and signature: ").concat(signature.as_str()),
            BdkUtilError::WalletSync(_) => "Couldn't sync wallet to the blockchain".to_owned(),
            BdkUtilError::WalletCacheAddresses(_) => "Couldn't cache wallet addresses".to_owned(),
            BdkUtilError::PsbtNotAddressedToAWallet(_) => "PSBT is not addressed to a wallet".to_owned(),
            BdkUtilError::PsbtInconsistentDerivationPaths => "Inconsistent Derivation paths on psbt entry".to_owned(),
            BdkUtilError::MalformedDerivationPath => "Malformed Derivation path on psbt entry".to_owned(),
            BdkUtilError::MissingWitnessUtxo => "PSBT input missing witness UTXO data".to_owned(),
            BdkUtilError::UnsupportedBitcoinNetwork(network) => "Unsupported bitcoin network: ".to_owned().concat(
                network.as_str(),
            ),
            BdkUtilError::MalformedURI => "Malformed RPC URI".to_owned(),
            BdkUtilError::ElectrumClientError(cause) => "Electrum client error: ".to_owned().concat(
                cause.as_str(),
            ),
        }
    }

    /// Computes `spec_api_kind`.
    pub fn api_kind(&self) -> (kind: ApiErrorKind)
        ensures
            kind == self.spec_api_kind(),
    {
        match self {
            BdkUtilError::GenerateWalletForDescriptorKeyset(_)
            | BdkUtilError::GenerateDescriptorForDescriptorKeyset(_)
            | BdkUtilError::WalletCacheAddresses(_)
            | BdkUtilError::MalformedURI => ApiErrorKind::InternalApplicationError,
            BdkUtilError::ElectrumClientError(_)
            | BdkUtilError::WalletSync(_) => ApiErrorKind::ServiceUnavailable,
            _ => ApiErrorKind::BadRequest,
        }
    }
}

impl ApiError {
    /// The kind of the error.
    pub open spec fn spec_kind(self) -> ApiErrorKind {
        match self {
            ApiError::GenericInternalApplicationError(_) => ApiErrorKind::InternalApplicationError,
            ApiError::GenericServiceUnavailable(_) => ApiErrorKind::ServiceUnavailable,
            ApiError::GenericBadRequest(_) => ApiErrorKind::BadRequest,
        }
    }

    /// The message of the error.
    pub open spec fn spec_message(self) -> Seq<char> {
        match self {
            ApiError::GenericInternalApplicationError(message) => message@,
            ApiError::GenericServiceUnavailable(message) => message@,
            ApiError::GenericBadRequest(message) => message@,
        }
    }

    /// The API error that a failure of a wallet utility is reported as: of
    /// the kind that the failure maps to, with the message of the failure.
    pub fn from_bdk_util_error(val: BdkUtilError) -> (error: ApiError)
        ensures
            error.spec_kind() == val.spec_api_kind(),
            error.spec_message() == val.spec_message(),
    {
        let message = val.to_string();
        match val.api_kind() {
            ApiErrorKind::InternalApplicationError => ApiError::GenericInternalApplicationError(message),
            ApiErrorKind::ServiceUnavailable => ApiError::GenericServiceUnavailable(message),
            ApiErrorKind::BadRequest => ApiError::GenericBadRequest(message),
        }
    }
}

} // verus!
