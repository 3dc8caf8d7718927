use wallet_recovery::account::{disabled_limit, AccountId, SpendingLimit};
use wallet_recovery::bdk_error::{ApiError, ApiErrorKind, BdkUtilError};
use wallet_recovery::instant::Timestamp;
use wallet_recovery::pagination::{AfterPage, Scan};
use wallet_recovery::social::{may_reissue, write_admitted, ServiceError};

fn reported(error: BdkUtilError) -> (ApiErrorKind, String) {
    let kind = error.api_kind();
    match ApiError::from_bdk_util_error(error) {
        ApiError::GenericInternalApplicationError(message) => {
            assert_eq!(kind, ApiErrorKind::InternalApplicationError);
            (kind, message)
        }
        ApiError::GenericServiceUnavailable(message) => {
            assert_eq!(kind, ApiErrorKind::ServiceUnavailable);
            (kind, message)
        }
        ApiError::GenericBadRequest(message) => {
            assert_eq!(kind, ApiErrorKind::BadRequest);
            (kind, message)
        }
    }
}

#[test]
fn wallet_errors_are_reported_by_kind() {
    let s = || String::from("cause");
    let internal = ApiErrorKind::InternalApplicationError;
    let unavailable = ApiErrorKind::ServiceUnavailable;
    let bad = ApiErrorKind::BadRequest;
    let cases = vec![
        (BdkUtilError::GenerateDescriptorForDescriptorKeyset(s()), internal, "Couldn't generate Descriptor"),
        (BdkUtilError::GenerateWalletForDescriptorKeyset(s()), internal, "Couldn't create wallet for keyset"),
        (BdkUtilError::WalletCacheAddresses(s()), internal, "Couldn't cache wallet addresses"),
        (BdkUtilError::MalformedURI, internal, "Malformed RPC URI"),
        (BdkUtilError::ElectrumClientError(s()), unavailable, "Electrum client error: cause"),
        (BdkUtilError::WalletSync(s()), unavailable, "Couldn't sync wallet to the blockchain"),
        (BdkUtilError::ParseSignatureCheckInput(s()), bad, "Error when parsing input for SignatureCheck cause"),
        (BdkUtilError::DecodeHexSignature(s()), bad, "Error when decoding signature: cause"),
        (BdkUtilError::ParseXPub(s()), bad, "Couldn't parse XPub: cause"),
        (
            BdkUtilError::SignatureMismatch(String::from("m"), String::from("sig")),
            bad,
            "Invalid Signature with message: m and signature: sig",
        ),
        (BdkUtilError::PsbtNotAddressedToAWallet(s()), bad, "PSBT is not addressed to a wallet"),
        (BdkUtilError::PsbtInconsistentDerivationPaths, bad, "Inconsistent Derivation paths on psbt entry"),
        (BdkUtilError::MalformedDerivationPath, bad, "Malformed Derivation path on psbt entry"),
        (BdkUtilError::MissingWitnessUtxo, bad, "PSBT input missing witness UTXO data"),
        (BdkUtilError::UnsupportedBitcoinNetwork(String::from("regtest")), bad, "Unsupported bitcoin network: regtest"),
    ];
    for (error, kind, message) in cases {
        assert_eq!(error.to_string(), message);
        assert_eq!(reported(error), (kind, String::from(message)));
    }
}

#[test]
fn scan_keeps_the_readable_items_in_order() {
    let mut scan: Scan<u32> = Scan::new();
    assert!(scan.items.is_empty());
    let next = scan.absorb(vec![Some(1), None, Some(2), Some(3), None], Some("k1"));
    assert!(matches!(next, AfterPage::Continue("k1")));
    assert_eq!(scan.items, vec![1, 2, 3]);
    let next = scan.absorb(vec![], Some("k2"));
    assert!(matches!(next, AfterPage::Continue("k2")));
    assert_eq!(scan.items, vec![1, 2, 3]);
    let next = scan.absorb(vec![None, Some(4)], None::<&str>);
    assert!(matches!(next, AfterPage::Finish));
    assert_eq!(scan.items, vec![1, 2, 3, 4]);
}

#[test]
fn scan_takes_items_that_cannot_be_copied() {
    let mut scan: Scan<String> = Scan::new();
    let page = vec![Some(String::from("a")), Some(String::from("b")), None, Some(String::from("c"))];
    assert!(matches!(scan.absorb(page, None::<u8>), AfterPage::Finish));
    assert_eq!(scan.items, vec!["a", "b", "c"]);
}

#[test]
fn invitation_is_reissued_for_its_customer_only() {
    let customer = AccountId { value: 1 };
    let stranger = AccountId { value: 2 };
    assert_eq!(may_reissue(Some(customer), &customer), Ok(()));
    assert_eq!(
        may_reissue(Some(customer), &stranger),
        Err(ServiceError::UnauthorizedRelationshipUpdate)
    );
    assert_eq!(may_reissue(None, &customer), Err(ServiceError::RelationshipAlreadyEstablished));
}

#[test]
fn write_goes_through_on_a_new_or_an_unchanged_value() {
    let read = Timestamp::from_unix_seconds(10).unwrap();
    let later = Timestamp::from_unix_seconds(11).unwrap();
    assert!(write_admitted(None, read));
    assert!(write_admitted(Some(read), read));
    assert!(!write_admitted(Some(later), read));
    assert!(!write_admitted(Some(read), later));
}

#[test]
fn disabled_limit_keeps_all_but_the_switch() {
    let limit = SpendingLimit {
        active: true,
        amount: 42,
        currency_code: 978,
        time_zone_offset_seconds: 3600,
    };
    assert_eq!(
        disabled_limit(Some(limit)),
        Some(SpendingLimit {
            active: false,
            amount: 42,
            currency_code: 978,
            time_zone_offset_seconds: 3600
        })
    );
    assert_eq!(limit.deactivated().deactivated(), limit.deactivated());
    assert_eq!(disabled_limit(None), None);
}
