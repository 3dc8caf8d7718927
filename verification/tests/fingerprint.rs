use wallet_recovery::fingerprint::{
    cancel_fingerprint_enrollment, delete_fingerprint, get_enrolled_fingerprints,
    get_fingerprint_enrollment_status, message_of, set_fingerprint_label,
    start_fingerprint_enrollment, CommandError, FingerprintHandle, Msg,
    StartFingerprintEnrollmentRspStatus,
};

#[derive(Debug, PartialEq, Clone, Copy)]
enum Status {
    Incomplete,
    Complete,
}

type Decoded = Result<Option<Msg<Status>>, CommandError>;

fn started(rsp_status: Option<StartFingerprintEnrollmentRspStatus>) -> Decoded {
    Ok(Some(Msg::StartFingerprintEnrollmentRsp { rsp_status }))
}

#[test]
fn start_of_enrollment_follows_the_status() {
    assert_eq!(start_fingerprint_enrollment(started(Some(StartFingerprintEnrollmentRspStatus::Success))), Ok(true));
    assert_eq!(
        start_fingerprint_enrollment(started(Some(StartFingerprintEnrollmentRspStatus::Unspecified))),
        Err(CommandError::UnspecifiedCommandError)
    );
    assert_eq!(
        start_fingerprint_enrollment(started(Some(StartFingerprintEnrollmentRspStatus::Error))),
        Err(CommandError::GeneralCommandError)
    );
    assert_eq!(
        start_fingerprint_enrollment(started(Some(StartFingerprintEnrollmentRspStatus::Unauthenticated))),
        Err(CommandError::Unauthenticated)
    );
    assert_eq!(start_fingerprint_enrollment(started(None)), Ok(false));
}

#[test]
fn start_of_enrollment_needs_its_own_message() {
    let none: Decoded = Ok(None);
    assert_eq!(start_fingerprint_enrollment(none), Err(CommandError::MissingMessage));
    let other: Decoded = Ok(Some(Msg::Other));
    assert_eq!(start_fingerprint_enrollment(other), Err(CommandError::MissingMessage));
    let failed: Decoded = Err(CommandError::Unauthenticated);
    assert_eq!(start_fingerprint_enrollment(failed), Err(CommandError::Unauthenticated));
}

#[test]
fn enrollment_status_is_read_from_its_message() {
    let complete: Decoded =
        Ok(Some(Msg::GetFingerprintEnrollmentStatusRsp { fingerprint_status: Some(Status::Complete) }));
    assert_eq!(get_fingerprint_enrollment_status(complete), Ok(Status::Complete));
    let incomplete: Decoded = Ok(Some(Msg::GetFingerprintEnrollmentStatusRsp {
        fingerprint_status: Some(Status::Incomplete),
    }));
    assert_eq!(get_fingerprint_enrollment_status(incomplete), Ok(Status::Incomplete));
    let unnamed: Decoded =
        Ok(Some(Msg::GetFingerprintEnrollmentStatusRsp { fingerprint_status: None }));
    assert_eq!(get_fingerprint_enrollment_status(unnamed), Err(CommandError::MissingMessage));
    assert_eq!(
        get_fingerprint_enrollment_status(started(None)),
        Err(CommandError::MissingMessage)
    );
    let none: Decoded = Ok(None);
    assert_eq!(get_fingerprint_enrollment_status(none), Err(CommandError::MissingMessage));
    let failed: Decoded = Err(CommandError::GeneralCommandError);
    assert_eq!(get_fingerprint_enrollment_status(failed), Err(CommandError::GeneralCommandError));
}

#[test]
fn enrolled_fingerprints_are_handed_on() {
    let handles = vec![
        FingerprintHandle { index: 0, label: String::from("left thumb") },
        FingerprintHandle { index: 2, label: String::new() },
    ];
    let decoded: Decoded =
        Ok(Some(Msg::GetEnrolledFingerprintsRsp { max_count: 3, handles: handles.clone() }));
    let enrolled = match get_enrolled_fingerprints(decoded) {
        Ok(enrolled) => enrolled,
        Err(error) => panic!("unexpected error {:?}", error),
    };
    assert_eq!(enrolled.max_count, 3);
    assert_eq!(enrolled.fingerprints, handles);
    let other: Decoded = Ok(Some(Msg::Other));
    assert!(matches!(get_enrolled_fingerprints(other), Err(CommandError::MissingMessage)));
    let failed: Decoded = Err(CommandError::FileNotFound);
    assert!(matches!(get_enrolled_fingerprints(failed), Err(CommandError::FileNotFound)));
}

#[test]
fn missing_fingerprint_counts_as_deleted() {
    assert_eq!(delete_fingerprint(Ok(())), Ok(true));
    assert_eq!(delete_fingerprint(Err(CommandError::FileNotFound)), Ok(true));
    assert_eq!(
        delete_fingerprint(Err(CommandError::Unauthenticated)),
        Err(CommandError::Unauthenticated)
    );
    assert_eq!(
        delete_fingerprint(Err(CommandError::GeneralCommandError)),
        Err(CommandError::GeneralCommandError)
    );
}

#[test]
fn label_and_cancel_go_through_where_the_answer_decodes() {
    assert_eq!(set_fingerprint_label(Ok(())), Ok(true));
    assert_eq!(set_fingerprint_label(Err(CommandError::FileNotFound)), Err(CommandError::FileNotFound));
    assert_eq!(cancel_fingerprint_enrollment(Ok(())), Ok(true));
    assert_eq!(
        cancel_fingerprint_enrollment(Err(CommandError::MissingMessage)),
        Err(CommandError::MissingMessage)
    );
}

#[test]
fn answer_without_message_is_an_error() {
    let none: Decoded = Ok(None);
    assert!(matches!(message_of(none), Err(CommandError::MissingMessage)));
    let other: Decoded = Ok(Some(Msg::Other));
    assert!(matches!(message_of(other), Ok(Msg::Other)));
}
