//! What the answers of the hardware to the fingerprint commands mean.
//!
//! Each command is sent to the hardware and answered with one message. The
//! functions here take the answer as it was decoded, or the error with which
//! it could not be, and give the result of the command.

use vstd::prelude::*;

verus! {

/// Why a command to the hardware failed.
#[derive(Clone, Copy, Debug, PartialEq, Eq, Structural)]
pub enum CommandError {
    /// The answer holds no message, or not the one that answers the command.
    MissingMessage,
    /// The hardware gave no status.
    UnspecifiedCommandError,
    /// The hardware reported an error.
    GeneralCommandError,
    /// The hardware is locked.
    Unauthenticated,
    /// The hardware does not hold what the command names.
    FileNotFound,
}

/// A fingerprint that the hardware holds: the place of its template and the
/// name that the owner gave it.
#[derive(Clone, Debug, PartialEq, Eq)]
pub struct FingerprintHandle {
    pub index: u32,
    pub label: String,
}

/// The fingerprints that the hardware holds and how many it can hold.
pub struct EnrolledFingerprints {
    pub max_count: u32,
    pub fingerprints: Vec<FingerprintHandle>,
}

/// The status with which the hardware answers the start of an enrollment.
#[derive(Clone, Copy, Debug, PartialEq, Eq, Structural)]
pub enum StartFingerprintEnrollmentRspStatus {
    Unspecified,
    Success,
    Error,
    Unauthenticated,
}

/// A message of the hardware, as far as the fingerprint commands read it.
/// `S` is the status of an enrollment as the hardware reports it. A status
/// is absent where the hardware sent a number that stands for none.
pub enum Msg<S> {
    StartFingerprintEnrollmentRsp { rsp_status: Option<StartFingerprintEnrollmentRspStatus> },
    GetFingerprintEnrollmentStatusRsp { fingerprint_status: Option<S> },
    GetEnrolledFingerprintsRsp { max_count: u32, handles: Vec<FingerprintHandle> },
    /// Any other message.
    Other,
}

/// The message of an answer, or `MissingMessage` where it holds none.
pub fn message_of<S>(decoded: Result<Option<Msg<S>>, CommandError>) -> (r: Result<Msg<S>, CommandError>)
    ensures
        r == match decoded {
            Ok(Some(message)) => Ok::<Msg<S>, CommandError>(message),
            Ok(None) => Err(CommandError::MissingMessage),
            Err(error) => Err(error),
        },
{
    match decoded {
        Ok(Some(message)) => Ok(message),
        Ok(None) => Err(CommandError::MissingMessage),
        Err(error) => Err(error),
    }
}

/// The status of the enrollment that the hardware reports.
pub fn get_fingerprint_enrollment_status<S>(decoded: Result<Option<Msg<S>>, CommandError>) -> (r:
    Result<S, CommandError>)
    ensures
        r == match decoded {
            Ok(Some(Msg::GetFingerprintEnrollmentStatusRsp { fingerprint_status: Some(status) })) => Ok::<
                S,
                CommandError,
            >(status),
            Err(error) => Err(error),
            _ => Err(CommandError::MissingMessage),
        },
{
    match message_of(decoded) {
        Ok(Msg::GetFingerprintEnrollmentStatusRsp { fingerprint_status }) => match fingerprint_status {
            Some(status) => Ok(status),
            None => Err(CommandError::MissingMessage),
        },
        Ok(_) => Err(CommandError::MissingMessage),
        Err(error) => Err(error),
    }
}

/// Whether the hardware has begun an enrollment. A status that the hardware
/// does not name is no error, but no start either.
pub fn start_fingerprint_enrollment<S>(decoded: Result<Option<Msg<S>>, CommandError>) -> (r: Result<
    bool,
    CommandError,
>)
    ensures
        r == match decoded {
            Ok(Some(Msg::StartFingerprintEnrollmentRsp { rsp_status })) => match rsp_status {
                Some(StartFingerprintEnrollmentRspStatus::Unspecified) => Err::<bool, CommandError>(
                    CommandError::UnspecifiedCommandError,
                ),
                Some(StartFingerprintEnrollmentRspStatus::Success) => Ok(true),
                Some(StartFingerprintEnrollmentRspStatus::Error) => Err(
                    CommandError::GeneralCommandError,
                ),
                Some(StartFingerprintEnrollmentRspStatus::Unauthenticated) => Err(
                    CommandError::Unauthenticated,
                ),
                None => Ok(false),
            },
            Err(error) => Err(error),
            _ => Err(CommandError::MissingMessage),
        },
{
    match message_of(decoded) {
        Ok(Msg::StartFingerprintEnrollmentRsp { rsp_status }) => match rsp_status {
            Some(StartFingerprintEnrollmentRspStatus::Unspecified) => Err(
                CommandError::UnspecifiedCommandError,
            ),
            Some(StartFingerprintEnrollmentRspStatus::Success) => Ok(true),
            Some(StartFingerprintEnrollmentRspStatus::Error) => Err(CommandError::GeneralCommandError),
            Some(StartFingerprintEnrollmentRspStatus::Unauthenticated) => Err(
                CommandError::Unauthenticated,
            ),
            None => Ok(false),
        },
        Ok(_) => Err(CommandError::MissingMessage),
        Err(error) => Err(error),
    }
}

/// The fingerprints that the hardware reports.
pub fn get_enrolled_fingerprints<S>(decoded: Result<Option<Msg<S>>, CommandError>) -> (r: Result<
    EnrolledFingerprints,
    CommandError,
>)
    ensures
        match decoded {
            Ok(Some(Msg::GetEnrolledFingerprintsRsp { max_count, handles })) => r matches Ok(enrolled)
                && enrolled.max_count == max_count && enrolled.fingerprints == handles,
            Err(error) => r matches Err(found) && found == error,
            _ => r matches Err(found) && found == CommandError::MissingMessage,
        },
{
    match message_of(decoded) {
        Ok(Msg::GetEnrolledFingerprintsRsp { max_count, handles }) => Ok(
            EnrolledFingerprints { max_count, fingerprints: handles },
        ),
        Ok(_) => Err(CommandError::MissingMessage),
        Err(error) => Err(error),
    }
}

/// Whether a command that is answered without a message of its own has gone
/// through: it has where the answer could be decoded.
pub open spec fn spec_acknowledged(outcome: Result<(), CommandError>) -> Result<bool, CommandError> {
    match outcome {
        Ok(()) => Ok(true),
        Err(error) => Err(error),
    }
}

/// Whether the label of a fingerprint was set.
pub fn set_fingerprint_label(outcome: Result<(), CommandError>) -> (r: Result<bool, CommandError>)
    ensures
        r == spec_acknowledged(outcome),
{
    match outcome {
        Ok(()) => Ok(true),
        Err(error) => Err(error),
    }
}

/// Whether the enrollment was canceled.
pub fn cancel_fingerprint_enrollment(outcome: Result<(), CommandError>) -> (r: Result<
    bool,
    CommandError,
>)
    ensures
        r == spec_acknowledged(outcome),
{
    match outcome {
        Ok(()) => Ok(true),
        Err(error) => Err(error),
    }
}

/// Whether the fingerprint is gone. A template or a label that was not there
/// counts as deleted.
pub fn delete_fingerprint(outcome: Result<(), CommandError>) -> (r: Result<bool, CommandError>)
    ensures
        r == match outcome {
            Ok(()) => Ok::<bool, CommandError>(true),
            Err(CommandError::FileNotFound) => Ok(true),
            Err(error) => Err(error),
        },
{
    match outcome {
        Err(CommandError::FileNotFound) => Ok(true),
        Ok(()) => Ok(true),
        Err(error) => Err(error),
    }
}

} // verus!
