//! Errors of the email reservation resources and how they are answered.
use vstd::prelude::*;
use crate::application::email_reservation::service::EmailReservationServiceError;
use crate::domain::email::{email_parse_spec, Email};
use crate::domain::user_account_id::{uuid_parse, UserAccountId};
use crate::presentation::http::ErrorResponse;

verus! {

#[derive(Clone, Copy, Debug, PartialEq, Eq, Structural)]
pub enum EmailReservationsError {
    InvalidRequest,
    InvalidEmail,
    AlreadyReserved,
    NotReserved,
    NotCurrentAccountId,
    AlreadyVerified,
    AccountCreationStarted,
    InvalidCode,
    Conflict,
    Unavailable,
    Internal,
}

pub open spec fn resource_error(error: EmailReservationServiceError) -> EmailReservationsError {
    match error {
        EmailReservationServiceError::AlreadyReserved => EmailReservationsError::AlreadyReserved,
        EmailReservationServiceError::NotReserved => EmailReservationsError::NotReserved,
        EmailReservationServiceError::NotCurrentAccountId => EmailReservationsError::NotCurrentAccountId,
        EmailReservationServiceError::AlreadyVerified => EmailReservationsError::AlreadyVerified,
        EmailReservationServiceError::AccountCreationStarted => EmailReservationsError::AccountCreationStarted,
        EmailReservationServiceError::InvalidVerificationCode => EmailReservationsError::InvalidCode,
        EmailReservationServiceError::Conflict => EmailReservationsError::Conflict,
        EmailReservationServiceError::Unavailable => EmailReservationsError::Unavailable,
        EmailReservationServiceError::UnexpectedDomainRejection(_) => EmailReservationsError::Internal,
    }
}

/// Status code, stable code and message of each answer.
pub open spec fn answer(error: EmailReservationsError) -> (u16, Seq<char>, Seq<char>) {
    match error {
        EmailReservationsError::InvalidRequest => (400, "invalid_request"@, "invalid request"@),
        EmailReservationsError::InvalidEmail => (422, "invalid_email"@, "invalid email address"@),
        EmailReservationsError::AlreadyReserved => (409, "email_already_reserved"@, "email is already reserved"@),
        EmailReservationsError::NotReserved => (404, "email_not_reserved"@, "email is not reserved"@),
        EmailReservationsError::NotCurrentAccountId => (404, "registration_not_current"@, "registration is not current"@),
        EmailReservationsError::AlreadyVerified => (409, "already_verified"@, "email is already verified"@),
        EmailReservationsError::AccountCreationStarted => (
            409,
            "account_creation_started"@,
            "account creation has already started"@,
        ),
        EmailReservationsError::InvalidCode => (422, "invalid_verification_code"@, "invalid verification code"@),
        EmailReservationsError::Conflict => (429, "email_reservation_conflict"@, "email reservation changed concurrently"@),
        EmailReservationsError::Unavailable => (
            503,
            "service_unavailable"@,
            "email reservation is temporarily unavailable"@,
        ),
        EmailReservationsError::Internal => (500, "internal_error"@, "email reservation failed"@),
    }
}

impl EmailReservationsError {
    /// Unexpected domain rejections are hidden behind an internal error.
    pub fn from_service_error(error: EmailReservationServiceError) -> (resource: EmailReservationsError)
        ensures
            resource == resource_error(error),
    {
        match error {
            EmailReservationServiceError::AlreadyReserved => EmailReservationsError::AlreadyReserved,
            EmailReservationServiceError::NotReserved => EmailReservationsError::NotReserved,
            EmailReservationServiceError::NotCurrentAccountId => EmailReservationsError::NotCurrentAccountId,
            EmailReservationServiceError::AlreadyVerified => EmailReservationsError::AlreadyVerified,
            EmailReservationServiceError::AccountCreationStarted => EmailReservationsError::AccountCreationStarted,
            EmailReservationServiceError::InvalidVerificationCode => EmailReservationsError::InvalidCode,
            EmailReservationServiceError::Conflict => EmailReservationsError::Conflict,
            EmailReservationServiceError::Unavailable => EmailReservationsError::Unavailable,
            EmailReservationServiceError::UnexpectedDomainRejection(_) => EmailReservationsError::Internal,
        }
    }

    /// The answer: only a concurrent change asks the client to retry.
    pub fn response(&self) -> (response: ErrorResponse)
        ensures
            (response.status, response.code@, response.message@) == answer(*self),
            response.retry_after == (*self == EmailReservationsError::Conflict),
    {
        let retry_after = match self {
            EmailReservationsError::Conflict => true,
            _ => false,
        };
        let (status, code, message): (u16, &'static str, &'static str) = match self {
            EmailReservationsError::InvalidRequest => (400, "invalid_request", "invalid request"),
            EmailReservationsError::InvalidEmail => (422, "invalid_email", "invalid email address"),
            EmailReservationsError::AlreadyReserved => (409, "email_already_reserved", "email is already reserved"),
            EmailReservationsError::NotReserved => (404, "email_not_reserved", "email is not reserved"),
            EmailReservationsError::NotCurrentAccountId => (404, "registration_not_current", "registration is not current"),
            EmailReservationsError::AlreadyVerified => (409, "already_verified", "email is already verified"),
            EmailReservationsError::AccountCreationStarted => (
                409,
                "account_creation_started",
                "account creation has already started",
            ),
            EmailReservationsError::InvalidCode => (422, "invalid_verification_code", "invalid verification code"),
            EmailReservationsError::Conflict => (429, "email_reservation_conflict", "email reservation changed concurrently"),
            EmailReservationsError::Unavailable => (
                503,
                "service_unavailable",
                "email reservation is temporarily unavailable",
            ),
            EmailReservationsError::Internal => (500, "internal_error", "email reservation failed"),
        };
        ErrorResponse { status, code, message, retry_after }
    }
}

/// The answer of the registration status resource, which is not implemented yet.
pub fn registration_status_not_implemented() -> (response: ErrorResponse)
    ensures
        response.status == 501,
        response.code@ == "not_implemented"@,
        response.message@ == "registration status is not implemented"@,
        !response.retry_after,
{
    ErrorResponse {
        status: 501,
        code: "not_implemented",
        message: "registration status is not implemented",
        retry_after: false,
    }
}

/// The address named by a reserve or code request: one that does not parse is an invalid
/// email.
pub fn requested_email(text: &str) -> (email: Result<Email, EmailReservationsError>)
    ensures
        match email_parse_spec(text@) {
            Some(address) => email matches Ok(e) && e@ == address,
            None => email == Err::<Email, EmailReservationsError>(EmailReservationsError::InvalidEmail),
        },
{
    match Email::parse(text) {
        Ok(email) => Ok(email),
        Err(_) => Err(EmailReservationsError::InvalidEmail),
    }
}

/// A verification request: the account identifier is read first, and one that is not a UUID
/// makes the request invalid; then the address, which must parse.
pub fn verification_request(email: &str, account_id: &str) -> (request: Result<
    (Email, UserAccountId),
    EmailReservationsError,
>)
    ensures
        match uuid_parse(account_id@) {
            None => request == Err::<(Email, UserAccountId), EmailReservationsError>(
                EmailReservationsError::InvalidRequest,
            ),
            Some(id) => match email_parse_spec(email@) {
                None => request == Err::<(Email, UserAccountId), EmailReservationsError>(
                    EmailReservationsError::InvalidEmail,
                ),
                Some(address) => request matches Ok((e, i)) && e@ == address && i.uuid() == id,
            },
        },
{
    let id = match UserAccountId::parse(account_id) {
        Ok(id) => id,
        Err(_) => return Err(EmailReservationsError::InvalidRequest),
    };
    match requested_email(email) {
        Ok(email) => Ok((email, id)),
        Err(error) => Err(error),
    }
}

} // verus!
