//! Errors of the user account resource, how they are answered, and the status link
//! handed out for an accepted profile.
use vstd::prelude::*;
use crate::application::user_account::service::{ProfileSubmission, SubmissionError};
use crate::domain::calendar::{iso_date_parse, CalendarDate};
use crate::domain::email::{email_parse_spec, Email};
use crate::domain::email_reservation::errors::EmailReservationError;
use crate::domain::user_account_id::{hyphenated, uuid_parse, UserAccountId};
use crate::presentation::http::ErrorResponse;

verus! {

#[derive(Clone, Copy, Debug, PartialEq, Eq, Structural)]
pub enum UserAccountsError {
    InvalidRequest,
    InvalidEmail,
    InvalidProfile,
    InvalidAccountCreationToken,
    RegistrationNotFound,
    RegistrationNotCurrent,
    EmailNotVerified,
    ProfileAlreadySubmitted,
    Conflict,
    Unavailable,
    Internal,
}

pub open spec fn resource_error(error: SubmissionError) -> UserAccountsError {
    match error {
        SubmissionError::Domain(EmailReservationError::InvalidAccountCreationToken) =>
            UserAccountsError::InvalidAccountCreationToken,
        SubmissionError::Domain(EmailReservationError::NotReserved) => UserAccountsError::RegistrationNotFound,
        SubmissionError::Domain(EmailReservationError::NotCurrentAccountId) => UserAccountsError::RegistrationNotCurrent,
        SubmissionError::Domain(EmailReservationError::NotAwaitingProfile) => UserAccountsError::EmailNotVerified,
        SubmissionError::Domain(EmailReservationError::ProfileAlreadySubmitted) =>
            UserAccountsError::ProfileAlreadySubmitted,
        SubmissionError::Domain(EmailReservationError::EmptyFirstName) => UserAccountsError::InvalidProfile,
        SubmissionError::Domain(EmailReservationError::EmptyLastName) => UserAccountsError::InvalidProfile,
        SubmissionError::Domain(EmailReservationError::FutureDateOfBirth) => UserAccountsError::InvalidProfile,
        SubmissionError::Conflict => UserAccountsError::Conflict,
        SubmissionError::Unavailable => UserAccountsError::Unavailable,
        SubmissionError::Domain(_) => UserAccountsError::Internal,
    }
}

pub open spec fn answer(error: UserAccountsError) -> (u16, Seq<char>, Seq<char>) {
    match error {
        UserAccountsError::InvalidRequest => (400, "invalid_request"@, "invalid request"@),
        UserAccountsError::InvalidEmail => (422, "invalid_email"@, "invalid email address"@),
        UserAccountsError::InvalidProfile => (422, "invalid_profile"@, "registration profile is invalid"@),
        UserAccountsError::InvalidAccountCreationToken => (
            403,
            "invalid_account_creation_token"@,
            "account creation token is invalid"@,
        ),
        UserAccountsError::RegistrationNotFound => (404, "registration_not_found"@, "registration was not found"@),
        UserAccountsError::RegistrationNotCurrent => (404, "registration_not_current"@, "registration is not current"@),
        UserAccountsError::EmailNotVerified => (409, "email_not_verified"@, "email has not been verified"@),
        UserAccountsError::ProfileAlreadySubmitted => (
            409,
            "profile_already_submitted"@,
            "a registration profile was already submitted"@,
        ),
        UserAccountsError::Conflict => (429, "registration_conflict"@, "registration changed concurrently"@),
        UserAccountsError::Unavailable => (503, "service_unavailable"@, "registration is temporarily unavailable"@),
        UserAccountsError::Internal => (500, "internal_error"@, "registration failed"@),
    }
}

impl UserAccountsError {
    /// Domain rejections that a client cannot act on are hidden behind an internal error.
    pub fn from_submission_error(error: SubmissionError) -> (resource: UserAccountsError)
        ensures
            resource == resource_error(error),
    {
        match error {
            SubmissionError::Domain(EmailReservationError::InvalidAccountCreationToken) =>
                UserAccountsError::InvalidAccountCreationToken,
            SubmissionError::Domain(EmailReservationError::NotReserved) => UserAccountsError::RegistrationNotFound,
            SubmissionError::Domain(EmailReservationError::NotCurrentAccountId) => UserAccountsError::RegistrationNotCurrent,
            SubmissionError::Domain(EmailReservationError::NotAwaitingProfile) => UserAccountsError::EmailNotVerified,
            SubmissionError::Domain(EmailReservationError::ProfileAlreadySubmitted) =>
                UserAccountsError::ProfileAlreadySubmitted,
            SubmissionError::Domain(EmailReservationError::EmptyFirstName) => UserAccountsError::InvalidProfile,
            SubmissionError::Domain(EmailReservationError::EmptyLastName) => UserAccountsError::InvalidProfile,
            SubmissionError::Domain(EmailReservationError::FutureDateOfBirth) => UserAccountsError::InvalidProfile,
            SubmissionError::Conflict => UserAccountsError::Conflict,
            SubmissionError::Unavailable => UserAccountsError::Unavailable,
            SubmissionError::Domain(_) => UserAccountsError::Internal,
        }
    }

    /// The answer: only a concurrent change asks the client to retry.
    pub fn response(&self) -> (response: ErrorResponse)
        ensures
            (response.status, response.code@, response.message@) == answer(*self),
            response.retry_after == (*self == UserAccountsError::Conflict),
    {
        let retry_after = match self {
            UserAccountsError::Conflict => true,
            _ => false,
        };
        let (status, code, message): (u16, &'static str, &'static str) = match self {
            UserAccountsError::InvalidRequest => (400, "invalid_request", "invalid request"),
            UserAccountsError::InvalidEmail => (422, "invalid_email", "invalid email address"),
            UserAccountsError::InvalidProfile => (422, "invalid_profile", "registration profile is invalid"),
            UserAccountsError::InvalidAccountCreationToken => (
                403,
                "invalid_account_creation_token",
                "account creation token is invalid",
            ),
            UserAccountsError::RegistrationNotFound => (404, "registration_not_found", "registration was not found"),
            UserAccountsError::RegistrationNotCurrent => (404, "registration_not_current", "registration is not current"),
            UserAccountsError::EmailNotVerified => (409, "email_not_verified", "email has not been verified"),
            UserAccountsError::ProfileAlreadySubmitted => (
                409,
                "profile_already_submitted",
                "a registration profile was already submitted",
            ),
            UserAccountsError::Conflict => (429, "registration_conflict", "registration changed concurrently"),
            UserAccountsError::Unavailable => (503, "service_unavailable", "registration is temporarily unavailable"),
            UserAccountsError::Internal => (500, "internal_error", "registration failed"),
        };
        ErrorResponse { status, code, message, retry_after }
    }
}

/// Bytes that stay unescaped in a path segment: ASCII letters and digits, `-`, `.`, `_` and `~`.
pub open spec fn unreserved_byte(b: u8) -> bool {
    (97 <= b <= 122) || (65 <= b <= 90) || (48 <= b <= 57) || b == 45 || b == 46 || b == 95 || b == 126
}

pub open spec fn upper_hex_digit(nibble: int) -> char {
    if nibble < 10 {
        (48 + nibble) as char
    } else {
        (55 + nibble) as char
    }
}

/// Percent-encoding of bytes for a path segment: unreserved bytes stay, every other byte
/// becomes `%` and two uppercase hexadecimal digits.
pub open spec fn percent_encoded(bytes: Seq<u8>) -> Seq<char>
    decreases bytes.len(),
{
    if bytes.len() == 0 {
        Seq::empty()
    } else {
        let b = bytes.last();
        percent_encoded(bytes.drop_last()) + if unreserved_byte(b) {
            seq![b as char]
        } else {
            seq!['%', upper_hex_digit(b as int / 16), upper_hex_digit(b as int % 16)]
        }
    }
}

/// `percent_encoding::percent_encode_byte`: `%` and the byte in two uppercase hexadecimal digits.
#[verifier::external_body]
fn percent_escape(byte: u8) -> (escape: &'static str)
    ensures
        escape@ == seq!['%', upper_hex_digit(byte as int / 16), upper_hex_digit(byte as int % 16)],
{
    percent_encoding::percent_encode_byte(byte)
}

/// Encodes text for use as one path segment.
pub fn encode_path_segment(text: &str) -> (encoded: String)
    ensures
        encoded@ == percent_encoded(vstd::utf8::encode_utf8(text@)),
{
    let bytes = text.as_bytes();
    let mut encoded = String::new();
    let mut i: usize = 0;
    while i < bytes.len()
        invariant
            bytes@ == vstd::utf8::encode_utf8(text@),
            i <= bytes@.len(),
            encoded@ == percent_encoded(bytes@.take(i as int)),
        decreases bytes.len() - i,
    {
        let b = bytes[i];
        proof {
            assert(bytes@.take(i + 1).drop_last() == bytes@.take(i as int));
            assert(bytes@.take(i + 1).last() == b);
        }
        if (97 <= b && b <= 122) || (65 <= b && b <= 90) || (48 <= b && b <= 57) || b == 45 || b == 46 || b
            == 95 || b == 126 {
            crate::text::push_char(&mut encoded, b as char);
        } else {
            encoded.append(percent_escape(b));
        }
        i = i + 1;
    }
    proof {
        assert(bytes@.take(bytes@.len() as int) == bytes@);
    }
    encoded
}

/// Where the status of a registration can be read.
pub open spec fn status_url_spec(email: Seq<char>, account_id: u128) -> Seq<char> {
    "/email-reservations/"@ + percent_encoded(vstd::utf8::encode_utf8(email)) + "/registrations/"@ + hyphenated(
        account_id,
    )
}

pub fn status_url(email: &Email, account_id: UserAccountId) -> (url: String)
    ensures
        url@ == status_url_spec(email@, account_id.uuid()),
{
    let mut url = String::from_str("/email-reservations/");
    let encoded = encode_path_segment(email.as_str());
    url.append(encoded.as_str());
    url.append("/registrations/");
    let id = account_id.to_hyphenated();
    url.append(id.as_str());
    url
}

/// A profile submission read from the request's fields, in order: the address must parse,
/// the account identifier must be a UUID, and the date of birth must be written `%Y-%m-%d`.
/// The token and names are passed on as they came.
pub fn profile_submission(
    email: &str,
    account_id: &str,
    account_creation_token: String,
    first_name: String,
    last_name: String,
    date_of_birth: &str,
) -> (submission: Result<ProfileSubmission, UserAccountsError>)
    ensures
        match email_parse_spec(email@) {
            None => submission == Err::<ProfileSubmission, UserAccountsError>(UserAccountsError::InvalidEmail),
            Some(address) => match uuid_parse(account_id@) {
                None => submission == Err::<ProfileSubmission, UserAccountsError>(
                    UserAccountsError::InvalidRequest,
                ),
                Some(id) => match iso_date_parse(date_of_birth@) {
                    None => submission == Err::<ProfileSubmission, UserAccountsError>(
                        UserAccountsError::InvalidProfile,
                    ),
                    Some((year, month, day)) => submission matches Ok(s) && {
                        &&& s.email@ == address
                        &&& s.account_id.uuid() == id
                        &&& s.account_creation_token@ == account_creation_token@
                        &&& s.first_name@ == first_name@
                        &&& s.last_name@ == last_name@
                        &&& s.date_of_birth.spec_year() == year
                        &&& s.date_of_birth.spec_month() == month
                        &&& s.date_of_birth.spec_day() == day
                    },
                },
            },
        },
{
    let email = match Email::parse(email) {
        Ok(email) => email,
        Err(_) => return Err(UserAccountsError::InvalidEmail),
    };
    let account_id = match UserAccountId::parse(account_id) {
        Ok(id) => id,
        Err(_) => return Err(UserAccountsError::InvalidRequest),
    };
    let date_of_birth = match CalendarDate::parse_iso(date_of_birth) {
        Some(date) => date,
        None => return Err(UserAccountsError::InvalidProfile),
    };
    Ok(ProfileSubmission { email, account_id, account_creation_token, first_name, last_name, date_of_birth })
}

} // verus!
