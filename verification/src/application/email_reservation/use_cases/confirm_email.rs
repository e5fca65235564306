//! Confirming an address with its verification code issues a one-time account
//! creation token; the reservation keeps only the token's SHA-256 digest.
use vstd::prelude::*;
use crate::application::email_reservation::service::{EmailReservationServiceError, VerifiedEmail};
use crate::application::CommandGatewayError;
use crate::domain::email::Email;
use crate::domain::email_reservation::commands::{EmailReservationCommand, EmailReservationCommandView};
use crate::domain::email_reservation::errors::EmailReservationError;
use crate::domain::user_account_id::UserAccountId;

verus! {

/// SHA-256 of a message.
pub uninterp spec fn sha256(message: Seq<u8>) -> Seq<u8>;

/// `sha2::Sha256::digest`: the SHA-256 hash of the bytes, 32 bytes long.
#[verifier::external_body]
fn sha256_digest(message: &[u8]) -> (digest: Vec<u8>)
    ensures
        digest@ == sha256(message@),
        digest@.len() == 32,
{
    <sha2::Sha256 as sha2::Digest>::digest(message).to_vec()
}

pub open spec fn hex_digit(nibble: int) -> char {
    if nibble < 10 {
        (48 + nibble) as char
    } else {
        (87 + nibble) as char
    }
}

/// Lowercase hexadecimal text of bytes, two digits per byte, high nibble first.
pub open spec fn hex_lower(bytes: Seq<u8>) -> Seq<char>
    decreases bytes.len(),
{
    if bytes.len() == 0 {
        Seq::empty()
    } else {
        hex_lower(bytes.drop_last()) + seq![hex_digit(bytes.last() as int / 16), hex_digit(bytes.last() as int % 16)]
    }
}

/// `hex::encode`: lowercase hexadecimal, two digits per byte in order.
#[verifier::external_body]
fn hex_encode(bytes: &[u8]) -> (text: String)
    ensures
        text@ == hex_lower(bytes@),
{
    hex::encode(bytes)
}

/// The stored form of an account creation token: hex of the SHA-256 of its UTF-8 bytes.
pub open spec fn token_digest_spec(token: Seq<char>) -> Seq<char> {
    hex_lower(sha256(vstd::utf8::encode_utf8(token)))
}

pub fn token_digest(token: &str) -> (digest: String)
    ensures
        digest@ == token_digest_spec(token@),
{
    let hash = sha256_digest(token.as_bytes());
    hex_encode(hash.as_slice())
}

/// A code outside seven digits is refused before any token is issued.
pub fn validate_code(code: u32) -> (checked: Result<(), EmailReservationServiceError>)
    ensures
        checked is Ok <==> 1_000_000 <= code <= 9_999_999,
        checked matches Err(e) ==> e == EmailReservationServiceError::InvalidVerificationCode,
{
    if 1_000_000 <= code && code <= 9_999_999 {
        Ok(())
    } else {
        Err(EmailReservationServiceError::InvalidVerificationCode)
    }
}

/// The command that verifies the address and stores the digest of the new token.
pub fn verify_command(email: Email, account_id: UserAccountId, code: u32, account_creation_token: &str) -> (command:
    EmailReservationCommand)
    ensures
        command@ == (EmailReservationCommandView::VerifyEmail {
            email: email@,
            account_id,
            code,
            token_digest: token_digest_spec(account_creation_token@),
        }),
{
    EmailReservationCommand::VerifyEmail {
        email,
        account_id,
        code,
        token_digest: token_digest(account_creation_token),
    }
}

pub open spec fn confirm_error(error: CommandGatewayError<EmailReservationError>) -> EmailReservationServiceError {
    match error {
        CommandGatewayError::Domain(EmailReservationError::NotReserved) => EmailReservationServiceError::NotReserved,
        CommandGatewayError::Domain(EmailReservationError::NotCurrentAccountId) =>
            EmailReservationServiceError::NotCurrentAccountId,
        CommandGatewayError::Domain(EmailReservationError::AlreadyVerified) => EmailReservationServiceError::AlreadyVerified,
        CommandGatewayError::Domain(EmailReservationError::AccountCreationStarted) =>
            EmailReservationServiceError::AccountCreationStarted,
        CommandGatewayError::Domain(EmailReservationError::InvalidVerificationCode) =>
            EmailReservationServiceError::InvalidVerificationCode,
        CommandGatewayError::Domain(other) => EmailReservationServiceError::UnexpectedDomainRejection(other),
        CommandGatewayError::Conflict => EmailReservationServiceError::Conflict,
        CommandGatewayError::Unavailable => EmailReservationServiceError::Unavailable,
    }
}

pub fn map_error(error: CommandGatewayError<EmailReservationError>) -> (mapped: EmailReservationServiceError)
    ensures
        mapped == confirm_error(error),
{
    match error {
        CommandGatewayError::Domain(EmailReservationError::NotReserved) => EmailReservationServiceError::NotReserved,
        CommandGatewayError::Domain(EmailReservationError::NotCurrentAccountId) =>
            EmailReservationServiceError::NotCurrentAccountId,
        CommandGatewayError::Domain(EmailReservationError::AlreadyVerified) => EmailReservationServiceError::AlreadyVerified,
        CommandGatewayError::Domain(EmailReservationError::AccountCreationStarted) =>
            EmailReservationServiceError::AccountCreationStarted,
        CommandGatewayError::Domain(EmailReservationError::InvalidVerificationCode) =>
            EmailReservationServiceError::InvalidVerificationCode,
        CommandGatewayError::Domain(other) => EmailReservationServiceError::UnexpectedDomainRejection(other),
        CommandGatewayError::Conflict => EmailReservationServiceError::Conflict,
        CommandGatewayError::Unavailable => EmailReservationServiceError::Unavailable,
    }
}

/// The answer once the gateway ran the verify command: on success the caller receives the
/// token whose digest was stored.
pub fn finish(
    email: Email,
    account_id: UserAccountId,
    account_creation_token: String,
    executed: Result<(), CommandGatewayError<EmailReservationError>>,
) -> (answer: Result<VerifiedEmail, EmailReservationServiceError>)
    ensures
        match executed {
            Ok(()) => answer matches Ok(verified) && verified.email@ == email@ && verified.account_id == account_id
                && verified.account_creation_token@ == account_creation_token@,
            Err(error) => answer == Err::<VerifiedEmail, EmailReservationServiceError>(confirm_error(error)),
        },
{
    match executed {
        Ok(()) => Ok(VerifiedEmail { email, account_id, account_creation_token }),
        Err(error) => Err(map_error(error)),
    }
}

} // verus!
