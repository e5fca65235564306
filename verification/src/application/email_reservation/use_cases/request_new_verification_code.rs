//! Requesting a new code restarts verification under a fresh account ID, and
//! schedules delivery of that code in the same commit.
use vstd::prelude::*;
use crate::application::email_reservation::service::EmailReservationServiceError;
use crate::application::email_reservation::tasks::send_verification_code::v1::SendVerificationCodeTaskV1;
use crate::application::CommandGatewayError;
use crate::domain::email::Email;
use crate::domain::email_reservation::commands::{EmailReservationCommand, EmailReservationCommandView};
use crate::domain::email_reservation::errors::EmailReservationError;
use crate::domain::user_account_id::UserAccountId;

verus! {

/// The command, and the delivery task committed with it; both carry the same address, ID and code.
pub fn command_and_task(email: Email, account_id: UserAccountId, verification_code: u32) -> (planned: (
    EmailReservationCommand,
    SendVerificationCodeTaskV1,
))
    ensures
        planned.0@ == (EmailReservationCommandView::RequestVerificationCode {
            email: email@,
            account_id,
            verification_code,
        }),
        planned.1.email@ == email@,
        planned.1.account_id == account_id,
        planned.1.verification_code == verification_code,
{
    let task = SendVerificationCodeTaskV1 { email: email.duplicate(), account_id, verification_code };
    (EmailReservationCommand::RequestVerificationCode { email, account_id, verification_code }, task)
}

pub open spec fn request_error(error: CommandGatewayError<EmailReservationError>) -> EmailReservationServiceError {
    match error {
        CommandGatewayError::Domain(EmailReservationError::AccountIdUnchanged) => EmailReservationServiceError::Conflict,
        CommandGatewayError::Conflict => EmailReservationServiceError::Conflict,
        CommandGatewayError::Domain(EmailReservationError::NotReserved) => EmailReservationServiceError::NotReserved,
        CommandGatewayError::Domain(EmailReservationError::AccountCreationStarted) =>
            EmailReservationServiceError::AccountCreationStarted,
        CommandGatewayError::Domain(other) => EmailReservationServiceError::UnexpectedDomainRejection(other),
        CommandGatewayError::Unavailable => EmailReservationServiceError::Unavailable,
    }
}

/// A repeated account ID is a lost race with a concurrent request, reported as a conflict.
pub fn map_error(error: CommandGatewayError<EmailReservationError>) -> (mapped: EmailReservationServiceError)
    ensures
        mapped == request_error(error),
{
    match error {
        CommandGatewayError::Domain(EmailReservationError::AccountIdUnchanged) => EmailReservationServiceError::Conflict,
        CommandGatewayError::Conflict => EmailReservationServiceError::Conflict,
        CommandGatewayError::Domain(EmailReservationError::NotReserved) => EmailReservationServiceError::NotReserved,
        CommandGatewayError::Domain(EmailReservationError::AccountCreationStarted) =>
            EmailReservationServiceError::AccountCreationStarted,
        CommandGatewayError::Domain(other) => EmailReservationServiceError::UnexpectedDomainRejection(other),
        CommandGatewayError::Unavailable => EmailReservationServiceError::Unavailable,
    }
}

} // verus!
