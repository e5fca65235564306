//! Reserving an address: the reservation command, the code delivery committed with it, and
//! how the gateway's answer is reported.
use vstd::prelude::*;
use crate::application::email_reservation::service::{EmailReservationServiceError, ReservedEmail};
use crate::application::email_reservation::tasks::send_verification_code::v1::SendVerificationCodeTaskV1;
use crate::application::CommandGatewayError;
use crate::domain::email::Email;
use crate::domain::email_reservation::commands::{EmailReservationCommand, EmailReservationCommandView};
use crate::domain::email_reservation::errors::EmailReservationError;
use crate::domain::user_account_id::UserAccountId;

verus! {

/// The command, and the delivery task committed with it; both carry the same address, ID and code.
pub fn command_and_task(email: Email, account_id: UserAccountId, verification_code: u32) -> (planned: (
    EmailReservationCommand,
    SendVerificationCodeTaskV1,
))
    ensures
        planned.0@ == (EmailReservationCommandView::ReserveEmail { email: email@, account_id, verification_code }),
        planned.1.email@ == email@,
        planned.1.account_id == account_id,
        planned.1.verification_code == verification_code,
{
    let task = SendVerificationCodeTaskV1 { email: email.duplicate(), account_id, verification_code };
    (EmailReservationCommand::ReserveEmail { email, account_id, verification_code }, task)
}

pub open spec fn reserve_error(error: CommandGatewayError<EmailReservationError>) -> EmailReservationServiceError {
    match error {
        CommandGatewayError::Domain(EmailReservationError::AlreadyReserved) => EmailReservationServiceError::AlreadyReserved,
        CommandGatewayError::Domain(other) => EmailReservationServiceError::UnexpectedDomainRejection(other),
        CommandGatewayError::Conflict => EmailReservationServiceError::Conflict,
        CommandGatewayError::Unavailable => EmailReservationServiceError::Unavailable,
    }
}

/// The answer once the gateway ran the reservation: the reserved address and its account ID,
/// or the refusal; an address that is already reserved is reported as such.
pub fn finish(
    email: Email,
    account_id: UserAccountId,
    executed: Result<(), CommandGatewayError<EmailReservationError>>,
) -> (answer: Result<ReservedEmail, EmailReservationServiceError>)
    ensures
        match executed {
            Ok(()) => answer matches Ok(reserved) && reserved.email@ == email@ && reserved.account_id == account_id,
            Err(error) => answer == Err::<ReservedEmail, EmailReservationServiceError>(reserve_error(error)),
        },
{
    match executed {
        Ok(()) => Ok(ReservedEmail { email, account_id }),
        Err(CommandGatewayError::Domain(EmailReservationError::AlreadyReserved)) => Err(
            EmailReservationServiceError::AlreadyReserved,
        ),
        Err(CommandGatewayError::Domain(other)) => Err(EmailReservationServiceError::UnexpectedDomainRejection(other)),
        Err(CommandGatewayError::Conflict) => Err(EmailReservationServiceError::Conflict),
        Err(CommandGatewayError::Unavailable) => Err(EmailReservationServiceError::Unavailable),
    }
}

} // verus!
