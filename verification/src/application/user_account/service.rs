//! The decisions of the registration service around its command gateway calls.
use vstd::prelude::*;
use crate::application::email_reservation::use_cases::confirm_email::{token_digest, token_digest_spec};
use crate::application::user_account::tasks::create_account::v1::CreateAccountTaskV1;
use crate::application::user_account::tasks::record_account_created::v1::RecordAccountCreatedTaskV1;
use crate::application::CommandGatewayError;
use crate::domain::calendar::{utc_calendar_day, CalendarDate, Timestamp};
use crate::domain::email::Email;
use crate::domain::email_reservation::commands::{EmailReservationCommand, EmailReservationCommandView};
use crate::domain::email_reservation::errors::EmailReservationError;
use crate::domain::email_reservation::{normalized_profile, RegistrationProfile, RegistrationProfileView};
use crate::domain::user_account::commands::{UserAccountCommand, UserAccountCommandView};
use crate::domain::user_account::errors::UserAccountError;
use crate::domain::user_account_id::UserAccountId;

verus! {

/// The current instant, for registration decisions. A reading is always an instant that has
/// a UTC calendar day, so the day of a submission can always be taken from it.
pub trait RegistrationClock: Send + Sync {
    fn now(&self) -> (now: Timestamp)
        ensures
            utc_calendar_day(now.seconds, now.nanos) is Some,
    ;
}

/// A profile as the client submitted it.
#[derive(Clone)]
pub struct ProfileSubmission {
    pub email: Email,
    pub account_id: UserAccountId,
    pub account_creation_token: String,
    pub first_name: String,
    pub last_name: String,
    pub date_of_birth: CalendarDate,
}

#[derive(Clone, Debug, PartialEq, Eq)]
pub struct AcceptedSubmission {
    pub email: Email,
    pub account_id: UserAccountId,
}

#[derive(Clone, Copy, Debug, PartialEq, Eq, Structural)]
pub enum SubmissionError {
    Domain(EmailReservationError),
    Conflict,
    Unavailable,
}

/// How a registration continuation task ended when it did not succeed.
#[derive(Clone, Copy, Debug, PartialEq, Eq, Structural)]
pub enum ContinuationError {
    /// Temporary: deliver the task again later.
    Retry,
    /// The data does not match: the task can never succeed.
    Permanent,
}

/// The profile that a submission asks to accept, validated as of `today`.
pub open spec fn submitted_profile(
    first_name: Seq<char>,
    last_name: Seq<char>,
    date_of_birth: CalendarDate,
    today: CalendarDate,
) -> RegistrationProfileView {
    normalized_profile(
        RegistrationProfileView { first_name, last_name, date_of_birth, validation_date: today },
    )
}

/// The command that submits the profile, and the account creation task committed with it.
/// Both carry the same trimmed profile; the token is only passed on as its digest.
pub fn submit_profile_plan(submission: ProfileSubmission, today: CalendarDate) -> (planned: (
    EmailReservationCommand,
    CreateAccountTaskV1,
))
    ensures
        ({
            let profile = submitted_profile(
                submission.first_name@,
                submission.last_name@,
                submission.date_of_birth,
                today,
            );
            &&& planned.0@ == (EmailReservationCommandView::SubmitRegistrationProfile {
                email: submission.email@,
                account_id: submission.account_id,
                token_digest: token_digest_spec(submission.account_creation_token@),
                profile,
            })
            &&& planned.1.email@ == submission.email@
            &&& planned.1.account_id == submission.account_id
            &&& planned.1.profile@ == profile
        }),
{
    let profile = RegistrationProfile::new(
        submission.first_name,
        submission.last_name,
        submission.date_of_birth,
        today,
    );
    let command = EmailReservationCommand::SubmitRegistrationProfile {
        email: submission.email.duplicate(),
        account_id: submission.account_id,
        token_digest: token_digest(submission.account_creation_token.as_str()),
        profile: profile.duplicate(),
    };
    (command, CreateAccountTaskV1 { email: submission.email, account_id: submission.account_id, profile })
}

pub open spec fn submission_error(error: CommandGatewayError<EmailReservationError>) -> SubmissionError {
    match error {
        CommandGatewayError::Conflict => SubmissionError::Conflict,
        CommandGatewayError::Unavailable => SubmissionError::Unavailable,
        CommandGatewayError::Domain(error) => SubmissionError::Domain(error),
    }
}

/// The answer once the gateway ran the submission.
pub fn submit_profile_outcome(
    email: Email,
    account_id: UserAccountId,
    executed: Result<(), CommandGatewayError<EmailReservationError>>,
) -> (answer: Result<AcceptedSubmission, SubmissionError>)
    ensures
        match executed {
            Ok(()) => answer matches Ok(accepted) && accepted.email@ == email@ && accepted.account_id == account_id,
            Err(error) => answer == Err::<AcceptedSubmission, SubmissionError>(submission_error(error)),
        },
{
    match executed {
        Ok(()) => Ok(AcceptedSubmission { email, account_id }),
        Err(CommandGatewayError::Conflict) => Err(SubmissionError::Conflict),
        Err(CommandGatewayError::Unavailable) => Err(SubmissionError::Unavailable),
        Err(CommandGatewayError::Domain(error)) => Err(SubmissionError::Domain(error)),
    }
}

/// The account creation command for a task, at the chosen creation instant.
pub open spec fn create_account_command_view(
    email: Seq<char>,
    account_id: UserAccountId,
    profile: RegistrationProfileView,
    created_at: Timestamp,
) -> UserAccountCommandView {
    UserAccountCommandView::CreateAccount {
        account_id,
        email,
        first_name: profile.first_name,
        last_name: profile.last_name,
        date_of_birth: profile.date_of_birth,
        validation_date: profile.validation_date,
        created_at,
    }
}

/// The command that creates the account, and the completion task committed with it;
/// the instant is chosen once and used by both.
pub fn create_account_plan(task: CreateAccountTaskV1, created_at: Timestamp) -> (planned: (
    UserAccountCommand,
    RecordAccountCreatedTaskV1,
))
    ensures
        planned.0@ == create_account_command_view(task.email@, task.account_id, task.profile@, created_at),
        planned.1.email@ == task.email@,
        planned.1.account_id == task.account_id,
        planned.1.profile@ == task.profile@,
        planned.1.created_at == created_at,
{
    let completion = RecordAccountCreatedTaskV1 {
        email: task.email.duplicate(),
        account_id: task.account_id,
        profile: task.profile.duplicate(),
        created_at,
    };
    let command = UserAccountCommand::CreateAccount {
        account_id: task.account_id,
        email: task.email,
        first_name: task.profile.first_name,
        last_name: task.profile.last_name,
        date_of_birth: task.profile.date_of_birth,
        validation_date: task.profile.validation_date,
        created_at,
    };
    (command, completion)
}

/// An account that already exists with the same data counts as created.
pub open spec fn create_account_result(executed: Result<(), CommandGatewayError<UserAccountError>>) -> Result<
    (),
    ContinuationError,
> {
    match executed {
        Ok(()) => Ok(()),
        Err(CommandGatewayError::Domain(UserAccountError::AlreadyCreated)) => Ok(()),
        Err(CommandGatewayError::Conflict) => Err(ContinuationError::Retry),
        Err(CommandGatewayError::Unavailable) => Err(ContinuationError::Retry),
        Err(CommandGatewayError::Domain(_)) => Err(ContinuationError::Permanent),
    }
}

pub fn create_account_outcome(executed: Result<(), CommandGatewayError<UserAccountError>>) -> (result: Result<
    (),
    ContinuationError,
>)
    ensures
        result == create_account_result(executed),
        result is Ok <==> (executed is Ok || executed == Err::<(), CommandGatewayError<UserAccountError>>(
            CommandGatewayError::Domain(UserAccountError::AlreadyCreated),
        )),
{
    match executed {
        Ok(()) => Ok(()),
        Err(CommandGatewayError::Domain(UserAccountError::AlreadyCreated)) => Ok(()),
        Err(CommandGatewayError::Conflict) => Err(ContinuationError::Retry),
        Err(CommandGatewayError::Unavailable) => Err(ContinuationError::Retry),
        Err(CommandGatewayError::Domain(_)) => Err(ContinuationError::Permanent),
    }
}

/// The command that records the created account on the reservation.
pub fn record_account_created_command(task: RecordAccountCreatedTaskV1) -> (command: EmailReservationCommand)
    ensures
        command@ == (EmailReservationCommandView::RecordAccountCreated {
            email: task.email@,
            account_id: task.account_id,
            profile: task.profile@,
            created_at: task.created_at,
        }),
{
    EmailReservationCommand::RecordAccountCreated {
        email: task.email,
        account_id: task.account_id,
        profile: task.profile,
        created_at: task.created_at,
    }
}

/// A completion recorded before with the same data counts as recorded.
pub open spec fn record_account_created_result(
    executed: Result<(), CommandGatewayError<EmailReservationError>>,
) -> Result<(), ContinuationError> {
    match executed {
        Ok(()) => Ok(()),
        Err(CommandGatewayError::Domain(EmailReservationError::AccountCreationAlreadyCompleted)) => Ok(()),
        Err(CommandGatewayError::Conflict) => Err(ContinuationError::Retry),
        Err(CommandGatewayError::Unavailable) => Err(ContinuationError::Retry),
        Err(CommandGatewayError::Domain(_)) => Err(ContinuationError::Permanent),
    }
}

pub fn record_account_created_outcome(executed: Result<(), CommandGatewayError<EmailReservationError>>) -> (result:
    Result<(), ContinuationError>)
    ensures
        result == record_account_created_result(executed),
        result is Ok <==> (executed is Ok || executed == Err::<(), CommandGatewayError<EmailReservationError>>(
            CommandGatewayError::Domain(EmailReservationError::AccountCreationAlreadyCompleted),
        )),
{
    match executed {
        Ok(()) => Ok(()),
        Err(CommandGatewayError::Domain(EmailReservationError::AccountCreationAlreadyCompleted)) => Ok(()),
        Err(CommandGatewayError::Conflict) => Err(ContinuationError::Retry),
        Err(CommandGatewayError::Unavailable) => Err(ContinuationError::Retry),
        Err(CommandGatewayError::Domain(_)) => Err(ContinuationError::Permanent),
    }
}

} // verus!
