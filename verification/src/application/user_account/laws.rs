//! Properties of the registration flow across its use cases and both aggregates.
use vstd::prelude::*;
use crate::application::email_reservation::use_cases::confirm_email::token_digest_spec;
use crate::application::user_account::service::{
    create_account_command_view, create_account_result, record_account_created_result,
};
use crate::application::user_account::service::ContinuationError;
use crate::application::CommandGatewayError;
use crate::domain::user_account::errors::UserAccountError;
use crate::domain::calendar::Timestamp;
use crate::domain::email_reservation::aggregate as reservation;
use crate::domain::email_reservation::commands::EmailReservationCommandView;
use crate::domain::email_reservation::errors::EmailReservationError;
use crate::domain::email_reservation::{normalized_profile, RegistrationProfileView, ReservationPhaseView};
use crate::domain::user_account::aggregate as account;
use crate::domain::user_account_id::UserAccountId;

verus! {

/// A redelivered account creation task succeeds: the account it created first is recognized.
pub proof fn lemma_create_account_redelivery_succeeds(
    email: Seq<char>,
    account_id: UserAccountId,
    profile: RegistrationProfileView,
    first_instant: Timestamp,
    later_instant: Timestamp,
)
    requires
        account::decide(None, create_account_command_view(email, account_id, profile, first_instant)) is Ok,
    ensures
        ({
            let created = account::evolve(
                account::decide(None, create_account_command_view(email, account_id, profile, first_instant))->Ok_0,
            );
            let again = account::decide(created, create_account_command_view(email, account_id, profile, later_instant));
            &&& again is Err
            &&& create_account_result(Err(CommandGatewayError::Domain(again->Err_0))) == Ok::<
                (),
                crate::application::user_account::service::ContinuationError,
            >(())
        }),
{
    let first_cmd = create_account_command_view(email, account_id, profile, first_instant);
    let later_cmd = create_account_command_view(email, account_id, profile, later_instant);
    crate::domain::user_account::laws::lemma_exact_retry_is_recognized(first_cmd, later_cmd);
}

/// A redelivered completion task succeeds: the completion it recorded first is recognized.
pub proof fn lemma_record_completion_redelivery_succeeds(
    phase: ReservationPhaseView,
    command: EmailReservationCommandView,
)
    requires
        command is RecordAccountCreated,
        reservation::decide(phase, command) is Ok,
    ensures
        ({
            let again = reservation::decide(reservation::evolve(phase, reservation::decide(phase, command)->Ok_0), command);
            &&& again is Err
            &&& record_account_created_result(Err(CommandGatewayError::Domain(again->Err_0))) == Ok::<
                (),
                crate::application::user_account::service::ContinuationError,
            >(())
        }),
{
    crate::domain::email_reservation::laws::lemma_completion_is_idempotent(phase, command);
}

/// The profile a reservation accepted is exactly the one its continuation carries to completion:
/// recording the created account with it, at any instant, succeeds.
pub proof fn lemma_accepted_profile_completes(
    phase: ReservationPhaseView,
    email: Seq<char>,
    account_id: UserAccountId,
    token_digest: Seq<char>,
    submitted: RegistrationProfileView,
    completion_email: Seq<char>,
    created_at: Timestamp,
)
    requires
        reservation::decide(
            phase,
            EmailReservationCommandView::SubmitRegistrationProfile { email, account_id, token_digest, profile: submitted },
        ) is Ok,
    ensures
        reservation::decide(
            reservation::evolve(
                phase,
                reservation::decide(
                    phase,
                    EmailReservationCommandView::SubmitRegistrationProfile {
                        email,
                        account_id,
                        token_digest,
                        profile: submitted,
                    },
                )->Ok_0,
            ),
            EmailReservationCommandView::RecordAccountCreated {
                email: completion_email,
                account_id,
                profile: normalized_profile(submitted),
                created_at,
            },
        ) is Ok,
{
}

/// The token handed out on confirmation is accepted by the profile submission that follows:
/// the reservation stores the digest of exactly that token.
pub proof fn lemma_confirmed_token_is_accepted(
    phase: ReservationPhaseView,
    email: Seq<char>,
    account_id: UserAccountId,
    code: u32,
    token: Seq<char>,
    profile: RegistrationProfileView,
)
    requires
        reservation::decide(
            phase,
            EmailReservationCommandView::VerifyEmail {
                email,
                account_id,
                code,
                token_digest: token_digest_spec(token),
            },
        ) is Ok,
    ensures
        ({
            let verified = reservation::evolve(
                phase,
                reservation::decide(
                    phase,
                    EmailReservationCommandView::VerifyEmail {
                        email,
                        account_id,
                        code,
                        token_digest: token_digest_spec(token),
                    },
                )->Ok_0,
            );
            let submitted = reservation::decide(
                verified,
                EmailReservationCommandView::SubmitRegistrationProfile {
                    email,
                    account_id,
                    token_digest: token_digest_spec(token),
                    profile,
                },
            );
            &&& verified == (ReservationPhaseView::AwaitingProfile {
                account_id,
                token_digest: token_digest_spec(token),
            })
            &&& submitted != Err::<crate::domain::email_reservation::events::EmailReservationEventView, EmailReservationError>(
                EmailReservationError::InvalidAccountCreationToken,
            )
            &&& submitted != Err::<crate::domain::email_reservation::events::EmailReservationEventView, EmailReservationError>(
                EmailReservationError::NotCurrentAccountId,
            )
        }),
{
}

/// A create-account task succeeds exactly when the account then exists with the task's data:
/// the gateway created it, or it had been created before with the same data. A concurrent change
/// or an unavailable gateway is retried, and every other refusal fails the task for good.
pub proof fn lemma_create_account_outcomes(executed: Result<(), CommandGatewayError<UserAccountError>>)
    ensures
        create_account_result(executed) is Ok <==> (executed is Ok || executed == Err::<
            (),
            CommandGatewayError<UserAccountError>,
        >(CommandGatewayError::Domain(UserAccountError::AlreadyCreated))),
        create_account_result(executed) == Err::<(), ContinuationError>(ContinuationError::Retry) <==> (executed
            == Err::<(), CommandGatewayError<UserAccountError>>(CommandGatewayError::Conflict) || executed == Err::<
            (),
            CommandGatewayError<UserAccountError>,
        >(CommandGatewayError::Unavailable)),
        executed matches Err(CommandGatewayError::Domain(error)) && error != UserAccountError::AlreadyCreated
            ==> create_account_result(executed) == Err::<(), ContinuationError>(ContinuationError::Permanent),
{
}

/// A record-account-created task succeeds exactly when the reservation then records the
/// creation with the task's data: the gateway recorded it, or it had been recorded before with
/// the same data. A concurrent change or an unavailable gateway is retried, and every other
/// refusal fails the task for good.
pub proof fn lemma_record_account_created_outcomes(executed: Result<(), CommandGatewayError<EmailReservationError>>)
    ensures
        record_account_created_result(executed) is Ok <==> (executed is Ok || executed == Err::<
            (),
            CommandGatewayError<EmailReservationError>,
        >(CommandGatewayError::Domain(EmailReservationError::AccountCreationAlreadyCompleted))),
        record_account_created_result(executed) == Err::<(), ContinuationError>(ContinuationError::Retry) <==> (
        executed == Err::<(), CommandGatewayError<EmailReservationError>>(CommandGatewayError::Conflict)
            || executed == Err::<(), CommandGatewayError<EmailReservationError>>(CommandGatewayError::Unavailable)),
        executed matches Err(CommandGatewayError::Domain(error)) && error
            != EmailReservationError::AccountCreationAlreadyCompleted ==> record_account_created_result(executed)
            == Err::<(), ContinuationError>(ContinuationError::Permanent),
{
}

} // verus!
