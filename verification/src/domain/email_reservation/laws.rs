//! Properties of the email reservation aggregate that hold across commands and events.
use vstd::prelude::*;
use crate::domain::email_reservation::aggregate::{
    can_apply, decide, evolve, is_seven_digit_code, profile_error,
};
use crate::domain::email_reservation::commands::EmailReservationCommandView;
use crate::domain::email_reservation::errors::EmailReservationError;
use crate::domain::email_reservation::events::EmailReservationEventView;
use crate::domain::email_reservation::{
    current_account_id, normalized_profile, RegistrationProfileView, ReservationPhaseView,
};
use crate::domain::user_account_id::UserAccountId;
use crate::text::trim_spec;

verus! {

/// Every event the aggregate decides can be recorded in the state it was decided in.
pub proof fn lemma_decided_events_apply(phase: ReservationPhaseView, command: EmailReservationCommandView)
    requires
        decide(phase, command) is Ok,
    ensures
        can_apply(phase, decide(phase, command)->Ok_0),
{
}

/// Once an address is reserved it stays reserved: no event returns it to `Absent`.
pub proof fn lemma_reservation_is_never_released(
    phase: ReservationPhaseView,
    event: crate::domain::email_reservation::events::EmailReservationEventView,
)
    requires
        can_apply(phase, event),
    ensures
        !(evolve(phase, event) is Absent),
{
}

/// A reserved address cannot be reserved again, whatever the new account ID or code.
pub proof fn lemma_reserve_only_absent(phase: ReservationPhaseView, command: EmailReservationCommandView)
    requires
        command is ReserveEmail,
        !(phase is Absent),
    ensures
        decide(phase, command) == Err::<
            crate::domain::email_reservation::events::EmailReservationEventView,
            EmailReservationError,
        >(EmailReservationError::AlreadyReserved),
{
}

/// Once a profile was accepted, its token is consumed: no further profile is ever accepted.
pub proof fn lemma_consumed_token_accepts_no_profile(
    phase: ReservationPhaseView,
    command: EmailReservationCommandView,
)
    requires
        command is SubmitRegistrationProfile,
        phase is CreatingAccount || phase is AccountCreated,
    ensures
        decide(phase, command) is Err,
{
}

/// Account creation started: a new verification code is never issued again.
pub proof fn lemma_creation_blocks_code_reissue(
    phase: ReservationPhaseView,
    command: EmailReservationCommandView,
)
    requires
        command is RequestVerificationCode,
        phase is CreatingAccount || phase is AccountCreated,
    ensures
        decide(phase, command) is Err,
{
}

/// Recording the same account creation twice: the second time is refused as already completed.
pub proof fn lemma_completion_is_idempotent(phase: ReservationPhaseView, command: EmailReservationCommandView)
    requires
        command is RecordAccountCreated,
        decide(phase, command) is Ok,
    ensures
        decide(evolve(phase, decide(phase, command)->Ok_0), command) == Err::<
            crate::domain::email_reservation::events::EmailReservationEventView,
            EmailReservationError,
        >(EmailReservationError::AccountCreationAlreadyCompleted),
{
}

/// A verification succeeds only with the current account ID and its current code.
pub proof fn lemma_verification_uses_current_pair(
    phase: ReservationPhaseView,
    command: EmailReservationCommandView,
)
    requires
        command matches EmailReservationCommandView::VerifyEmail { .. },
        decide(phase, command) is Ok,
    ensures
        phase == (ReservationPhaseView::AwaitingCode {
            account_id: command->VerifyEmail_account_id,
            verification_code: command->code,
        }),
{
}

/// A new code is only issued under a new account ID, which becomes the current one.
pub proof fn lemma_reissue_changes_account_id(
    phase: ReservationPhaseView,
    command: EmailReservationCommandView,
)
    requires
        command is RequestVerificationCode,
        decide(phase, command) is Ok,
    ensures
        current_account_id(phase) is Some,
        current_account_id(phase)->0 != command->RequestVerificationCode_account_id,
        current_account_id(evolve(phase, decide(phase, command)->Ok_0)) == Some(
            command->RequestVerificationCode_account_id,
        ),
{
}

/// Verification, profile acceptance and completion keep the account ID of the reservation.
pub proof fn lemma_progress_keeps_account_id(
    phase: ReservationPhaseView,
    command: EmailReservationCommandView,
)
    requires
        command is VerifyEmail || command is SubmitRegistrationProfile || command is RecordAccountCreated,
        decide(phase, command) is Ok,
    ensures
        current_account_id(evolve(phase, decide(phase, command)->Ok_0)) == current_account_id(phase),
{
}

/// The invariant of every state the aggregate reaches: a pending code has seven
/// digits, and an accepted profile (kept through completion) passed the profile checks.
pub open spec fn phase_invariant(phase: ReservationPhaseView) -> bool {
    match phase {
        ReservationPhaseView::AwaitingCode { verification_code, .. } => is_seven_digit_code(verification_code),
        ReservationPhaseView::CreatingAccount { accepted_profile, .. } => profile_error(accepted_profile) is None,
        ReservationPhaseView::AccountCreated { accepted_profile, .. } => profile_error(accepted_profile) is None,
        _ => true,
    }
}

/// The state after deciding each command in turn and recording what was accepted;
/// refused commands leave the state as it was.
pub open spec fn replay(phase: ReservationPhaseView, commands: Seq<EmailReservationCommandView>) -> ReservationPhaseView
    decreases commands.len(),
{
    if commands.len() == 0 {
        phase
    } else {
        let previous = replay(phase, commands.drop_last());
        match decide(previous, commands.last()) {
            Ok(event) => evolve(previous, event),
            Err(_) => previous,
        }
    }
}

/// Deciding and recording one command keeps the invariant.
pub proof fn lemma_step_keeps_invariant(phase: ReservationPhaseView, command: EmailReservationCommandView)
    requires
        phase_invariant(phase),
        decide(phase, command) is Ok,
    ensures
        phase_invariant(evolve(phase, decide(phase, command)->Ok_0)),
{
}

/// Every state reached from an unreserved address by any sequence of commands satisfies the invariant.
pub proof fn lemma_reachable_states_are_valid(commands: Seq<EmailReservationCommandView>)
    ensures
        phase_invariant(replay(ReservationPhaseView::Absent, commands)),
    decreases commands.len(),
{
    if commands.len() > 0 {
        lemma_reachable_states_are_valid(commands.drop_last());
        let previous = replay(ReservationPhaseView::Absent, commands.drop_last());
        if decide(previous, commands.last()) is Ok {
            lemma_step_keeps_invariant(previous, commands.last());
        }
    }
}

/// The account ID and code an event issues, for the events that issue a verification code.
pub open spec fn issued_code(event: EmailReservationEventView) -> Option<(UserAccountId, u32)> {
    match event {
        EmailReservationEventView::EmailReserved { account_id, verification_code, .. } => Some(
            (account_id, verification_code),
        ),
        EmailReservationEventView::VerificationCodeRequested { account_id, verification_code, .. } => Some(
            (account_id, verification_code),
        ),
        EmailReservationEventView::VerificationRestarted { account_id, verification_code, .. } => Some(
            (account_id, verification_code),
        ),
        _ => None,
    }
}

/// The code last issued is the one that verifies: after a reservation, a new code or a restarted
/// verification, the address is verified with that event's account ID and code, and with no
/// other code; whatever code was pending before is superseded.
pub proof fn lemma_issued_code_verifies(
    phase: ReservationPhaseView,
    event: EmailReservationEventView,
    email: Seq<char>,
    code: u32,
    token_digest: Seq<char>,
)
    requires
        issued_code(event) is Some,
    ensures
        ({
            let (account_id, issued) = issued_code(event)->0;
            let after = evolve(phase, event);
            &&& current_account_id(after) == Some(account_id)
            &&& decide(after, EmailReservationCommandView::VerifyEmail { email, account_id, code, token_digest }) == if code
                == issued {
                Ok::<EmailReservationEventView, EmailReservationError>(
                    EmailReservationEventView::EmailVerified { email, account_id, token_digest },
                )
            } else {
                Err::<EmailReservationEventView, EmailReservationError>(EmailReservationError::InvalidVerificationCode)
            }
        }),
{
}

/// A profile submitted with the current account ID and token, and with both names non-empty
/// once trimmed, is accepted exactly when the birth date is not after the validation date in
/// calendar order: a birth in an earlier year is accepted whatever its month and day, one in a
/// later year is refused, and a birth on the validation day is accepted. The accepted profile is
/// the submitted one with its names trimmed.
pub proof fn lemma_profile_birth_dates_are_chronological(
    email: Seq<char>,
    account_id: UserAccountId,
    token_digest: Seq<char>,
    profile: RegistrationProfileView,
)
    requires
        trim_spec(profile.first_name).len() > 0,
        trim_spec(profile.last_name).len() > 0,
    ensures
        ({
            let phase = ReservationPhaseView::AwaitingProfile { account_id, token_digest };
            let result = decide(
                phase,
                EmailReservationCommandView::SubmitRegistrationProfile { email, account_id, token_digest, profile },
            );
            let born = profile.date_of_birth;
            let valid = profile.validation_date;
            &&& result is Ok <==> !born.spec_is_after(valid)
            &&& result is Err ==> result == Err::<EmailReservationEventView, EmailReservationError>(
                EmailReservationError::FutureDateOfBirth,
            )
            &&& born.spec_year() < valid.spec_year() ==> result is Ok
            &&& born.spec_year() > valid.spec_year() ==> result is Err
            &&& born == valid ==> result is Ok
            &&& result is Ok ==> result == Ok::<EmailReservationEventView, EmailReservationError>(
                EmailReservationEventView::RegistrationProfileAccepted {
                    email,
                    account_id,
                    consumed_token_digest: token_digest,
                    profile: normalized_profile(profile),
                },
            )
        }),
{
    crate::domain::calendar::lemma_dates_are_ordered_chronologically(
        profile.date_of_birth,
        profile.validation_date,
    );
    crate::domain::calendar::lemma_dates_are_ordered_chronologically(
        profile.validation_date,
        profile.date_of_birth,
    );
}

} // verus!
