//! What the email reservation aggregate decides for each command, and how
//! each recorded event moves its state.
use vstd::prelude::*;
use crate::domain::calendar::Timestamp;
use crate::domain::email::Email;
use crate::domain::email_reservation::commands::{EmailReservationCommand, EmailReservationCommandView};
use crate::domain::email_reservation::errors::EmailReservationError;
use crate::domain::email_reservation::events::{EmailReservationEvent, EmailReservationEventView};
use crate::domain::email_reservation::{
    current_account_id, normalized_profile, EmailReservation, RegistrationProfile,
    RegistrationProfileView, ReservationPhase, ReservationPhaseView,
};
use crate::domain::user_account_id::UserAccountId;

verus! {

/// Verification codes have exactly seven decimal digits.
pub open spec fn is_seven_digit_code(code: u32) -> bool {
    1_000_000 <= code <= 9_999_999
}

pub fn ensure_code_format(code: u32) -> (checked: Result<(), EmailReservationError>)
    ensures
        checked is Ok <==> is_seven_digit_code(code),
        checked matches Err(e) ==> e == EmailReservationError::InvalidVerificationCodeFormat,
{
    if 1_000_000 <= code && code <= 9_999_999 {
        Ok(())
    } else {
        Err(EmailReservationError::InvalidVerificationCodeFormat)
    }
}

pub open spec fn decide_reserve(
    phase: ReservationPhaseView,
    email: Seq<char>,
    account_id: UserAccountId,
    verification_code: u32,
) -> Result<EmailReservationEventView, EmailReservationError> {
    if !(phase is Absent) {
        Err(EmailReservationError::AlreadyReserved)
    } else if !is_seven_digit_code(verification_code) {
        Err(EmailReservationError::InvalidVerificationCodeFormat)
    } else {
        Ok(EmailReservationEventView::EmailReserved { email, account_id, verification_code })
    }
}

pub open spec fn decide_request_code(
    phase: ReservationPhaseView,
    email: Seq<char>,
    account_id: UserAccountId,
    verification_code: u32,
) -> Result<EmailReservationEventView, EmailReservationError> {
    match current_account_id(phase) {
        None => Err(EmailReservationError::NotReserved),
        Some(current) => if current == account_id {
            Err(EmailReservationError::AccountIdUnchanged)
        } else if !is_seven_digit_code(verification_code) {
            Err(EmailReservationError::InvalidVerificationCodeFormat)
        } else {
            match phase {
                ReservationPhaseView::AwaitingCode { .. } => Ok(
                    EmailReservationEventView::VerificationCodeRequested {
                        email,
                        account_id,
                        verification_code,
                    },
                ),
                ReservationPhaseView::AwaitingProfile { .. } => Ok(
                    EmailReservationEventView::VerificationRestarted {
                        email,
                        account_id,
                        verification_code,
                    },
                ),
                _ => Err(EmailReservationError::AccountCreationStarted),
            }
        },
    }
}

pub open spec fn decide_verify(
    phase: ReservationPhaseView,
    email: Seq<char>,
    account_id: UserAccountId,
    code: u32,
    token_digest: Seq<char>,
) -> Result<EmailReservationEventView, EmailReservationError> {
    match phase {
        ReservationPhaseView::Absent => Err(EmailReservationError::NotReserved),
        ReservationPhaseView::AwaitingCode { account_id: current, verification_code } => {
            if current != account_id {
                Err(EmailReservationError::NotCurrentAccountId)
            } else if verification_code != code {
                Err(EmailReservationError::InvalidVerificationCode)
            } else {
                Ok(EmailReservationEventView::EmailVerified { email, account_id, token_digest })
            }
        },
        ReservationPhaseView::AwaitingProfile { account_id: current, .. } => {
            if current == account_id {
                Err(EmailReservationError::AlreadyVerified)
            } else {
                Err(EmailReservationError::NotCurrentAccountId)
            }
        },
        _ => Err(EmailReservationError::AccountCreationStarted),
    }
}

/// The checks an accepted profile must pass, in the order they are made.
pub open spec fn profile_error(profile: RegistrationProfileView) -> Option<EmailReservationError> {
    if profile.first_name.len() == 0 {
        Some(EmailReservationError::EmptyFirstName)
    } else if profile.last_name.len() == 0 {
        Some(EmailReservationError::EmptyLastName)
    } else if profile.date_of_birth.spec_is_after(profile.validation_date) {
        Some(EmailReservationError::FutureDateOfBirth)
    } else {
        None
    }
}

pub open spec fn decide_submit_profile(
    phase: ReservationPhaseView,
    email: Seq<char>,
    account_id: UserAccountId,
    token_digest: Seq<char>,
    submitted: RegistrationProfileView,
) -> Result<EmailReservationEventView, EmailReservationError> {
    let profile = normalized_profile(submitted);
    match phase {
        ReservationPhaseView::Absent => Err(EmailReservationError::NotReserved),
        ReservationPhaseView::AwaitingCode { account_id: current, .. } => {
            if current == account_id {
                Err(EmailReservationError::NotAwaitingProfile)
            } else {
                Err(EmailReservationError::NotCurrentAccountId)
            }
        },
        ReservationPhaseView::AwaitingProfile { account_id: current, token_digest: expected } => {
            if current != account_id {
                Err(EmailReservationError::NotCurrentAccountId)
            } else if expected != token_digest {
                Err(EmailReservationError::InvalidAccountCreationToken)
            } else {
                match profile_error(profile) {
                    Some(error) => Err(error),
                    None => Ok(
                        EmailReservationEventView::RegistrationProfileAccepted {
                            email,
                            account_id,
                            consumed_token_digest: token_digest,
                            profile,
                        },
                    ),
                }
            }
        },
        ReservationPhaseView::CreatingAccount { account_id: current, consumed_token_digest, .. } => {
            if current != account_id {
                Err(EmailReservationError::NotCurrentAccountId)
            } else if consumed_token_digest != token_digest {
                Err(EmailReservationError::InvalidAccountCreationToken)
            } else {
                Err(EmailReservationError::ProfileAlreadySubmitted)
            }
        },
        ReservationPhaseView::AccountCreated { account_id: current, consumed_token_digest, .. } => {
            if current != account_id {
                Err(EmailReservationError::NotCurrentAccountId)
            } else if consumed_token_digest != token_digest {
                Err(EmailReservationError::InvalidAccountCreationToken)
            } else {
                Err(EmailReservationError::ProfileAlreadySubmitted)
            }
        },
    }
}

pub open spec fn decide_record_account_created(
    phase: ReservationPhaseView,
    email: Seq<char>,
    account_id: UserAccountId,
    profile: RegistrationProfileView,
    created_at: Timestamp,
) -> Result<EmailReservationEventView, EmailReservationError> {
    match phase {
        ReservationPhaseView::Absent => Err(EmailReservationError::NotReserved),
        ReservationPhaseView::AwaitingCode { .. } => Err(EmailReservationError::NotAwaitingProfile),
        ReservationPhaseView::AwaitingProfile { .. } => Err(EmailReservationError::NotAwaitingProfile),
        ReservationPhaseView::CreatingAccount { account_id: current, accepted_profile, .. } => {
            if current == account_id && accepted_profile == profile {
                Ok(EmailReservationEventView::AccountCreationCompleted { email, account_id, created_at })
            } else {
                Err(EmailReservationError::AccountCreationMismatch)
            }
        },
        ReservationPhaseView::AccountCreated {
            account_id: current,
            accepted_profile,
            created_at: original,
            ..
        } => {
            if current == account_id && accepted_profile == profile && original == created_at {
                Err(EmailReservationError::AccountCreationAlreadyCompleted)
            } else {
                Err(EmailReservationError::AccountCreationMismatch)
            }
        },
    }
}

/// The event that a command records in a given state, or why it is refused.
pub open spec fn decide(
    phase: ReservationPhaseView,
    command: EmailReservationCommandView,
) -> Result<EmailReservationEventView, EmailReservationError> {
    match command {
        EmailReservationCommandView::ReserveEmail { email, account_id, verification_code } =>
            decide_reserve(phase, email, account_id, verification_code),
        EmailReservationCommandView::RequestVerificationCode { email, account_id, verification_code } =>
            decide_request_code(phase, email, account_id, verification_code),
        EmailReservationCommandView::VerifyEmail { email, account_id, code, token_digest } =>
            decide_verify(phase, email, account_id, code, token_digest),
        EmailReservationCommandView::SubmitRegistrationProfile { email, account_id, token_digest, profile } =>
            decide_submit_profile(phase, email, account_id, token_digest, profile),
        EmailReservationCommandView::RecordAccountCreated { email, account_id, profile, created_at } =>
            decide_record_account_created(phase, email, account_id, profile, created_at),
    }
}

/// A completion can only be recorded over an accepted profile; every other event applies anywhere.
pub open spec fn can_apply(phase: ReservationPhaseView, event: EmailReservationEventView) -> bool {
    event is AccountCreationCompleted ==> phase is CreatingAccount
}

/// The state after an event.
pub open spec fn evolve(phase: ReservationPhaseView, event: EmailReservationEventView) -> ReservationPhaseView {
    match event {
        EmailReservationEventView::EmailReserved { account_id, verification_code, .. } =>
            ReservationPhaseView::AwaitingCode { account_id, verification_code },
        EmailReservationEventView::VerificationCodeRequested { account_id, verification_code, .. } =>
            ReservationPhaseView::AwaitingCode { account_id, verification_code },
        EmailReservationEventView::VerificationRestarted { account_id, verification_code, .. } =>
            ReservationPhaseView::AwaitingCode { account_id, verification_code },
        EmailReservationEventView::EmailVerified { account_id, token_digest, .. } =>
            ReservationPhaseView::AwaitingProfile { account_id, token_digest },
        EmailReservationEventView::RegistrationProfileAccepted {
            account_id,
            consumed_token_digest,
            profile,
            ..
        } => ReservationPhaseView::CreatingAccount {
            account_id,
            consumed_token_digest,
            accepted_profile: profile,
        },
        EmailReservationEventView::AccountCreationCompleted { account_id, created_at, .. } =>
            match phase {
                ReservationPhaseView::CreatingAccount { consumed_token_digest, accepted_profile, .. } =>
                    ReservationPhaseView::AccountCreated {
                        account_id,
                        consumed_token_digest,
                        accepted_profile,
                        created_at,
                    },
                _ => phase,
            },
    }
}

/// The view of a decision's outcome.
pub open spec fn decision_view(
    result: Result<EmailReservationEvent, EmailReservationError>,
) -> Result<EmailReservationEventView, EmailReservationError> {
    match result {
        Ok(event) => Ok(event@),
        Err(error) => Err(error),
    }
}

impl EmailReservation {
    /// Decides a command: the one event to record, or the refusal.
    pub fn handle(&self, command: EmailReservationCommand) -> (result: Result<
        EmailReservationEvent,
        EmailReservationError,
    >)
        ensures
            decision_view(result) == decide(self@, command@),
    {
        match command {
            EmailReservationCommand::ReserveEmail { email, account_id, verification_code } =>
                self.handle_reserve(email, account_id, verification_code),
            EmailReservationCommand::RequestVerificationCode {
                email,
                account_id,
                verification_code,
            } => self.handle_request_verification_code(email, account_id, verification_code),
            EmailReservationCommand::VerifyEmail { email, account_id, code, token_digest } =>
                self.handle_verify(email, account_id, code, token_digest),
            EmailReservationCommand::SubmitRegistrationProfile {
                email,
                account_id,
                token_digest,
                profile,
            } => self.handle_submit_profile(email, account_id, token_digest, profile),
            EmailReservationCommand::RecordAccountCreated {
                email,
                account_id,
                profile,
                created_at,
            } => self.handle_record_account_created(email, account_id, profile, created_at),
        }
    }

    fn handle_reserve(&self, email: Email, account_id: UserAccountId, verification_code: u32) -> (result:
        Result<EmailReservationEvent, EmailReservationError>)
        ensures
            decision_view(result) == decide_reserve(self@, email@, account_id, verification_code),
    {
        if self.is_reserved() {
            return Err(EmailReservationError::AlreadyReserved);
        }
        ensure_code_format(verification_code)?;
        Ok(EmailReservationEvent::EmailReserved { email, account_id, verification_code })
    }

    fn handle_request_verification_code(
        &self,
        email: Email,
        account_id: UserAccountId,
        verification_code: u32,
    ) -> (result: Result<EmailReservationEvent, EmailReservationError>)
        ensures
            decision_view(result) == decide_request_code(self@, email@, account_id, verification_code),
    {
        let current = match self.account_id() {
            Some(current) => current,
            None => return Err(EmailReservationError::NotReserved),
        };
        if current == account_id {
            return Err(EmailReservationError::AccountIdUnchanged);
        }
        ensure_code_format(verification_code)?;
        match self.phase() {
            ReservationPhase::AwaitingCode { .. } => Ok(
                EmailReservationEvent::VerificationCodeRequested { email, account_id, verification_code },
            ),
            ReservationPhase::AwaitingProfile { .. } => Ok(
                EmailReservationEvent::VerificationRestarted { email, account_id, verification_code },
            ),
            _ => Err(EmailReservationError::AccountCreationStarted),
        }
    }

    fn handle_verify(
        &self,
        email: Email,
        account_id: UserAccountId,
        code: u32,
        token_digest: String,
    ) -> (result: Result<EmailReservationEvent, EmailReservationError>)
        ensures
            decision_view(result) == decide_verify(self@, email@, account_id, code, token_digest@),
    {
        match self.phase() {
            ReservationPhase::Absent => return Err(EmailReservationError::NotReserved),
            ReservationPhase::AwaitingCode { account_id: current, verification_code } => {
                if *current != account_id {
                    return Err(EmailReservationError::NotCurrentAccountId);
                }
                if *verification_code != code {
                    return Err(EmailReservationError::InvalidVerificationCode);
                }
            },
            ReservationPhase::AwaitingProfile { account_id: current, .. } => {
                return Err(
                    if *current == account_id {
                        EmailReservationError::AlreadyVerified
                    } else {
                        EmailReservationError::NotCurrentAccountId
                    },
                );
            },
            _ => return Err(EmailReservationError::AccountCreationStarted),
        }
        Ok(EmailReservationEvent::EmailVerified { email, account_id, token_digest })
    }

    fn handle_submit_profile(
        &self,
        email: Email,
        account_id: UserAccountId,
        token_digest: String,
        profile: RegistrationProfile,
    ) -> (result: Result<EmailReservationEvent, EmailReservationError>)
        ensures
            decision_view(result) == decide_submit_profile(
                self@,
                email@,
                account_id,
                token_digest@,
                profile@,
            ),
    {
        let profile = RegistrationProfile::new(
            profile.first_name,
            profile.last_name,
            profile.date_of_birth,
            profile.validation_date,
        );
        match self.phase() {
            ReservationPhase::Absent => return Err(EmailReservationError::NotReserved),
            ReservationPhase::AwaitingCode { account_id: current, .. } => {
                return Err(
                    if *current == account_id {
                        EmailReservationError::NotAwaitingProfile
                    } else {
                        EmailReservationError::NotCurrentAccountId
                    },
                );
            },
            ReservationPhase::AwaitingProfile { account_id: current, token_digest: expected } => {
                if *current != account_id {
                    return Err(EmailReservationError::NotCurrentAccountId);
                }
                if *expected != token_digest {
                    return Err(EmailReservationError::InvalidAccountCreationToken);
                }
            },
            ReservationPhase::CreatingAccount { account_id: current, consumed_token_digest, .. } => {
                if *current != account_id {
                    return Err(EmailReservationError::NotCurrentAccountId);
                }
                if *consumed_token_digest != token_digest {
                    return Err(EmailReservationError::InvalidAccountCreationToken);
                }
                return Err(EmailReservationError::ProfileAlreadySubmitted);
            },
            ReservationPhase::AccountCreated { account_id: current, consumed_token_digest, .. } => {
                if *current != account_id {
                    return Err(EmailReservationError::NotCurrentAccountId);
                }
                if *consumed_token_digest != token_digest {
                    return Err(EmailReservationError::InvalidAccountCreationToken);
                }
                return Err(EmailReservationError::ProfileAlreadySubmitted);
            },
        }
        if profile.first_name.as_str().is_empty() {
            return Err(EmailReservationError::EmptyFirstName);
        }
        if profile.last_name.as_str().is_empty() {
            return Err(EmailReservationError::EmptyLastName);
        }
        if profile.date_of_birth.is_after(&profile.validation_date) {
            return Err(EmailReservationError::FutureDateOfBirth);
        }
        Ok(
            EmailReservationEvent::RegistrationProfileAccepted {
                email,
                account_id,
                consumed_token_digest: token_digest,
                profile,
            },
        )
    }

    fn handle_record_account_created(
        &self,
        email: Email,
        account_id: UserAccountId,
        profile: RegistrationProfile,
        created_at: Timestamp,
    ) -> (result: Result<EmailReservationEvent, EmailReservationError>)
        ensures
            decision_view(result) == decide_record_account_created(
                self@,
                email@,
                account_id,
                profile@,
                created_at,
            ),
    {
        match self.phase() {
            ReservationPhase::Absent => Err(EmailReservationError::NotReserved),
            ReservationPhase::AwaitingCode { .. } => Err(EmailReservationError::NotAwaitingProfile),
            ReservationPhase::AwaitingProfile { .. } => Err(EmailReservationError::NotAwaitingProfile),
            ReservationPhase::CreatingAccount { account_id: current, accepted_profile, .. } => {
                if *current == account_id && accepted_profile.same_profile(&profile) {
                    Ok(EmailReservationEvent::AccountCreationCompleted { email, account_id, created_at })
                } else {
                    Err(EmailReservationError::AccountCreationMismatch)
                }
            },
            ReservationPhase::AccountCreated {
                account_id: current,
                accepted_profile,
                created_at: original,
                ..
            } => {
                if *current == account_id && accepted_profile.same_profile(&profile)
                    && original.same_instant(&created_at) {
                    Err(EmailReservationError::AccountCreationAlreadyCompleted)
                } else {
                    Err(EmailReservationError::AccountCreationMismatch)
                }
            },
        }
    }

    /// Records an event in the state. A completion needs an accepted profile to complete.
    pub fn apply(&mut self, event: EmailReservationEvent)
        requires
            can_apply(old(self)@, event@),
        ensures
            final(self)@ == evolve(old(self)@, event@),
    {
        let mut previous = ReservationPhase::Absent;
        std::mem::swap(&mut previous, &mut self.phase);
        self.phase = match event {
            EmailReservationEvent::EmailReserved { account_id, verification_code, .. } =>
                ReservationPhase::AwaitingCode { account_id, verification_code },
            EmailReservationEvent::VerificationCodeRequested { account_id, verification_code, .. } =>
                ReservationPhase::AwaitingCode { account_id, verification_code },
            EmailReservationEvent::VerificationRestarted { account_id, verification_code, .. } =>
                ReservationPhase::AwaitingCode { account_id, verification_code },
            EmailReservationEvent::EmailVerified { account_id, token_digest, .. } =>
                ReservationPhase::AwaitingProfile { account_id, token_digest },
            EmailReservationEvent::RegistrationProfileAccepted {
                account_id,
                consumed_token_digest,
                profile,
                ..
            } => ReservationPhase::CreatingAccount {
                account_id,
                consumed_token_digest,
                accepted_profile: profile,
            },
            EmailReservationEvent::AccountCreationCompleted { account_id, created_at, .. } => {
                match previous {
                    ReservationPhase::CreatingAccount { consumed_token_digest, accepted_profile, .. } =>
                        ReservationPhase::AccountCreated {
                            account_id,
                            consumed_token_digest,
                            accepted_profile,
                            created_at,
                        },
                    other => other,
                }
            },
        };
    }
}

} // verus!
