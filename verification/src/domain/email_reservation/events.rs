use vstd::prelude::*;
use crate::domain::calendar::Timestamp;
use crate::domain::email::Email;
use crate::domain::email_reservation::{RegistrationProfile, RegistrationProfileView};
use crate::domain::user_account_id::UserAccountId;

verus! {

/// The facts the email reservation aggregate records.
#[derive(Clone, Debug, PartialEq, Eq)]
pub enum EmailReservationEvent {
    EmailReserved { email: Email, account_id: UserAccountId, verification_code: u32 },
    VerificationCodeRequested { email: Email, account_id: UserAccountId, verification_code: u32 },
    VerificationRestarted { email: Email, account_id: UserAccountId, verification_code: u32 },
    EmailVerified { email: Email, account_id: UserAccountId, token_digest: String },
    RegistrationProfileAccepted {
        email: Email,
        account_id: UserAccountId,
        consumed_token_digest: String,
        profile: RegistrationProfile,
    },
    AccountCreationCompleted { email: Email, account_id: UserAccountId, created_at: Timestamp },
}

pub enum EmailReservationEventView {
    EmailReserved { email: Seq<char>, account_id: UserAccountId, verification_code: u32 },
    VerificationCodeRequested { email: Seq<char>, account_id: UserAccountId, verification_code: u32 },
    VerificationRestarted { email: Seq<char>, account_id: UserAccountId, verification_code: u32 },
    EmailVerified { email: Seq<char>, account_id: UserAccountId, token_digest: Seq<char> },
    RegistrationProfileAccepted {
        email: Seq<char>,
        account_id: UserAccountId,
        consumed_token_digest: Seq<char>,
        profile: RegistrationProfileView,
    },
    AccountCreationCompleted { email: Seq<char>, account_id: UserAccountId, created_at: Timestamp },
}

impl View for EmailReservationEvent {
    type V = EmailReservationEventView;

    open spec fn view(&self) -> EmailReservationEventView {
        match self {
            EmailReservationEvent::EmailReserved { email, account_id, verification_code } =>
                EmailReservationEventView::EmailReserved {
                    email: email@,
                    account_id: *account_id,
                    verification_code: *verification_code,
                },
            EmailReservationEvent::VerificationCodeRequested {
                email,
                account_id,
                verification_code,
            } => EmailReservationEventView::VerificationCodeRequested {
                email: email@,
                account_id: *account_id,
                verification_code: *verification_code,
            },
            EmailReservationEvent::VerificationRestarted { email, account_id, verification_code } =>
                EmailReservationEventView::VerificationRestarted {
                    email: email@,
                    account_id: *account_id,
                    verification_code: *verification_code,
                },
            EmailReservationEvent::EmailVerified { email, account_id, token_digest } =>
                EmailReservationEventView::EmailVerified {
                    email: email@,
                    account_id: *account_id,
                    token_digest: token_digest@,
                },
            EmailReservationEvent::RegistrationProfileAccepted {
                email,
                account_id,
                consumed_token_digest,
                profile,
            } => EmailReservationEventView::RegistrationProfileAccepted {
                email: email@,
                account_id: *account_id,
                consumed_token_digest: consumed_token_digest@,
                profile: profile@,
            },
            EmailReservationEvent::AccountCreationCompleted { email, account_id, created_at } =>
                EmailReservationEventView::AccountCreationCompleted {
                    email: email@,
                    account_id: *account_id,
                    created_at: *created_at,
                },
        }
    }
}

/// The stored name of each kind of event.
pub open spec fn event_type_name(event: EmailReservationEventView) -> Seq<char> {
    match event {
        EmailReservationEventView::EmailReserved { .. } => "email_reserved"@,
        EmailReservationEventView::VerificationCodeRequested { .. } => "verification_code_requested"@,
        EmailReservationEventView::VerificationRestarted { .. } => "verification_restarted"@,
        EmailReservationEventView::EmailVerified { .. } => "email_verified"@,
        EmailReservationEventView::RegistrationProfileAccepted { .. } => "registration_profile_accepted"@,
        EmailReservationEventView::AccountCreationCompleted { .. } => "account_creation_completed"@,
    }
}

impl EmailReservationEvent {
    pub fn event_type(&self) -> (name: &'static str)
        ensures
            name@ == event_type_name(self@),
    {
        match self {
            EmailReservationEvent::EmailReserved { .. } => "email_reserved",
            EmailReservationEvent::VerificationCodeRequested { .. } => "verification_code_requested",
            EmailReservationEvent::VerificationRestarted { .. } => "verification_restarted",
            EmailReservationEvent::EmailVerified { .. } => "email_verified",
            EmailReservationEvent::RegistrationProfileAccepted { .. } => "registration_profile_accepted",
            EmailReservationEvent::AccountCreationCompleted { .. } => "account_creation_completed",
        }
    }

    /// Every event shape is at its first version.
    pub fn event_version(&self) -> (version: &'static str)
        ensures
            version@ == "1"@,
    {
        "1"
    }
}

} // verus!
