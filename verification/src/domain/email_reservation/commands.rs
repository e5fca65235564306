use vstd::prelude::*;
use crate::domain::calendar::Timestamp;
use crate::domain::email::Email;
use crate::domain::email_reservation::{RegistrationProfile, RegistrationProfileView};
use crate::domain::user_account_id::UserAccountId;

verus! {

/// The requests the email reservation aggregate decides on.
#[derive(Clone, Debug, PartialEq, Eq)]
pub enum EmailReservationCommand {
    ReserveEmail { email: Email, account_id: UserAccountId, verification_code: u32 },
    RequestVerificationCode { email: Email, account_id: UserAccountId, verification_code: u32 },
    VerifyEmail { email: Email, account_id: UserAccountId, code: u32, token_digest: String },
    SubmitRegistrationProfile {
        email: Email,
        account_id: UserAccountId,
        token_digest: String,
        profile: RegistrationProfile,
    },
    RecordAccountCreated {
        email: Email,
        account_id: UserAccountId,
        profile: RegistrationProfile,
        created_at: Timestamp,
    },
}

pub enum EmailReservationCommandView {
    ReserveEmail { email: Seq<char>, account_id: UserAccountId, verification_code: u32 },
    RequestVerificationCode { email: Seq<char>, account_id: UserAccountId, verification_code: u32 },
    VerifyEmail { email: Seq<char>, account_id: UserAccountId, code: u32, token_digest: Seq<char> },
    SubmitRegistrationProfile {
        email: Seq<char>,
        account_id: UserAccountId,
        token_digest: Seq<char>,
        profile: RegistrationProfileView,
    },
    RecordAccountCreated {
        email: Seq<char>,
        account_id: UserAccountId,
        profile: RegistrationProfileView,
        created_at: Timestamp,
    },
}

impl View for EmailReservationCommand {
    type V = EmailReservationCommandView;

    open spec fn view(&self) -> EmailReservationCommandView {
        match self {
            EmailReservationCommand::ReserveEmail { email, account_id, verification_code } =>
                EmailReservationCommandView::ReserveEmail {
                    email: email@,
                    account_id: *account_id,
                    verification_code: *verification_code,
                },
            EmailReservationCommand::RequestVerificationCode {
                email,
                account_id,
                verification_code,
            } => EmailReservationCommandView::RequestVerificationCode {
                email: email@,
                account_id: *account_id,
                verification_code: *verification_code,
            },
            EmailReservationCommand::VerifyEmail { email, account_id, code, token_digest } =>
                EmailReservationCommandView::VerifyEmail {
                    email: email@,
                    account_id: *account_id,
                    code: *code,
                    token_digest: token_digest@,
                },
            EmailReservationCommand::SubmitRegistrationProfile {
                email,
                account_id,
                token_digest,
                profile,
            } => EmailReservationCommandView::SubmitRegistrationProfile {
                email: email@,
                account_id: *account_id,
                token_digest: token_digest@,
                profile: profile@,
            },
            EmailReservationCommand::RecordAccountCreated {
                email,
                account_id,
                profile,
                created_at,
            } => EmailReservationCommandView::RecordAccountCreated {
                email: email@,
                account_id: *account_id,
                profile: profile@,
                created_at: *created_at,
            },
        }
    }
}

impl EmailReservationCommand {
    /// The reserved address that the command targets; it identifies the aggregate instance.
    pub fn email(&self) -> (email: &Email)
        ensures
            email@ == command_email(self@),
    {
        match self {
            EmailReservationCommand::ReserveEmail { email, .. } => email,
            EmailReservationCommand::RequestVerificationCode { email, .. } => email,
            EmailReservationCommand::VerifyEmail { email, .. } => email,
            EmailReservationCommand::SubmitRegistrationProfile { email, .. } => email,
            EmailReservationCommand::RecordAccountCreated { email, .. } => email,
        }
    }
}

pub open spec fn command_email(command: EmailReservationCommandView) -> Seq<char> {
    match command {
        EmailReservationCommandView::ReserveEmail { email, .. } => email,
        EmailReservationCommandView::RequestVerificationCode { email, .. } => email,
        EmailReservationCommandView::VerifyEmail { email, .. } => email,
        EmailReservationCommandView::SubmitRegistrationProfile { email, .. } => email,
        EmailReservationCommandView::RecordAccountCreated { email, .. } => email,
    }
}

} // verus!
