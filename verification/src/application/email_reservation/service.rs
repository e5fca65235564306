//! What the email reservation service answers.
use vstd::prelude::*;
use crate::domain::email::Email;
use crate::domain::email_reservation::errors::EmailReservationError;
use crate::domain::user_account_id::UserAccountId;

verus! {

#[derive(Clone, Copy, Debug, PartialEq, Eq, Structural)]
pub enum EmailReservationServiceError {
    AlreadyReserved,
    NotReserved,
    NotCurrentAccountId,
    AlreadyVerified,
    AccountCreationStarted,
    InvalidVerificationCode,
    Conflict,
    Unavailable,
    UnexpectedDomainRejection(EmailReservationError),
}

#[derive(Clone, Debug, PartialEq, Eq)]
pub struct ReservedEmail {
    pub email: Email,
    pub account_id: UserAccountId,
}

#[derive(Clone, Debug, PartialEq, Eq)]
pub struct VerifiedEmail {
    pub email: Email,
    pub account_id: UserAccountId,
    pub account_creation_token: String,
}

/// Source of the fresh values a registration needs.
pub trait RegistrationMaterialGenerator: Send + Sync {
    fn account_id(&self) -> UserAccountId;

    fn verification_code(&self) -> u32;

    fn account_creation_token(&self) -> String;
}

} // verus!
