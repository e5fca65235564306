use vstd::prelude::*;

verus! {

/// Why the email reservation aggregate refused a command.
#[derive(Clone, Copy, Debug, PartialEq, Eq, Structural)]
pub enum EmailReservationError {
    AlreadyReserved,
    NotReserved,
    NotCurrentAccountId,
    AlreadyVerified,
    InvalidVerificationCode,
    InvalidVerificationCodeFormat,
    AccountIdUnchanged,
    NotAwaitingProfile,
    InvalidAccountCreationToken,
    ProfileAlreadySubmitted,
    EmptyFirstName,
    EmptyLastName,
    FutureDateOfBirth,
    AccountCreationStarted,
    AccountCreationMismatch,
    AccountCreationAlreadyCompleted,
}

/// The human-readable description of each refusal.
pub open spec fn error_message(error: EmailReservationError) -> Seq<char> {
    match error {
        EmailReservationError::AlreadyReserved => "email is already reserved"@,
        EmailReservationError::NotReserved => "email is not reserved"@,
        EmailReservationError::NotCurrentAccountId => "account ID is no longer current for this email"@,
        EmailReservationError::AlreadyVerified => "email is already verified"@,
        EmailReservationError::InvalidVerificationCode => "verification code does not match"@,
        EmailReservationError::InvalidVerificationCodeFormat => "verification code must have seven decimal digits"@,
        EmailReservationError::AccountIdUnchanged => "new account ID must differ from the current one"@,
        EmailReservationError::NotAwaitingProfile => "profile submission requires a verified email"@,
        EmailReservationError::InvalidAccountCreationToken => "account creation token does not match"@,
        EmailReservationError::ProfileAlreadySubmitted => "profile was already submitted and the account creation token was consumed"@,
        EmailReservationError::EmptyFirstName => "first name must not be empty"@,
        EmailReservationError::EmptyLastName => "last name must not be empty"@,
        EmailReservationError::FutureDateOfBirth => "date of birth is after the validation date"@,
        EmailReservationError::AccountCreationStarted => "account creation has already started"@,
        EmailReservationError::AccountCreationMismatch => "account creation data does not match the accepted profile"@,
        EmailReservationError::AccountCreationAlreadyCompleted => "account creation was already completed with the same data"@,
    }
}

impl EmailReservationError {
    /// The human-readable description of the refusal.
    pub fn message(&self) -> (text: &'static str)
        ensures
            text@ == error_message(*self),
    {
        match self {
            EmailReservationError::AlreadyReserved => "email is already reserved",
            EmailReservationError::NotReserved => "email is not reserved",
            EmailReservationError::NotCurrentAccountId => "account ID is no longer current for this email",
            EmailReservationError::AlreadyVerified => "email is already verified",
            EmailReservationError::InvalidVerificationCode => "verification code does not match",
            EmailReservationError::InvalidVerificationCodeFormat => "verification code must have seven decimal digits",
            EmailReservationError::AccountIdUnchanged => "new account ID must differ from the current one",
            EmailReservationError::NotAwaitingProfile => "profile submission requires a verified email",
            EmailReservationError::InvalidAccountCreationToken => "account creation token does not match",
            EmailReservationError::ProfileAlreadySubmitted => "profile was already submitted and the account creation token was consumed",
            EmailReservationError::EmptyFirstName => "first name must not be empty",
            EmailReservationError::EmptyLastName => "last name must not be empty",
            EmailReservationError::FutureDateOfBirth => "date of birth is after the validation date",
            EmailReservationError::AccountCreationStarted => "account creation has already started",
            EmailReservationError::AccountCreationMismatch => "account creation data does not match the accepted profile",
            EmailReservationError::AccountCreationAlreadyCompleted => "account creation was already completed with the same data",
        }
    }
}

} // verus!
