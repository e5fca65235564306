//! Properties of the user account aggregate across commands and events.
use vstd::prelude::*;
use crate::domain::user_account::aggregate::{decide, evolve};
use crate::domain::user_account::commands::UserAccountCommandView;
use crate::domain::user_account::errors::UserAccountError;
use crate::domain::user_account::events::UserAccountEventView;
use crate::domain::user_account::CreatedAccountView;

verus! {

/// An account is created at most once: once it exists, every command is refused.
pub proof fn lemma_created_account_is_final(existing: CreatedAccountView, command: UserAccountCommandView)
    ensures
        decide(Some(existing), command) is Err,
{
}

/// Repeating the creation with the same data, at any other instant, is recognized
/// as already done instead of creating or changing anything.
pub proof fn lemma_exact_retry_is_recognized(
    first: UserAccountCommandView,
    retry: UserAccountCommandView,
)
    requires
        decide(None, first) is Ok,
        retry->CreateAccount_account_id == first->CreateAccount_account_id,
        retry->CreateAccount_email == first->CreateAccount_email,
        retry->CreateAccount_first_name == first->CreateAccount_first_name,
        retry->CreateAccount_last_name == first->CreateAccount_last_name,
        retry->CreateAccount_date_of_birth == first->CreateAccount_date_of_birth,
        retry->CreateAccount_validation_date == first->CreateAccount_validation_date,
    ensures
        decide(evolve(decide(None, first)->Ok_0), retry) == Err::<UserAccountEventView, UserAccountError>(
            UserAccountError::AlreadyCreated,
        ),
{
}

/// Every created account has non-empty trimmed names and was born no later than its validation date.
pub proof fn lemma_created_accounts_are_valid(command: UserAccountCommandView)
    requires
        decide(None, command) is Ok,
    ensures
        ({
            let account = evolve(decide(None, command)->Ok_0)->0;
            &&& account.first_name.len() > 0
            &&& account.last_name.len() > 0
            &&& account.first_name == crate::text::trim_spec(command->CreateAccount_first_name)
            &&& account.last_name == crate::text::trim_spec(command->CreateAccount_last_name)
            &&& !account.date_of_birth.spec_is_after(account.validation_date)
        }),
{
}

/// The first creation of an account whose trimmed names are non-empty succeeds exactly when the
/// birth date is not after the validation date in calendar order, and otherwise is refused as a
/// future birth date naming both dates: a birth in an earlier year is accepted whatever its month
/// and day, one in a later year is refused, and a birth on the validation day is accepted.
pub proof fn lemma_creation_birth_dates_are_chronological(command: UserAccountCommandView)
    requires
        crate::text::trim_spec(command->CreateAccount_first_name).len() > 0,
        crate::text::trim_spec(command->CreateAccount_last_name).len() > 0,
    ensures
        ({
            let born = command->CreateAccount_date_of_birth;
            let valid = command->CreateAccount_validation_date;
            let result = decide(None, command);
            &&& result is Ok <==> !born.spec_is_after(valid)
            &&& result is Err ==> result == Err::<UserAccountEventView, UserAccountError>(
                UserAccountError::FutureDateOfBirth { date_of_birth: born, validation_date: valid },
            )
            &&& born.spec_year() < valid.spec_year() ==> result is Ok
            &&& born.spec_year() > valid.spec_year() ==> result is Err
            &&& born == valid ==> result is Ok
            &&& result is Ok ==> evolve(result->Ok_0) == Some(
                CreatedAccountView {
                    account_id: command->CreateAccount_account_id,
                    email: command->CreateAccount_email,
                    first_name: crate::text::trim_spec(command->CreateAccount_first_name),
                    last_name: crate::text::trim_spec(command->CreateAccount_last_name),
                    date_of_birth: born,
                    validation_date: valid,
                    created_at: command->CreateAccount_created_at,
                },
            )
        }),
{
    let born = command->CreateAccount_date_of_birth;
    let valid = command->CreateAccount_validation_date;
    crate::domain::calendar::lemma_dates_are_ordered_chronologically(born, valid);
    crate::domain::calendar::lemma_dates_are_ordered_chronologically(valid, born);
}

} // verus!
