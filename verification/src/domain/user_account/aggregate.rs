//! What the user account aggregate decides, and how its event sets its state.
use vstd::prelude::*;
use crate::domain::calendar::{CalendarDate, Timestamp};
use crate::domain::email::{same_mailbox, Email};
use crate::domain::user_account::commands::{UserAccountCommand, UserAccountCommandView};
use crate::domain::user_account::errors::UserAccountError;
use crate::domain::user_account::events::{UserAccountEvent, UserAccountEventView};
use crate::domain::user_account::{CreatedAccount, CreatedAccountView, UserAccount};
use crate::domain::user_account_id::UserAccountId;
use crate::text::{trim, trim_spec};

verus! {

/// The event for a command in a given state, or why it is refused. Names are
/// compared and recorded trimmed; an existing account only ever answers with a refusal.
pub open spec fn decide(
    state: Option<CreatedAccountView>,
    command: UserAccountCommandView,
) -> Result<UserAccountEventView, UserAccountError> {
    match command {
        UserAccountCommandView::CreateAccount {
            account_id,
            email,
            first_name,
            last_name,
            date_of_birth,
            validation_date,
            created_at,
        } => {
            let first_name = trim_spec(first_name);
            let last_name = trim_spec(last_name);
            match state {
                Some(existing) => if existing.account_id == account_id && same_mailbox(existing.email, email)
                    && existing.first_name == first_name && existing.last_name == last_name
                    && existing.date_of_birth == date_of_birth && existing.validation_date
                    == validation_date {
                    Err(UserAccountError::AlreadyCreated)
                } else {
                    Err(UserAccountError::AlreadyExistsWithDifferentData)
                },
                None => if first_name.len() == 0 {
                    Err(UserAccountError::EmptyFirstName)
                } else if last_name.len() == 0 {
                    Err(UserAccountError::EmptyLastName)
                } else if date_of_birth.spec_is_after(validation_date) {
                    Err(UserAccountError::FutureDateOfBirth { date_of_birth, validation_date })
                } else {
                    Ok(
                        UserAccountEventView::AccountCreated {
                            account_id,
                            email,
                            first_name,
                            last_name,
                            date_of_birth,
                            validation_date,
                            created_at,
                        },
                    )
                },
            }
        },
    }
}

/// The state after the event: the account it describes.
pub open spec fn evolve(event: UserAccountEventView) -> Option<CreatedAccountView> {
    match event {
        UserAccountEventView::AccountCreated {
            account_id,
            email,
            first_name,
            last_name,
            date_of_birth,
            validation_date,
            created_at,
        } => Some(
            CreatedAccountView {
                account_id,
                email,
                first_name,
                last_name,
                date_of_birth,
                validation_date,
                created_at,
            },
        ),
    }
}

pub open spec fn decision_view(result: Result<UserAccountEvent, UserAccountError>) -> Result<
    UserAccountEventView,
    UserAccountError,
> {
    match result {
        Ok(event) => Ok(event@),
        Err(error) => Err(error),
    }
}

impl UserAccount {
    /// Decides a command: the one event to record, or the refusal.
    pub fn handle(&self, command: UserAccountCommand) -> (result: Result<UserAccountEvent, UserAccountError>)
        ensures
            decision_view(result) == decide(self@, command@),
    {
        match command {
            UserAccountCommand::CreateAccount {
                account_id,
                email,
                first_name,
                last_name,
                date_of_birth,
                validation_date,
                created_at,
            } => self.handle_create_account(
                account_id,
                email,
                first_name,
                last_name,
                date_of_birth,
                validation_date,
                created_at,
            ),
        }
    }

    fn handle_create_account(
        &self,
        account_id: UserAccountId,
        email: Email,
        first_name: String,
        last_name: String,
        date_of_birth: CalendarDate,
        validation_date: CalendarDate,
        created_at: Timestamp,
    ) -> (result: Result<UserAccountEvent, UserAccountError>)
        ensures
            decision_view(result) == decide(
                self@,
                UserAccountCommandView::CreateAccount {
                    account_id,
                    email: email@,
                    first_name: first_name@,
                    last_name: last_name@,
                    date_of_birth,
                    validation_date,
                    created_at,
                },
            ),
    {
        let first_name = trim(first_name.as_str());
        let last_name = trim(last_name.as_str());
        if let Some(existing) = self.created() {
            let existing_first = existing.first_name();
            let existing_last = existing.last_name();
            return if existing.account_id() == account_id && existing.email().same_address(&email)
                && existing_first.to_owned() == first_name.to_owned() && existing_last.to_owned()
                == last_name.to_owned() && existing.date_of_birth().same_day(&date_of_birth)
                && existing.validation_date().same_day(&validation_date) {
                Err(UserAccountError::AlreadyCreated)
            } else {
                Err(UserAccountError::AlreadyExistsWithDifferentData)
            };
        }
        if first_name.is_empty() {
            return Err(UserAccountError::EmptyFirstName);
        }
        if last_name.is_empty() {
            return Err(UserAccountError::EmptyLastName);
        }
        if date_of_birth.is_after(&validation_date) {
            return Err(UserAccountError::FutureDateOfBirth { date_of_birth, validation_date });
        }
        Ok(
            UserAccountEvent::AccountCreated {
                account_id,
                email,
                first_name: first_name.to_owned(),
                last_name: last_name.to_owned(),
                date_of_birth,
                validation_date,
                created_at,
            },
        )
    }

    /// Records the event: the state becomes the account it describes.
    pub fn apply(&mut self, event: UserAccountEvent)
        ensures
            final(self)@ == evolve(event@),
    {
        match event {
            UserAccountEvent::AccountCreated {
                account_id,
                email,
                first_name,
                last_name,
                date_of_birth,
                validation_date,
                created_at,
            } => {
                self.created = Some(
                    CreatedAccount::from_parts(
                        account_id,
                        email,
                        first_name,
                        last_name,
                        date_of_birth,
                        validation_date,
                        created_at,
                    ),
                );
            },
        }
    }
}

} // verus!
