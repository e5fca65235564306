use vstd::prelude::*;
use crate::domain::calendar::{CalendarDate, Timestamp};
use crate::domain::email::Email;
use crate::domain::user_account_id::UserAccountId;

verus! {

/// The request the user account aggregate decides on.
#[derive(Clone, Debug, PartialEq, Eq)]
pub enum UserAccountCommand {
    CreateAccount {
        account_id: UserAccountId,
        email: Email,
        first_name: String,
        last_name: String,
        date_of_birth: CalendarDate,
        validation_date: CalendarDate,
        created_at: Timestamp,
    },
}

pub enum UserAccountCommandView {
    CreateAccount {
        account_id: UserAccountId,
        email: Seq<char>,
        first_name: Seq<char>,
        last_name: Seq<char>,
        date_of_birth: CalendarDate,
        validation_date: CalendarDate,
        created_at: Timestamp,
    },
}

impl View for UserAccountCommand {
    type V = UserAccountCommandView;

    open spec fn view(&self) -> UserAccountCommandView {
        match self {
            UserAccountCommand::CreateAccount {
                account_id,
                email,
                first_name,
                last_name,
                date_of_birth,
                validation_date,
                created_at,
            } => UserAccountCommandView::CreateAccount {
                account_id: *account_id,
                email: email@,
                first_name: first_name@,
                last_name: last_name@,
                date_of_birth: *date_of_birth,
                validation_date: *validation_date,
                created_at: *created_at,
            },
        }
    }
}

impl UserAccountCommand {
    /// The account that the command targets; it identifies the aggregate instance.
    pub fn account_id(&self) -> (account_id: UserAccountId)
        ensures
            account_id == self@->CreateAccount_account_id,
    {
        match self {
            UserAccountCommand::CreateAccount { account_id, .. } => *account_id,
        }
    }
}

} // verus!
