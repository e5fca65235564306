use vstd::prelude::*;
use crate::domain::calendar::{CalendarDate, Timestamp};
use crate::domain::email::Email;
use crate::domain::user_account_id::UserAccountId;

verus! {

/// The fact the user account aggregate records.
#[derive(Clone, Debug, PartialEq, Eq)]
pub enum UserAccountEvent {
    AccountCreated {
        account_id: UserAccountId,
        email: Email,
        first_name: String,
        last_name: String,
        date_of_birth: CalendarDate,
        validation_date: CalendarDate,
        created_at: Timestamp,
    },
}

pub enum UserAccountEventView {
    AccountCreated {
        account_id: UserAccountId,
        email: Seq<char>,
        first_name: Seq<char>,
        last_name: Seq<char>,
        date_of_birth: CalendarDate,
        validation_date: CalendarDate,
        created_at: Timestamp,
    },
}

impl View for UserAccountEvent {
    type V = UserAccountEventView;

    open spec fn view(&self) -> UserAccountEventView {
        match self {
            UserAccountEvent::AccountCreated {
                account_id,
                email,
                first_name,
                last_name,
                date_of_birth,
                validation_date,
                created_at,
            } => UserAccountEventView::AccountCreated {
                account_id: *account_id,
                email: email@,
                first_name: first_name@,
                last_name: last_name@,
                date_of_birth: *date_of_birth,
                validation_date: *validation_date,
                created_at: *created_at,
            },
        }
    }
}

impl UserAccountEvent {
    pub fn event_type(&self) -> (name: &'static str)
        ensures
            name@ == "account_created"@,
    {
        "account_created"
    }

    pub fn event_version(&self) -> (version: &'static str)
        ensures
            version@ == "1"@,
    {
        "1"
    }
}

} // verus!
