//! The user account aggregate: created once, from a verified registration.
use vstd::prelude::*;
use crate::domain::calendar::{CalendarDate, Timestamp};
use crate::domain::email::Email;
use crate::domain::user_account_id::UserAccountId;

pub mod aggregate;
pub mod commands;
pub mod errors;
pub mod events;
pub mod laws;

verus! {

/// The data of a created account.
#[derive(Debug, PartialEq, Eq)]
pub struct CreatedAccount {
    account_id: UserAccountId,
    email: Email,
    first_name: String,
    last_name: String,
    date_of_birth: CalendarDate,
    validation_date: CalendarDate,
    created_at: Timestamp,
}

pub struct CreatedAccountView {
    pub account_id: UserAccountId,
    pub email: Seq<char>,
    pub first_name: Seq<char>,
    pub last_name: Seq<char>,
    pub date_of_birth: CalendarDate,
    pub validation_date: CalendarDate,
    pub created_at: Timestamp,
}

impl View for CreatedAccount {
    type V = CreatedAccountView;

    closed spec fn view(&self) -> CreatedAccountView {
        CreatedAccountView {
            account_id: self.account_id,
            email: self.email@,
            first_name: self.first_name@,
            last_name: self.last_name@,
            date_of_birth: self.date_of_birth,
            validation_date: self.validation_date,
            created_at: self.created_at,
        }
    }
}

impl CreatedAccount {
    pub(crate) fn from_parts(
        account_id: UserAccountId,
        email: Email,
        first_name: String,
        last_name: String,
        date_of_birth: CalendarDate,
        validation_date: CalendarDate,
        created_at: Timestamp,
    ) -> (account: CreatedAccount)
        ensures
            account@ == (CreatedAccountView {
                account_id,
                email: email@,
                first_name: first_name@,
                last_name: last_name@,
                date_of_birth,
                validation_date,
                created_at,
            }),
    {
        CreatedAccount {
            account_id,
            email,
            first_name,
            last_name,
            date_of_birth,
            validation_date,
            created_at,
        }
    }

    pub fn account_id(&self) -> (account_id: UserAccountId)
        ensures
            account_id == self@.account_id,
    {
        self.account_id
    }

    pub fn email(&self) -> (email: &Email)
        ensures
            email@ == self@.email,
    {
        &self.email
    }

    pub fn first_name(&self) -> (first_name: &str)
        ensures
            first_name@ == self@.first_name,
    {
        self.first_name.as_str()
    }

    pub fn last_name(&self) -> (last_name: &str)
        ensures
            last_name@ == self@.last_name,
    {
        self.last_name.as_str()
    }

    pub fn date_of_birth(&self) -> (date: CalendarDate)
        ensures
            date == self@.date_of_birth,
    {
        self.date_of_birth
    }

    pub fn validation_date(&self) -> (date: CalendarDate)
        ensures
            date == self@.validation_date,
    {
        self.validation_date
    }

    pub fn created_at(&self) -> (instant: Timestamp)
        ensures
            instant == self@.created_at,
    {
        self.created_at
    }
}

/// The aggregate's state: the account, once created.
#[derive(Debug, PartialEq, Eq)]
pub struct UserAccount {
    created: Option<CreatedAccount>,
}

impl View for UserAccount {
    type V = Option<CreatedAccountView>;

    closed spec fn view(&self) -> Option<CreatedAccountView> {
        match &self.created {
            Some(account) => Some(account@),
            None => None,
        }
    }
}

impl UserAccount {
    /// The state before any event: no account.
    pub fn new() -> (account: UserAccount)
        ensures
            account@ is None,
    {
        UserAccount { created: None }
    }

    pub fn created(&self) -> (created: Option<&CreatedAccount>)
        ensures
            match created {
                Some(account) => self@ == Some(account@),
                None => self@ is None,
            },
    {
        match &self.created {
            Some(account) => Some(account),
            None => None,
        }
    }
}

impl Default for UserAccount {
    fn default() -> (account: Self)
        ensures
            account@ is None,
    {
        UserAccount::new()
    }
}

} // verus!
