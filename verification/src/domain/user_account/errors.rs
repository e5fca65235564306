use vstd::prelude::*;
use crate::domain::calendar::CalendarDate;

verus! {

/// Why the user account aggregate refused a command.
#[derive(Clone, Copy, Debug, PartialEq, Eq, Structural)]
pub enum UserAccountError {
    EmptyFirstName,
    EmptyLastName,
    FutureDateOfBirth { date_of_birth: CalendarDate, validation_date: CalendarDate },
    AlreadyExistsWithDifferentData,
    AlreadyCreated,
}

} // verus!
