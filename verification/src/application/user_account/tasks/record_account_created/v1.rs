use vstd::prelude::*;
use crate::application::outbox::task::TaskPayload;
use crate::domain::calendar::Timestamp;
use crate::domain::email::Email;
use crate::domain::email_reservation::RegistrationProfile;
use crate::domain::user_account_id::UserAccountId;

verus! {

/// The persisted v1 payload that records a created account on its reservation.
#[derive(Clone, Debug, PartialEq, Eq)]
pub struct RecordAccountCreatedTaskV1 {
    pub email: Email,
    pub account_id: UserAccountId,
    pub profile: RegistrationProfile,
    pub created_at: Timestamp,
}

impl TaskPayload for RecordAccountCreatedTaskV1 {
    open spec fn spec_task_type() -> Seq<char> {
        "record_account_created"@
    }

    open spec fn spec_task_version() -> i32 {
        1
    }

    fn task_type() -> (name: &'static str) {
        "record_account_created"
    }

    fn task_version() -> (version: i32) {
        1
    }
}

} // verus!
