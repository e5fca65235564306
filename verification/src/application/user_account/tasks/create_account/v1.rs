use vstd::prelude::*;
use crate::application::outbox::task::TaskPayload;
use crate::domain::email::Email;
use crate::domain::email_reservation::RegistrationProfile;
use crate::domain::user_account_id::UserAccountId;

verus! {

/// The persisted v1 payload of an account creation.
#[derive(Clone, Debug, PartialEq, Eq)]
pub struct CreateAccountTaskV1 {
    pub email: Email,
    pub account_id: UserAccountId,
    pub profile: RegistrationProfile,
}

impl TaskPayload for CreateAccountTaskV1 {
    open spec fn spec_task_type() -> Seq<char> {
        "create_account"@
    }

    open spec fn spec_task_version() -> i32 {
        1
    }

    fn task_type() -> (name: &'static str) {
        "create_account"
    }

    fn task_version() -> (version: i32) {
        1
    }
}

} // verus!
