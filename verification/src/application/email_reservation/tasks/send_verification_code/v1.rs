use vstd::prelude::*;
use crate::application::outbox::task::TaskPayload;
use crate::domain::email::Email;
use crate::domain::user_account_id::UserAccountId;

verus! {

/// The persisted v1 payload of a verification code delivery.
#[derive(Clone, Debug, PartialEq, Eq)]
pub struct SendVerificationCodeTaskV1 {
    pub email: Email,
    pub account_id: UserAccountId,
    pub verification_code: u32,
}

impl TaskPayload for SendVerificationCodeTaskV1 {
    open spec fn spec_task_type() -> Seq<char> {
        "send_verification_code"@
    }

    open spec fn spec_task_version() -> i32 {
        1
    }

    fn task_type() -> (name: &'static str) {
        "send_verification_code"
    }

    fn task_version() -> (version: i32) {
        1
    }
}

} // verus!
