//! Development delivery of verification codes: one line per code on a writer.
use vstd::prelude::*;
use crate::application::email_reservation::tasks::send_verification_code::VerificationCodeDelivery;
use crate::domain::user_account_id::{hyphenated, uuid_hyphenated};
use crate::text::{decimal, i32_to_decimal, push_str, signed_decimal, u32_to_decimal};

verus! {

/// Delivers codes by writing a line to `writer` (standard output in development).
pub struct ConsoleVerificationCodeSender<W> {
    writer: W,
}

impl<W> ConsoleVerificationCodeSender<W> {
    pub closed spec fn spec_writer(&self) -> W {
        self.writer
    }

    pub fn new(writer: W) -> (sender: Self)
        ensures
            sender.spec_writer() == writer,
    {
        ConsoleVerificationCodeSender { writer }
    }

    /// The writer the lines go to.
    pub fn writer_mut(&mut self) -> (writer: &mut W)
        ensures
            *writer == old(self).spec_writer(),
            final(self).spec_writer() == *final(writer),
    {
        &mut self.writer
    }
}

/// The line written for one delivery: the code, the account, the address, then the outbox
/// task and attempt it came from.
pub open spec fn delivery_line_spec(code: u32, account_id: u128, email: Seq<char>, task_id: u128, attempt: i32) -> Seq<
    char,
> {
    "Verification code "@ + decimal(code as nat) + " for account_id "@ + hyphenated(account_id) + " sent to "@ + email
        + "; task_id="@ + hyphenated(task_id) + "; attempt="@ + signed_decimal(attempt as int)
}

/// The text of the line written for `message`, delivered by outbox task `task_id` on its
/// `attempt`-th attempt.
pub fn delivery_line(message: &VerificationCodeDelivery, task_id: u128, attempt: i32) -> (line: String)
    ensures
        line@ == delivery_line_spec(
            message.verification_code,
            message.account_id.uuid(),
            message.email@,
            task_id,
            attempt,
        ),
{
    let mut line = String::new();
    push_str(&mut line, "Verification code ");
    push_str(&mut line, u32_to_decimal(message.verification_code).as_str());
    push_str(&mut line, " for account_id ");
    push_str(&mut line, message.account_id.to_hyphenated().as_str());
    push_str(&mut line, " sent to ");
    push_str(&mut line, message.email.as_str());
    push_str(&mut line, "; task_id=");
    push_str(&mut line, uuid_hyphenated(task_id).as_str());
    push_str(&mut line, "; attempt=");
    push_str(&mut line, i32_to_decimal(attempt).as_str());
    proof {
        assert(line@ =~= delivery_line_spec(
            message.verification_code,
            message.account_id.uuid(),
            message.email@,
            task_id,
            attempt,
        ));
    }
    line
}

} // verus!
