use account_management_service::application::email_reservation::service::EmailReservationServiceError;
use account_management_service::application::email_reservation::tasks::send_verification_code::v1::SendVerificationCodeTaskV1;
use account_management_service::application::email_reservation::tasks::send_verification_code::{
    accept_task, VerificationCodeDelivery,
};
use account_management_service::application::email_reservation::use_cases::confirm_email::{
    finish, map_error as confirm_map_error, token_digest, validate_code, verify_command,
};
use account_management_service::application::email_reservation::use_cases::reserve_email;
use account_management_service::application::email_reservation::use_cases::request_new_verification_code::{
    command_and_task, map_error as request_map_error,
};
use account_management_service::application::outbox::coordinator::{
    retry_delay_base_secs, task_outcome, ClaimFailure, ClaimRound, ClaimStep,
};
use account_management_service::application::outbox::error::OutboxError;
use account_management_service::application::outbox::queue::TaskOutcome;
use account_management_service::application::outbox::task::{NewOutboxTask, Schedule, TaskFormat};
use account_management_service::application::outbox::task_handler::TaskExecutionError;
use account_management_service::application::outbox::task_handler_registry::{TaskHandlerRegistryError, TaskRoutes};
use account_management_service::application::user_account::service::{
    create_account_outcome, create_account_plan, record_account_created_command, record_account_created_outcome,
    submit_profile_outcome, submit_profile_plan, ContinuationError, ProfileSubmission, SubmissionError,
};
use account_management_service::application::user_account::tasks::create_account::v1::CreateAccountTaskV1;
use account_management_service::application::user_account::tasks::delivery_error;
use account_management_service::application::user_account::tasks::record_account_created::v1::RecordAccountCreatedTaskV1;
use account_management_service::application::CommandGatewayError;
use account_management_service::domain::calendar::{CalendarDate, Timestamp};
use account_management_service::domain::email::Email;
use account_management_service::domain::email_reservation::commands::EmailReservationCommand;
use account_management_service::domain::email_reservation::errors::EmailReservationError;
use account_management_service::domain::email_reservation::RegistrationProfile;
use account_management_service::domain::user_account::commands::UserAccountCommand;
use account_management_service::domain::user_account::errors::UserAccountError;
use account_management_service::domain::user_account_id::UserAccountId;
use account_management_service::time_span::TimeSpan;

const TOKEN_DIGEST: &str = "3c469e9d6c5875d37a43f353d4f88e61fcf812c66eee3457465a40b0da4153e0";

fn email() -> Email {
    Email::parse("alice@example.com").unwrap()
}

fn id() -> UserAccountId {
    UserAccountId::from_uuid(0x26e9_1668_f9fc_4be4_bd9d_321f_ba42_e18b)
}

fn date(year: i32, month: u32, day: u32) -> CalendarDate {
    CalendarDate::from_ymd(year, month, day).unwrap()
}

fn format(task_type: &str, task_version: i32) -> TaskFormat {
    TaskFormat { task_type: task_type.into(), task_version }
}

#[test]
fn payload_builder_and_retry_bounds_are_stable() {
    let payload = br#"{"email":"alice@example.com","account_id":"26e91668-f9fc-4be4-bd9d-321fba42e18b","verification_code":1234567}"#.to_vec();
    let task = NewOutboxTask::new::<SendVerificationCodeTaskV1>(payload.clone());
    assert_eq!(task.payload, payload);
    assert_eq!(task.task_type, "send_verification_code");
    assert_eq!(task.task_version, 1);
    assert_eq!(task.max_attempts, 10);
    assert_eq!(task.schedule, Schedule::default());
    assert_eq!(task.format(), TaskFormat::of::<SendVerificationCodeTaskV1>());
    let scheduled = task.scheduled(Schedule::After(TimeSpan::from_secs(300)));
    assert_eq!(scheduled.schedule, Schedule::After(TimeSpan::from_secs(300)));
    for attempt in [i32::MIN, 0, 1, 2, 6, 7, 10, i32::MAX] {
        let base = retry_delay_base_secs(attempt);
        assert!((5..=300).contains(&base));
        if attempt >= 7 {
            assert_eq!(base, 300);
        }
    }
}

#[test]
fn retry_base_doubles_from_five_seconds() {
    assert_eq!(
        [0, 1, 2, 3, 4, 5, 6, 7].map(retry_delay_base_secs),
        [5, 5, 10, 20, 40, 80, 160, 300]
    );
}

#[test]
fn rejects_empty_and_duplicate_formats() {
    assert!(matches!(TaskRoutes::try_new(&vec![]), Err(TaskHandlerRegistryError::Empty)));
    let same = format("same", 1);
    assert!(matches!(
        TaskRoutes::try_new(&vec![vec![same.clone()], vec![same]]),
        Err(TaskHandlerRegistryError::DuplicateFormat(name, 1)) if name == "same"
    ));
}

#[test]
fn routes_each_format_to_its_handler() {
    let routes = TaskRoutes::try_new(&vec![vec![format("a", 1)], vec![format("b", 1), format("a", 2)]]).unwrap();
    assert_eq!(routes.route(&format("a", 1)), Some(0));
    assert_eq!(routes.route(&format("a", 2)), Some(1));
    assert_eq!(routes.route(&format("b", 1)), Some(1));
    assert_eq!(routes.route(&format("c", 1)), None);
    assert_eq!(routes.formats(), vec![format("a", 1), format("b", 1), format("a", 2)]);
}

#[test]
fn handler_results_become_task_outcomes() {
    let fallback = TimeSpan::from_secs(5);
    assert_eq!(task_outcome(Some(Ok(())), fallback), TaskOutcome::Completed);
    assert_eq!(
        task_outcome(Some(Err(TaskExecutionError::Permanent { reason: "bad".into() })), fallback),
        TaskOutcome::Failed { reason: "bad".into() }
    );
    assert_eq!(
        task_outcome(
            Some(Err(TaskExecutionError::Retry { reason: "later".into(), retry_after: Some(TimeSpan::from_secs(9)) })),
            fallback,
        ),
        TaskOutcome::Retry { delay: TimeSpan::from_secs(9), reason: "later".into() }
    );
    assert_eq!(
        task_outcome(Some(Err(TaskExecutionError::Retry { reason: "later".into(), retry_after: None })), fallback),
        TaskOutcome::Retry { delay: fallback, reason: "later".into() }
    );
    assert_eq!(task_outcome(None, fallback), TaskOutcome::Retry { delay: fallback, reason: "handler timed out".into() });
}

#[test]
fn claim_rounds_rotate_formats_and_respect_capacity() {
    let mut round = ClaimRound::new(3, 1, 4);
    assert_eq!(round.next_step(), ClaimStep::Query { format_index: 1, limit: 4 });
    round.record_claimed(1);
    assert_eq!(round.next_step(), ClaimStep::Query { format_index: 2, limit: 3 });
    round.record_claimed(3);
    assert_eq!(round.next_step(), ClaimStep::Finished);
    assert_eq!(round.claimed(), 4);
    assert_eq!(round.record_failure(OutboxError::Unavailable), ClaimFailure::KeepClaimed);

    let mut full = ClaimRound::new(3, 1, 10);
    let mut asked = Vec::new();
    while let ClaimStep::Query { format_index, .. } = full.next_step() {
        asked.push(format_index);
        full.record_claimed(0);
    }
    assert_eq!(asked, vec![1, 2, 0]);

    let mut wrapping = ClaimRound::new(3, usize::MAX, 2);
    assert_eq!(wrapping.next_step(), ClaimStep::Query { format_index: usize::MAX % 3, limit: 2 });
    wrapping.record_claimed(0);
    assert_eq!(wrapping.next_step(), ClaimStep::Query { format_index: 0, limit: 2 });
    assert_eq!(wrapping.record_failure(OutboxError::Unavailable), ClaimFailure::Report(OutboxError::Unavailable));
    wrapping.record_claimed(0);
    wrapping.record_claimed(0);
    assert_eq!(wrapping.next_step(), ClaimStep::Finished);
}

#[test]
fn verification_code_tasks_are_checked_before_delivery() {
    let v1 = TaskFormat::of::<SendVerificationCodeTaskV1>();
    let task = |code| SendVerificationCodeTaskV1 { email: email(), account_id: id(), verification_code: code };
    assert_eq!(
        accept_task(&v1, Some(task(1_234_567))),
        Ok(VerificationCodeDelivery { email: email(), account_id: id(), verification_code: 1_234_567 })
    );
    assert_eq!(
        accept_task(&format("send_verification_code", 3), Some(task(1_234_567))),
        Err(TaskExecutionError::Permanent { reason: "unsupported task format".into() })
    );
    assert_eq!(
        accept_task(&v1, None),
        Err(TaskExecutionError::Permanent { reason: "invalid send_verification_code v1 task payload".into() })
    );
    assert_eq!(
        accept_task(&v1, Some(task(0))),
        Err(TaskExecutionError::Permanent { reason: "invalid verification code".into() })
    );
}

#[test]
fn confirmation_checks_code_and_stores_the_token_digest() {
    assert_eq!(validate_code(1_234_567), Ok(()));
    assert_eq!(validate_code(123), Err(EmailReservationServiceError::InvalidVerificationCode));
    assert_eq!(validate_code(10_000_000), Err(EmailReservationServiceError::InvalidVerificationCode));
    assert_eq!(token_digest("token"), TOKEN_DIGEST);
    assert_eq!(
        token_digest("né"),
        "82b5c347493f76b114b701be8bf9205789f699075946fdf09051bf799d9cc117"
    );
    assert_eq!(
        verify_command(email(), id(), 1_234_567, "token"),
        EmailReservationCommand::VerifyEmail {
            email: email(),
            account_id: id(),
            code: 1_234_567,
            token_digest: TOKEN_DIGEST.into(),
        }
    );
    let verified = finish(email(), id(), "token".into(), Ok(())).unwrap();
    assert_eq!((verified.email, verified.account_id, verified.account_creation_token), (email(), id(), "token".into()));
    assert_eq!(
        finish(email(), id(), "token".into(), Err(CommandGatewayError::Domain(EmailReservationError::EmptyLastName))),
        Err(EmailReservationServiceError::UnexpectedDomainRejection(EmailReservationError::EmptyLastName))
    );
    for (error, expected) in [
        (CommandGatewayError::Domain(EmailReservationError::NotReserved), EmailReservationServiceError::NotReserved),
        (
            CommandGatewayError::Domain(EmailReservationError::InvalidVerificationCode),
            EmailReservationServiceError::InvalidVerificationCode,
        ),
        (CommandGatewayError::Conflict, EmailReservationServiceError::Conflict),
        (CommandGatewayError::Unavailable, EmailReservationServiceError::Unavailable),
    ] {
        assert_eq!(confirm_map_error(error), expected);
    }
}

#[test]
fn code_requests_commit_the_command_with_its_delivery() {
    let (command, task) = command_and_task(email(), id(), 7_654_321);
    assert_eq!(
        command,
        EmailReservationCommand::RequestVerificationCode { email: email(), account_id: id(), verification_code: 7_654_321 }
    );
    assert_eq!(task, SendVerificationCodeTaskV1 { email: email(), account_id: id(), verification_code: 7_654_321 });
    assert_eq!(
        request_map_error(CommandGatewayError::Domain(EmailReservationError::AccountIdUnchanged)),
        EmailReservationServiceError::Conflict
    );
    assert_eq!(
        request_map_error(CommandGatewayError::Domain(EmailReservationError::AccountCreationStarted)),
        EmailReservationServiceError::AccountCreationStarted
    );
    assert_eq!(
        request_map_error(CommandGatewayError::Domain(EmailReservationError::AlreadyVerified)),
        EmailReservationServiceError::UnexpectedDomainRejection(EmailReservationError::AlreadyVerified)
    );
}

fn submission() -> ProfileSubmission {
    ProfileSubmission {
        email: email(),
        account_id: id(),
        account_creation_token: "token".into(),
        first_name: " Alice ".into(),
        last_name: " Smith ".into(),
        date_of_birth: date(1990, 5, 12),
    }
}

fn accepted_profile() -> RegistrationProfile {
    RegistrationProfile::new("Alice".into(), "Smith".into(), date(1990, 5, 12), date(2026, 9, 20))
}

#[test]
fn profile_submission_delegates_conflict_retry_to_the_gateway() {
    let (command, task) = submit_profile_plan(submission(), date(2026, 9, 20));
    assert_eq!(
        command,
        EmailReservationCommand::SubmitRegistrationProfile {
            email: email(),
            account_id: id(),
            token_digest: TOKEN_DIGEST.into(),
            profile: accepted_profile(),
        }
    );
    assert_eq!(task, CreateAccountTaskV1 { email: email(), account_id: id(), profile: accepted_profile() });
    assert_eq!(submit_profile_outcome(email(), id(), Err(CommandGatewayError::Conflict)), Err(SubmissionError::Conflict));
    assert_eq!(
        submit_profile_outcome(email(), id(), Err(CommandGatewayError::Unavailable)),
        Err(SubmissionError::Unavailable)
    );
    assert_eq!(
        submit_profile_outcome(
            email(),
            id(),
            Err(CommandGatewayError::Domain(EmailReservationError::InvalidAccountCreationToken)),
        ),
        Err(SubmissionError::Domain(EmailReservationError::InvalidAccountCreationToken))
    );
    let accepted = submit_profile_outcome(email(), id(), Ok(())).unwrap();
    assert_eq!((accepted.email, accepted.account_id), (email(), id()));
}

#[test]
fn internal_continuations_keep_exhausted_conflicts_retryable() {
    let created_at = Timestamp::new(1_789_905_600, 0);
    let task = CreateAccountTaskV1 { email: email(), account_id: id(), profile: accepted_profile() };
    let (command, completion) = create_account_plan(task, created_at);
    assert_eq!(
        command,
        UserAccountCommand::CreateAccount {
            account_id: id(),
            email: email(),
            first_name: "Alice".into(),
            last_name: "Smith".into(),
            date_of_birth: date(1990, 5, 12),
            validation_date: date(2026, 9, 20),
            created_at,
        }
    );
    assert_eq!(
        completion,
        RecordAccountCreatedTaskV1 { email: email(), account_id: id(), profile: accepted_profile(), created_at }
    );
    assert_eq!(create_account_outcome(Err(CommandGatewayError::Conflict)), Err(ContinuationError::Retry));
    assert_eq!(create_account_outcome(Err(CommandGatewayError::Unavailable)), Err(ContinuationError::Retry));
    assert_eq!(create_account_outcome(Err(CommandGatewayError::Domain(UserAccountError::AlreadyCreated))), Ok(()));
    assert_eq!(
        create_account_outcome(Err(CommandGatewayError::Domain(UserAccountError::AlreadyExistsWithDifferentData))),
        Err(ContinuationError::Permanent)
    );
    assert_eq!(
        record_account_created_command(completion),
        EmailReservationCommand::RecordAccountCreated {
            email: email(),
            account_id: id(),
            profile: accepted_profile(),
            created_at,
        }
    );
    assert_eq!(record_account_created_outcome(Err(CommandGatewayError::Conflict)), Err(ContinuationError::Retry));
    assert_eq!(
        record_account_created_outcome(Err(CommandGatewayError::Domain(
            EmailReservationError::AccountCreationAlreadyCompleted
        ))),
        Ok(())
    );
    assert_eq!(
        record_account_created_outcome(Err(CommandGatewayError::Domain(EmailReservationError::AccountCreationMismatch))),
        Err(ContinuationError::Permanent)
    );
    assert_eq!(record_account_created_outcome(Ok(())), Ok(()));
}

#[test]
fn continuation_failures_become_task_errors() {
    assert_eq!(
        delivery_error(ContinuationError::Retry),
        TaskExecutionError::Retry { reason: "registration continuation temporarily unavailable".into(), retry_after: None }
    );
    assert_eq!(
        delivery_error(ContinuationError::Permanent),
        TaskExecutionError::Permanent { reason: "registration continuation data does not match".into() }
    );
}

#[test]
fn unknown_formats_are_refused_by_the_registry() {
    let routes = TaskRoutes::try_new(&vec![vec![format("a", 1)], vec![format("b", 1)]]).unwrap();
    assert_eq!(routes.handler_for(&format("b", 1)), Ok(1));
    assert_eq!(
        routes.handler_for(&format("b", 77)),
        Err(TaskExecutionError::Permanent { reason: "unsupported task format".into() })
    );
}

#[test]
fn reservations_commit_the_command_with_its_delivery() {
    let (command, task) = reserve_email::command_and_task(email(), id(), 1_234_567);
    assert_eq!(
        command,
        EmailReservationCommand::ReserveEmail { email: email(), account_id: id(), verification_code: 1_234_567 }
    );
    assert_eq!(task, SendVerificationCodeTaskV1 { email: email(), account_id: id(), verification_code: 1_234_567 });
    let reserved = reserve_email::finish(email(), id(), Ok(())).unwrap();
    assert_eq!((reserved.email, reserved.account_id), (email(), id()));
    assert_eq!(
        reserve_email::finish(email(), id(), Err(CommandGatewayError::Domain(EmailReservationError::AlreadyReserved))),
        Err(EmailReservationServiceError::AlreadyReserved)
    );
    assert_eq!(
        reserve_email::finish(email(), id(), Err(CommandGatewayError::Domain(EmailReservationError::NotReserved))),
        Err(EmailReservationServiceError::UnexpectedDomainRejection(EmailReservationError::NotReserved))
    );
    assert_eq!(reserve_email::finish(email(), id(), Err(CommandGatewayError::Conflict)), Err(EmailReservationServiceError::Conflict));
}

#[test]
fn a_claim_round_keeps_work_claimed_before_an_error() {
    let mut round = ClaimRound::new(3, 0, 5);
    assert_eq!(round.next_step(), ClaimStep::Query { format_index: 0, limit: 5 });
    round.record_claimed(2);
    assert_eq!(round.next_step(), ClaimStep::Query { format_index: 1, limit: 3 });
    assert_eq!(round.record_failure(OutboxError::Unavailable), ClaimFailure::KeepClaimed);
    let empty = ClaimRound::new(0, 4, 5);
    assert_eq!(empty.next_step(), ClaimStep::Finished);
    let zero = ClaimRound::new(3, 4, 0);
    assert_eq!(zero.next_step(), ClaimStep::Finished);
}
