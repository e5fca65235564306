use account_management_service::application::email_reservation::service::RegistrationMaterialGenerator;
use account_management_service::application::email_reservation::tasks::send_verification_code::VerificationCodeDelivery;
use account_management_service::application::outbox::error::OutboxError;
use account_management_service::application::outbox::queue::{SettleResult, TaskOutcome};
use account_management_service::application::outbox::task::{Schedule, TaskFormat};
use account_management_service::application::user_account::service::RegistrationClock;
use account_management_service::application::CommandGatewayError;
use account_management_service::domain::calendar::Timestamp;
use account_management_service::domain::email::Email;
use account_management_service::domain::email_reservation::errors::EmailReservationError;
use account_management_service::domain::user_account::errors::UserAccountError;
use account_management_service::domain::user_account_id::UserAccountId;
use account_management_service::infrastructure::console_verification_code_sender::{
    delivery_line, ConsoleVerificationCodeSender,
};
use account_management_service::infrastructure::cqrs::{
    backoff_base, map_aggregate_error, AggregateFailure, ConflictRetries, RetryStep,
};
use account_management_service::infrastructure::logging::{InvalidLogLevel, LogLevel, LogingConfig};
use account_management_service::infrastructure::postgres::event_repository_with_outbox::{
    classify_storage_error, plan_persist, sequence_as_i64, validate_bind_count, write_committed, PersistPlanError,
    SnapshotWrite, StorageFailure,
};
use account_management_service::infrastructure::postgres::outbox_queue::{
    claim_parameters, expired_lease_failure, milliseconds, row_limit, settle_parameters, settle_result,
    ClaimParameters,
};
use account_management_service::infrastructure::random::RandomRegistrationMaterialGenerator;
use account_management_service::infrastructure::system_registration_clock::SystemRegistrationClock;
use account_management_service::infrastructure::verification_code_generator::verification_code;
use account_management_service::time_span::TimeSpan;
use base64::engine::general_purpose::URL_SAFE_NO_PAD;
use base64::Engine;

#[test]
fn log_level_defaults_to_info_and_accepts_supported_levels() {
    assert_eq!(LogingConfig::level_filter_from_lookup(|_| None).unwrap(), LogLevel::Info);

    for (value, expected) in [
        ("off", LogLevel::Off),
        ("error", LogLevel::Error),
        ("warn", LogLevel::Warn),
        ("info", LogLevel::Info),
        ("debug", LogLevel::Debug),
        ("trace", LogLevel::Trace),
    ] {
        assert_eq!(LogingConfig::level_filter_from_lookup(|_| Some(value.to_owned())).unwrap(), expected);
    }

    assert!(LogingConfig::level_filter_from_lookup(|_| Some("invalid".to_owned())).is_err());
}

#[test]
fn log_levels_by_number_case_and_empty_value() {
    for (value, expected) in [
        ("0", Ok(LogLevel::Off)),
        ("3", Ok(LogLevel::Info)),
        ("+5", Ok(LogLevel::Trace)),
        ("6", Err(InvalidLogLevel)),
        ("TRACE", Ok(LogLevel::Trace)),
        ("Warn", Ok(LogLevel::Warn)),
        ("", Ok(LogLevel::Error)),
        (" info", Err(InvalidLogLevel)),
    ] {
        assert_eq!(LogingConfig::level_filter_from_setting(Some(value)), expected, "{value:?}");
    }
    assert_eq!(LogingConfig::level_filter_from_setting(None), Ok(LogLevel::Info));
}

#[test]
fn generates_seven_digit_codes() {
    for _ in 0..128 {
        assert!((1_000_000..10_000_000).contains(&verification_code()));
    }
}

#[test]
fn generates_seven_digit_code_and_256_bit_token() {
    let generator = RandomRegistrationMaterialGenerator;
    for _ in 0..128 {
        assert!((1_000_000..=9_999_999).contains(&generator.verification_code()));
    }
    let token = generator.account_creation_token();
    assert_eq!(URL_SAFE_NO_PAD.decode(&token).unwrap().len(), 32);
    assert_eq!((generator.account_id().as_uuid() >> 76) & 0xf, 4);
    assert_ne!(generator.account_creation_token(), token);
}

#[test]
fn maps_framework_errors_for_both_aggregates() {
    assert_eq!(
        map_aggregate_error::<EmailReservationError>(AggregateFailure::AggregateConflict),
        CommandGatewayError::Conflict
    );
    assert_eq!(
        map_aggregate_error(AggregateFailure::UserError(UserAccountError::EmptyFirstName)),
        CommandGatewayError::Domain(UserAccountError::EmptyFirstName)
    );

    for (error, expected_error) in [
        (
            AggregateFailure::UserError(EmailReservationError::NotReserved),
            CommandGatewayError::Domain(EmailReservationError::NotReserved),
        ),
        (
            AggregateFailure::UserError(EmailReservationError::AlreadyVerified),
            CommandGatewayError::Domain(EmailReservationError::AlreadyVerified),
        ),
        (AggregateFailure::DatabaseConnectionError, CommandGatewayError::Unavailable),
        (AggregateFailure::DeserializationError, CommandGatewayError::Unavailable),
        (AggregateFailure::UnexpectedError, CommandGatewayError::Unavailable),
    ] {
        assert_eq!(map_aggregate_error(error), expected_error);
    }
}

#[test]
fn conflict_retries_stop_after_the_last_attempt() {
    let mut retries = ConflictRetries::new(3);
    assert_eq!(retries.record(true), RetryStep::RetryAfterBackoff { retry: 1 });
    assert_eq!(retries.record(true), RetryStep::RetryAfterBackoff { retry: 2 });
    assert_eq!(retries.record(true), RetryStep::Return);

    let mut retries = ConflictRetries::new(3);
    assert_eq!(retries.record(false), RetryStep::Return);
}

#[test]
fn default_backoff_doubles_up_to_the_cap() {
    let initial = TimeSpan::from_millis(5);
    let cap = TimeSpan::from_millis(50);
    assert_eq!(backoff_base(initial, cap, 1), TimeSpan::from_millis(5));
    assert_eq!(backoff_base(initial, cap, 2), TimeSpan::from_millis(10));
    assert_eq!(backoff_base(initial, cap, 4), TimeSpan::from_millis(40));
    assert_eq!(backoff_base(initial, cap, 5), TimeSpan::from_millis(50));
    assert_eq!(backoff_base(initial, cap, 100), TimeSpan::from_millis(50));
    assert_eq!(backoff_base(TimeSpan::zero(), TimeSpan::zero(), 7), TimeSpan::zero());
}

#[test]
fn converts_supported_sequence() {
    assert_eq!(sequence_as_i64(42).expect("sequence must fit"), 42);
}

#[test]
fn rejects_batches_over_the_postgres_bind_limit() {
    assert!(validate_bind_count(1, 1, 6));
    assert!(validate_bind_count(0, 5_957, 0));
    assert!(!validate_bind_count(0, 5_958, 0));
    assert!(!validate_bind_count(usize::MAX, 1, 0));
}

#[test]
fn rejects_overflowing_sequence() {
    let overflowing_sequence = usize::try_from(i64::MAX).expect("64-bit usize must fit i64::MAX") + 1;

    let result = sequence_as_i64(overflowing_sequence);

    assert_eq!(result, None);
}

#[test]
fn maps_non_connection_database_errors_to_unexpected_errors() {
    assert_eq!(classify_storage_error(None, None, false), StorageFailure::Unknown);
    assert_eq!(classify_storage_error(Some("23505"), Some("other_key"), false), StorageFailure::Unknown);
    assert_eq!(classify_storage_error(Some("40001"), Some("events_pkey"), false), StorageFailure::Unknown);
}

#[test]
fn maps_io_errors_to_connection_errors() {
    assert_eq!(classify_storage_error(None, None, true), StorageFailure::Connection);
}

#[test]
fn unique_key_races_on_events_or_snapshots_are_optimistic_conflicts() {
    assert_eq!(classify_storage_error(Some("23505"), Some("events_pkey"), false), StorageFailure::OptimisticLock);
    assert_eq!(classify_storage_error(Some("23505"), Some("snapshots_pkey"), false), StorageFailure::OptimisticLock);
}

#[test]
fn persist_plans_follow_the_checks_in_order() {
    assert!(matches!(plan_persist(&vec![], None, &vec![]), Ok(None)));
    assert!(matches!(
        plan_persist(&vec![], None, &vec![Schedule::Now]),
        Err(PersistPlanError::OutboxWithoutEvent)
    ));
    assert!(matches!(
        plan_persist(&vec![1; 9_363], None, &vec![]),
        Err(PersistPlanError::BatchTooLarge)
    ));
    assert!(matches!(
        plan_persist(&vec![usize::MAX], None, &vec![]),
        Err(PersistPlanError::SequenceOverflow)
    ));
    let at = Timestamp::new(1_789_387_200, 0);
    let plan = plan_persist(
        &vec![3, 4],
        Some(4),
        &vec![Schedule::Now, Schedule::After(TimeSpan::from_secs(300)), Schedule::At(at)],
    )
    .unwrap()
    .unwrap();
    assert_eq!(plan.event_sequences, vec![3, 4]);
    assert_eq!(plan.snapshot, Some(SnapshotWrite { insert: false, current_snapshot: 4, last_sequence: 4 }));
    assert_eq!(plan.tasks.len(), 3);
    assert_eq!((plan.tasks[0].scheduled_at, plan.tasks[0].delay_ms), (None, 0));
    assert_eq!((plan.tasks[1].scheduled_at, plan.tasks[1].delay_ms), (None, 300_000));
    assert_eq!((plan.tasks[2].scheduled_at, plan.tasks[2].delay_ms), (Some(at), 0));
    let first = plan_persist(&vec![1], Some(1), &vec![]).unwrap().unwrap();
    assert_eq!(first.snapshot, Some(SnapshotWrite { insert: true, current_snapshot: 1, last_sequence: 1 }));
    assert!(write_committed(1));
    assert!(!write_committed(0));
}

#[test]
fn queue_parameters_fit_bigint_and_need_a_lease() {
    assert_eq!(milliseconds(TimeSpan::from_millis(1_500)), Ok(1_500));
    assert_eq!(milliseconds(TimeSpan::from_secs(u64::MAX)), Err(OutboxError::InvalidTask));
    assert_eq!(row_limit(8), Ok(8));
    assert_eq!(row_limit(usize::MAX), Err(OutboxError::InvalidTask));
    assert_eq!(
        claim_parameters(4, TimeSpan::from_secs(60)),
        Ok(ClaimParameters { limit: 4, lease_ms: 60_000 })
    );
    assert_eq!(claim_parameters(4, TimeSpan::zero()), Err(OutboxError::InvalidTask));
}

#[test]
fn settling_writes_status_delay_and_bounded_error() {
    let completed = settle_parameters(&TaskOutcome::Completed).unwrap();
    assert_eq!((completed.status, completed.delay_ms, completed.error, completed.retry), ("completed", 0, None, false));
    let long_reason = "x".repeat(3_000);
    let retry = settle_parameters(&TaskOutcome::Retry { delay: TimeSpan::from_secs(5), reason: long_reason }).unwrap();
    assert_eq!((retry.status, retry.delay_ms, retry.retry), ("pending", 5_000, true));
    assert_eq!(retry.error.unwrap().chars().count(), 2_048);
    let failed = settle_parameters(&TaskOutcome::Failed { reason: "bad".into() }).unwrap();
    assert_eq!((failed.status, failed.error, failed.retry), ("failed", Some("bad".to_owned()), false));
    assert_eq!(
        settle_parameters(&TaskOutcome::Retry { delay: TimeSpan::from_secs(u64::MAX), reason: "r".into() }),
        Err(OutboxError::InvalidTask)
    );
}

#[test]
fn settle_results_report_final_failures_with_their_cause() {
    let format = TaskFormat { task_type: "create_account".into(), task_version: 1 };
    assert_eq!(settle_result(7, &format, 2, None, true), SettleResult::OwnershipLost);
    assert_eq!(settle_result(7, &format, 2, Some("pending"), true), SettleResult::Settled { failed: None });
    let by_limit = settle_result(7, &format, 2, Some("failed"), true);
    let task = by_limit.failed().unwrap();
    assert_eq!((task.id, task.attempt, task.reason), (7, 2, "retry limit reached"));
    assert_eq!(task.format, format);
    let permanent = settle_result(7, &format, 2, Some("failed"), false);
    assert_eq!(permanent.failed().unwrap().reason, "permanent failure");
    assert!(permanent.is_settled());
    assert_eq!(expired_lease_failure(9, &format, 3, 10), None);
    let expired = expired_lease_failure(9, &format, 10, 10).unwrap();
    assert_eq!((expired.id, expired.attempt, expired.reason), (9, 10, "worker lease expired"));
}

#[test]
fn console_line_names_code_account_address_and_task() {
    let message = VerificationCodeDelivery {
        email: Email::parse("alice@example.com").unwrap(),
        account_id: UserAccountId::from_uuid(0x26e9_1668_f9fc_4be4_bd9d_321f_ba42_e18b),
        verification_code: 1_234_567,
    };
    assert_eq!(
        delivery_line(&message, 1, -2),
        "Verification code 1234567 for account_id 26e91668-f9fc-4be4-bd9d-321fba42e18b sent to alice@example.com; \
         task_id=00000000-0000-0000-0000-000000000001; attempt=-2"
    );
    let mut sender = ConsoleVerificationCodeSender::new(Vec::<u8>::new());
    sender.writer_mut().extend_from_slice(b"line");
    assert_eq!(sender.writer_mut().as_slice(), b"line");
}

#[test]
fn system_clock_reads_the_current_utc_instant() {
    let now = SystemRegistrationClock.now();
    let expected = std::time::SystemTime::now().duration_since(std::time::UNIX_EPOCH).unwrap().as_secs() as i64;
    assert!((now.seconds - expected).abs() <= 5);
    assert!(now.utc_date().unwrap().year() >= 2024);
}

#[test]
fn conflict_retries_return_at_the_first_execution_without_conflict() {
    for (max_attempts, conflicts, executions) in [(3, 0, 1), (3, 2, 3), (3, 5, 3), (1, 1, 1), (4, 1, 2)] {
        let mut retries = ConflictRetries::new(max_attempts);
        let mut runs = 0;
        loop {
            runs += 1;
            if retries.record(runs <= conflicts) == RetryStep::Return {
                break;
            }
        }
        assert_eq!(runs, executions, "{max_attempts} attempts, {conflicts} conflicts");
    }
}
