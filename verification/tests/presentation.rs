use account_management_service::application::email_reservation::service::EmailReservationServiceError;
use account_management_service::application::outbox::task::TaskFormat;
use account_management_service::application::user_account::service::SubmissionError;
use account_management_service::domain::calendar::CalendarDate;
use account_management_service::domain::email::Email;
use account_management_service::domain::email_reservation::errors::EmailReservationError;
use account_management_service::domain::user_account_id::UserAccountId;
use account_management_service::presentation::http::email_reservations::{
    registration_status_not_implemented, requested_email, verification_request, EmailReservationsError,
};
use account_management_service::presentation::http::user_accounts::{
    encode_path_segment, profile_submission, status_url, UserAccountsError,
};
use account_management_service::presentation::outbox_worker_pool::{
    check_handler_formats, drain_deadline, free_workers, loggable_task_type, OutboxWorkerPoolConfig,
    OutboxWorkerPoolConfigError,
};
use account_management_service::runtime::{
    expected_server_exit, expected_worker_exit, signal_shutdown_outcome, unexpected_server_exit,
    unexpected_worker_exit, RuntimeError,
};
use account_management_service::time_span::TimeSpan;

const ID: &str = "26e91668-f9fc-4be4-bd9d-321fba42e18b";

#[test]
fn worker_config_supports_defaults_overrides_and_rejects_invalid_values() {
    let default = OutboxWorkerPoolConfig::from_lookup(|_| None).unwrap();
    assert_eq!(default.concurrency, 4);
    assert_eq!(default.lease, TimeSpan::from_secs(60));
    let custom = OutboxWorkerPoolConfig::from_lookup(|name| {
        Some(
            match name {
                "OUTBOX_WORKER_CONCURRENCY" => "2",
                "OUTBOX_POLL_INTERVAL_MS" => "50",
                "OUTBOX_HANDLER_TIMEOUT_SECS" => "10",
                "OUTBOX_LEASE_SECS" => "20",
                _ => unreachable!(),
            }
            .into(),
        )
    })
    .unwrap();
    assert_eq!(custom.concurrency, 2);
    assert_eq!(custom.poll_interval, TimeSpan::from_millis(50));
    for (key, value) in [
        ("OUTBOX_WORKER_CONCURRENCY", "garbage"),
        ("OUTBOX_WORKER_CONCURRENCY", "0"),
        ("OUTBOX_POLL_INTERVAL_MS", "0"),
        ("OUTBOX_HANDLER_TIMEOUT_SECS", "0"),
        ("OUTBOX_HANDLER_TIMEOUT_SECS", "60"),
        ("OUTBOX_LEASE_SECS", "0"),
        ("OUTBOX_LEASE_SECS", "18446744073709551615"),
        ("OUTBOX_POLL_INTERVAL_MS", "18446744073709551615"),
    ] {
        assert!(
            OutboxWorkerPoolConfig::from_lookup(|name| if name == key { Some(value.into()) } else { None }).is_err(),
            "{key}={value}"
        );
    }
}

#[test]
fn worker_config_errors_name_the_setting_or_the_rule() {
    let garbage = OutboxWorkerPoolConfig::from_lookup(|name| {
        if name == "OUTBOX_LEASE_SECS" {
            Some("x".into())
        } else {
            None
        }
    });
    assert_eq!(garbage, Err(OutboxWorkerPoolConfigError("OUTBOX_LEASE_SECS")));
    let equal = OutboxWorkerPoolConfig::from_lookup(|name| {
        if name == "OUTBOX_HANDLER_TIMEOUT_SECS" {
            Some("60".into())
        } else {
            None
        }
    });
    assert_eq!(equal, Err(OutboxWorkerPoolConfigError("positive values and handler_timeout < lease are required")));
    let default = OutboxWorkerPoolConfig::default();
    assert_eq!(default.validate(), Ok(()));
    assert_eq!(drain_deadline(&default), TimeSpan::from_secs(35));
}

#[test]
fn supervisor_helpers_pick_free_workers_and_check_formats() {
    assert_eq!(free_workers(&vec![true, false, false, true]), vec![1, 2]);
    assert_eq!(free_workers(&vec![true, true]), Vec::<usize>::new());
    let a = TaskFormat { task_type: "a".into(), task_version: 1 };
    let b = TaskFormat { task_type: "b".into(), task_version: 1 };
    assert_eq!(check_handler_formats(&vec![a.clone(), b.clone()], &vec![a.clone(), b.clone()]), Ok(()));
    assert_eq!(
        check_handler_formats(&vec![b, a.clone()], &vec![a.clone(), TaskFormat { task_type: "b".into(), task_version: 1 }]),
        Err(OutboxWorkerPoolConfigError("handler and dispatcher formats must match"))
    );
    assert!(check_handler_formats(&vec![a], &vec![]).is_err());
}

#[test]
fn failed_task_types_are_logged_only_when_safe() {
    assert_eq!(loggable_task_type("create_account"), "create_account");
    assert_eq!(loggable_task_type("secret\nalice@example.com"), "unknown");
    assert_eq!(loggable_task_type(""), "");
}

#[test]
fn service_failures_map_to_stable_safe_http_errors() {
    for (error, status, code) in [
        (EmailReservationServiceError::AlreadyReserved, 409, "email_already_reserved"),
        (EmailReservationServiceError::NotReserved, 404, "email_not_reserved"),
        (EmailReservationServiceError::InvalidVerificationCode, 422, "invalid_verification_code"),
        (EmailReservationServiceError::Conflict, 429, "email_reservation_conflict"),
        (EmailReservationServiceError::Unavailable, 503, "service_unavailable"),
        (
            EmailReservationServiceError::UnexpectedDomainRejection(EmailReservationError::EmptyFirstName),
            500,
            "internal_error",
        ),
    ] {
        let response = EmailReservationsError::from_service_error(error).response();
        assert_eq!((response.status, response.code), (status, code));
        assert_eq!(response.retry_after, status == 429);
    }
    let placeholder = registration_status_not_implemented();
    assert_eq!((placeholder.status, placeholder.code), (501, "not_implemented"));
}

#[test]
fn profile_failures_map_to_safe_http_errors() {
    for (error, status, code) in [
        (
            SubmissionError::Domain(EmailReservationError::InvalidAccountCreationToken),
            403,
            "invalid_account_creation_token",
        ),
        (SubmissionError::Domain(EmailReservationError::NotReserved), 404, "registration_not_found"),
        (SubmissionError::Domain(EmailReservationError::FutureDateOfBirth), 422, "invalid_profile"),
        (SubmissionError::Domain(EmailReservationError::AlreadyVerified), 500, "internal_error"),
        (SubmissionError::Conflict, 429, "registration_conflict"),
        (SubmissionError::Unavailable, 503, "service_unavailable"),
    ] {
        let response = UserAccountsError::from_submission_error(error).response();
        assert_eq!((response.status, response.code), (status, code));
        assert_eq!(response.retry_after, status == 429);
    }
}

#[test]
fn requests_are_read_in_the_handlers_order() {
    assert_eq!(requested_email(" Alice@Example.COM ").unwrap().as_str(), "alice@example.com");
    assert_eq!(requested_email("invalid"), Err(EmailReservationsError::InvalidEmail));
    assert_eq!(verification_request("alice@example.com", "bad"), Err(EmailReservationsError::InvalidRequest));
    assert_eq!(verification_request("invalid", "bad"), Err(EmailReservationsError::InvalidRequest));
    assert_eq!(verification_request("invalid", ID), Err(EmailReservationsError::InvalidEmail));
    let (email, id) = verification_request("alice@example.com", ID).unwrap();
    assert_eq!((email.as_str(), id.to_hyphenated()), ("alice@example.com", ID.to_owned()));
}

#[test]
fn profile_submissions_check_email_then_id_then_date() {
    let submit = |email: &str, id: &str, date: &str| {
        profile_submission(email, id, "token".into(), " Alice ".into(), " Smith ".into(), date)
    };
    assert_eq!(submit("not-an-email", "bad", "bad").err(), Some(UserAccountsError::InvalidEmail));
    assert_eq!(submit("alice@example.com", "bad", "bad").err(), Some(UserAccountsError::InvalidRequest));
    assert_eq!(submit("alice@example.com", ID, "1990-02-30").err(), Some(UserAccountsError::InvalidProfile));
    let submission = submit(" Alice@Example.COM ", ID, "1990-05-12").ok().unwrap();
    assert_eq!(submission.email.as_str(), "alice@example.com");
    assert_eq!(submission.account_id.to_hyphenated(), ID);
    assert_eq!(submission.first_name, " Alice ");
    assert_eq!(submission.date_of_birth, CalendarDate::from_ymd(1990, 5, 12).unwrap());
}

#[test]
fn accepts_a_profile_and_returns_the_canonical_encoded_status_url() {
    let email = Email::parse(" Alice+Tag@Example.COM ").unwrap();
    let id = UserAccountId::parse(ID).unwrap();
    assert_eq!(
        status_url(&email, id),
        "/email-reservations/alice%2Btag%40example.com/registrations/26e91668-f9fc-4be4-bd9d-321fba42e18b"
    );
    assert_eq!(encode_path_segment("a-b.c_d~e f/é"), "a-b.c_d~e%20f%2F%C3%A9");
}

#[test]
fn shutdown_outcomes_report_the_first_failure() {
    assert!(signal_shutdown_outcome(Ok(()), Ok(()), Ok(Ok(()))).is_ok());
    assert!(matches!(
        signal_shutdown_outcome(Err(std::io::Error::other("signal")), Err(std::io::Error::other("http")), Ok(Ok(()))),
        Err(RuntimeError::ShutdownSignal(_))
    ));
    assert!(matches!(
        signal_shutdown_outcome(Ok(()), Err(std::io::Error::other("http")), Ok(Err(OutboxWorkerPoolConfigError("x")))),
        Err(RuntimeError::HttpServer(_))
    ));
    assert!(matches!(
        signal_shutdown_outcome(Ok(()), Ok(()), Ok(Err(OutboxWorkerPoolConfigError("x")))),
        Err(RuntimeError::OutboxSupervisor(OutboxWorkerPoolConfigError("x")))
    ));
    assert!(expected_server_exit(Ok(())).is_ok());
    assert!(expected_worker_exit(Ok(Ok(()))).is_ok());
    assert!(matches!(unexpected_server_exit(Ok(())), Err(RuntimeError::HttpServerStopped)));
    assert!(matches!(
        unexpected_server_exit(Err(std::io::Error::other("http"))),
        Err(RuntimeError::HttpServer(_))
    ));
    assert!(matches!(unexpected_worker_exit(Ok(Ok(()))), Err(RuntimeError::OutboxSupervisorStopped)));
}

#[test]
fn settings_after_the_first_refused_one_are_not_looked_up() {
    let asked = std::cell::RefCell::new(Vec::new());
    let refused = OutboxWorkerPoolConfig::from_lookup(|name| {
        asked.borrow_mut().push(name.to_owned());
        if name == "OUTBOX_POLL_INTERVAL_MS" {
            Some("garbage".into())
        } else {
            None
        }
    });
    assert_eq!(refused, Err(OutboxWorkerPoolConfigError("OUTBOX_POLL_INTERVAL_MS")));
    assert_eq!(*asked.borrow(), vec!["OUTBOX_WORKER_CONCURRENCY", "OUTBOX_POLL_INTERVAL_MS"]);
    asked.borrow_mut().clear();
    assert!(OutboxWorkerPoolConfig::from_lookup(|name| {
        asked.borrow_mut().push(name.to_owned());
        None
    })
    .is_ok());
    assert_eq!(asked.borrow().len(), 4);
}
