use account_management_service::domain::calendar::{CalendarDate, Timestamp};
use account_management_service::domain::email::Email;
use account_management_service::domain::email_reservation::commands::EmailReservationCommand;
use account_management_service::domain::email_reservation::errors::EmailReservationError;
use account_management_service::domain::email_reservation::events::EmailReservationEvent;
use account_management_service::domain::email_reservation::{EmailReservation, RegistrationProfile, ReservationPhase};
use account_management_service::domain::user_account_id::UserAccountId;

fn email() -> Email {
    Email::parse("alice@example.com").unwrap()
}

fn id(value: u128) -> UserAccountId {
    UserAccountId::from_uuid(value)
}

fn date(year: i32, month: u32, day: u32) -> CalendarDate {
    CalendarDate::from_ymd(year, month, day).unwrap()
}

/// 2026-09-14T12:00:00Z.
fn created_at() -> Timestamp {
    Timestamp::new(1_789_387_200, 0)
}

fn reserved() -> EmailReservationEvent {
    EmailReservationEvent::EmailReserved { email: email(), account_id: id(1), verification_code: 1_234_567 }
}

fn verified() -> EmailReservationEvent {
    EmailReservationEvent::EmailVerified { email: email(), account_id: id(1), token_digest: "digest".into() }
}

fn profile() -> RegistrationProfile {
    RegistrationProfile::new(" Alice ".into(), " Smith ".into(), date(1990, 5, 12), date(2026, 9, 14))
}

fn accepted() -> EmailReservationEvent {
    EmailReservationEvent::RegistrationProfileAccepted {
        email: email(),
        account_id: id(1),
        consumed_token_digest: "digest".into(),
        profile: profile(),
    }
}

fn completed() -> EmailReservationEvent {
    EmailReservationEvent::AccountCreationCompleted { email: email(), account_id: id(1), created_at: created_at() }
}

fn replay(history: Vec<EmailReservationEvent>) -> EmailReservation {
    let mut aggregate = EmailReservation::default();
    for event in history {
        aggregate.apply(event);
    }
    aggregate
}

fn decide(
    history: Vec<EmailReservationEvent>,
    command: EmailReservationCommand,
) -> Result<EmailReservationEvent, EmailReservationError> {
    replay(history).handle(command)
}

fn submit(account_id: UserAccountId, token_digest: &str, profile: RegistrationProfile) -> EmailReservationCommand {
    EmailReservationCommand::SubmitRegistrationProfile {
        email: email(),
        account_id,
        token_digest: token_digest.into(),
        profile,
    }
}

fn record(account_id: UserAccountId, profile: RegistrationProfile, created_at: Timestamp) -> EmailReservationCommand {
    EmailReservationCommand::RecordAccountCreated { email: email(), account_id, profile, created_at }
}

#[test]
fn reserve_requires_absent_email_and_valid_code() {
    assert_eq!(
        decide(
            vec![],
            EmailReservationCommand::ReserveEmail { email: email(), account_id: id(1), verification_code: 1_234_567 },
        ),
        Ok(reserved())
    );
    assert_eq!(
        decide(
            vec![reserved()],
            EmailReservationCommand::ReserveEmail { email: email(), account_id: id(2), verification_code: 7_654_321 },
        ),
        Err(EmailReservationError::AlreadyReserved)
    );
    assert_eq!(
        decide(
            vec![],
            EmailReservationCommand::ReserveEmail { email: email(), account_id: id(1), verification_code: 12 },
        ),
        Err(EmailReservationError::InvalidVerificationCodeFormat)
    );
}

#[test]
fn reissue_changes_id_even_when_numeric_code_repeats() {
    assert_eq!(
        decide(
            vec![reserved()],
            EmailReservationCommand::RequestVerificationCode {
                email: email(),
                account_id: id(2),
                verification_code: 1_234_567,
            },
        ),
        Ok(EmailReservationEvent::VerificationCodeRequested {
            email: email(),
            account_id: id(2),
            verification_code: 1_234_567,
        })
    );
    assert_eq!(
        decide(
            vec![reserved(), verified()],
            EmailReservationCommand::RequestVerificationCode {
                email: email(),
                account_id: id(2),
                verification_code: 7_654_321,
            },
        ),
        Ok(EmailReservationEvent::VerificationRestarted {
            email: email(),
            account_id: id(2),
            verification_code: 7_654_321,
        })
    );
    for (events, next_id, code, error) in [
        (vec![], id(2), 7_654_321, EmailReservationError::NotReserved),
        (vec![reserved()], id(1), 7_654_321, EmailReservationError::AccountIdUnchanged),
        (vec![reserved()], id(2), 12, EmailReservationError::InvalidVerificationCodeFormat),
    ] {
        assert_eq!(
            decide(
                events,
                EmailReservationCommand::RequestVerificationCode {
                    email: email(),
                    account_id: next_id,
                    verification_code: code,
                },
            ),
            Err(error)
        );
    }
}

#[test]
fn verification_uses_current_pair_and_issues_one_digest() {
    assert_eq!(
        decide(
            vec![reserved()],
            EmailReservationCommand::VerifyEmail {
                email: email(),
                account_id: id(1),
                code: 1_234_567,
                token_digest: "digest".into(),
            },
        ),
        Ok(verified())
    );
    for (events, account_id, code, error) in [
        (vec![], id(1), 1_234_567, EmailReservationError::NotReserved),
        (vec![reserved()], id(2), 1_234_567, EmailReservationError::NotCurrentAccountId),
        (vec![reserved()], id(1), 7_654_321, EmailReservationError::InvalidVerificationCode),
        (vec![reserved(), verified()], id(1), 1_234_567, EmailReservationError::AlreadyVerified),
        (vec![reserved(), verified()], id(2), 1_234_567, EmailReservationError::NotCurrentAccountId),
    ] {
        assert_eq!(
            decide(
                events,
                EmailReservationCommand::VerifyEmail { email: email(), account_id, code, token_digest: "other".into() },
            ),
            Err(error)
        );
    }
}

#[test]
fn replay_and_snapshot_keep_only_active_proof() {
    let mut aggregate = EmailReservation::default();
    assert_eq!(aggregate.phase(), &ReservationPhase::Absent);
    assert!(!aggregate.is_reserved());
    assert_eq!(aggregate.account_id(), None);
    aggregate.apply(reserved());
    assert_eq!(aggregate.account_id(), Some(id(1)));
    aggregate.apply(verified());
    assert_eq!(
        aggregate.phase(),
        &ReservationPhase::AwaitingProfile { account_id: id(1), token_digest: "digest".into() }
    );
    aggregate.apply(EmailReservationEvent::VerificationRestarted {
        email: email(),
        account_id: id(2),
        verification_code: 7_654_321,
    });
    assert_eq!(
        aggregate.phase(),
        &ReservationPhase::AwaitingCode { account_id: id(2), verification_code: 7_654_321 }
    );
}

#[test]
fn profile_submission_requires_current_token_and_valid_profile() {
    assert_eq!(
        decide(
            vec![reserved(), verified()],
            submit(
                id(1),
                "digest",
                RegistrationProfile { first_name: " Alice ".into(), last_name: " Smith ".into(), ..profile() },
            ),
        ),
        Ok(accepted())
    );
    for (events, account_id, token, error) in [
        (vec![], id(1), "digest", EmailReservationError::NotReserved),
        (vec![reserved()], id(1), "digest", EmailReservationError::NotAwaitingProfile),
        (vec![reserved(), verified()], id(2), "digest", EmailReservationError::NotCurrentAccountId),
        (vec![reserved(), verified()], id(1), "wrong", EmailReservationError::InvalidAccountCreationToken),
    ] {
        assert_eq!(decide(events, submit(account_id, token, profile())), Err(error));
    }
    let mut invalid = profile();
    invalid.first_name = "  ".into();
    assert_eq!(
        decide(vec![reserved(), verified()], submit(id(1), "digest", invalid)),
        Err(EmailReservationError::EmptyFirstName)
    );
    let mut invalid = profile();
    invalid.last_name = "  ".into();
    assert_eq!(
        decide(vec![reserved(), verified()], submit(id(1), "digest", invalid)),
        Err(EmailReservationError::EmptyLastName)
    );
    let mut invalid = profile();
    invalid.date_of_birth = date(2026, 9, 15);
    assert_eq!(
        decide(vec![reserved(), verified()], submit(id(1), "digest", invalid)),
        Err(EmailReservationError::FutureDateOfBirth)
    );
}

#[test]
fn a_consumed_token_cannot_submit_another_profile() {
    let histories: [fn() -> Vec<EmailReservationEvent>; 2] = [
        || vec![reserved(), verified(), accepted()],
        || vec![reserved(), verified(), accepted(), completed()],
    ];
    for history in histories {
        let mut later = profile();
        later.validation_date = date(1980, 1, 1);
        assert_eq!(
            decide(history(), submit(id(1), "digest", later)),
            Err(EmailReservationError::ProfileAlreadySubmitted)
        );
        let mut changed = profile();
        changed.last_name = "Jones".into();
        assert_eq!(
            decide(history(), submit(id(1), "digest", changed)),
            Err(EmailReservationError::ProfileAlreadySubmitted)
        );
        assert_eq!(
            decide(history(), submit(id(1), "wrong", profile())),
            Err(EmailReservationError::InvalidAccountCreationToken)
        );
        assert_eq!(
            decide(history(), submit(id(2), "digest", profile())),
            Err(EmailReservationError::NotCurrentAccountId)
        );
    }
}

#[test]
fn completion_requires_matching_account_fact_and_is_idempotent() {
    assert_eq!(
        decide(vec![reserved(), verified(), accepted()], record(id(1), profile(), created_at())),
        Ok(completed())
    );
    assert_eq!(
        decide(vec![reserved(), verified(), accepted(), completed()], record(id(1), profile(), created_at())),
        Err(EmailReservationError::AccountCreationAlreadyCompleted)
    );
    let mut changed = profile();
    changed.first_name = "Bob".into();
    let one_second_later = Timestamp::new(created_at().seconds + 1, 0);
    for (history, account_id, profile, created_at, error) in [
        (vec![], id(1), profile(), created_at(), EmailReservationError::NotReserved),
        (vec![reserved()], id(1), profile(), created_at(), EmailReservationError::NotAwaitingProfile),
        (vec![reserved(), verified()], id(1), profile(), created_at(), EmailReservationError::NotAwaitingProfile),
        (
            vec![reserved(), verified(), accepted()],
            id(2),
            profile(),
            created_at(),
            EmailReservationError::AccountCreationMismatch,
        ),
        (
            vec![reserved(), verified(), accepted()],
            id(1),
            changed,
            created_at(),
            EmailReservationError::AccountCreationMismatch,
        ),
        (
            vec![reserved(), verified(), accepted(), completed()],
            id(1),
            profile(),
            one_second_later,
            EmailReservationError::AccountCreationMismatch,
        ),
    ] {
        assert_eq!(decide(history, record(account_id, profile, created_at)), Err(error));
    }
}

#[test]
fn creation_phases_block_code_reissue_and_keep_accepted_profile_on_replay() {
    let histories: [fn() -> Vec<EmailReservationEvent>; 2] = [
        || vec![reserved(), verified(), accepted()],
        || vec![reserved(), verified(), accepted(), completed()],
    ];
    for history in histories {
        assert_eq!(
            decide(
                history(),
                EmailReservationCommand::RequestVerificationCode {
                    email: email(),
                    account_id: id(2),
                    verification_code: 7_654_321,
                },
            ),
            Err(EmailReservationError::AccountCreationStarted)
        );
        assert_eq!(
            decide(
                history(),
                EmailReservationCommand::ReserveEmail {
                    email: email(),
                    account_id: id(2),
                    verification_code: 7_654_321,
                },
            ),
            Err(EmailReservationError::AlreadyReserved)
        );
        let aggregate = replay(history());
        assert_eq!(aggregate.account_id(), Some(id(1)));
        assert!(aggregate.is_reserved());
    }
}

#[test]
fn metadata_matches_new_event_shapes() {
    let account_id = UserAccountId::new();
    for (event, kind, version) in [
        (
            EmailReservationEvent::EmailReserved { email: email(), account_id, verification_code: 1_234_567 },
            "email_reserved",
            "1",
        ),
        (
            EmailReservationEvent::VerificationCodeRequested { email: email(), account_id, verification_code: 1_234_567 },
            "verification_code_requested",
            "1",
        ),
        (
            EmailReservationEvent::VerificationRestarted { email: email(), account_id, verification_code: 1_234_567 },
            "verification_restarted",
            "1",
        ),
        (
            EmailReservationEvent::EmailVerified { email: email(), account_id, token_digest: "digest".into() },
            "email_verified",
            "1",
        ),
        (
            EmailReservationEvent::RegistrationProfileAccepted {
                email: email(),
                account_id,
                consumed_token_digest: "digest".into(),
                profile: RegistrationProfile::new("Alice".into(), "Smith".into(), date(1990, 5, 12), date(2026, 9, 14)),
            },
            "registration_profile_accepted",
            "1",
        ),
        (
            EmailReservationEvent::AccountCreationCompleted { email: email(), account_id, created_at: created_at() },
            "account_creation_completed",
            "1",
        ),
    ] {
        assert_eq!(event.event_type(), kind);
        assert_eq!(event.event_version(), version);
    }
}

#[test]
fn profile_names_are_trimmed_and_dates_kept() {
    let profile = profile();
    assert_eq!(profile.first_name, "Alice");
    assert_eq!(profile.last_name, "Smith");
    assert_eq!(profile.date_of_birth, date(1990, 5, 12));
    assert_eq!(profile.validation_date, date(2026, 9, 14));
    assert!(profile.same_profile(&profile.duplicate()));
}

#[test]
fn every_refusal_has_a_message() {
    assert_eq!(EmailReservationError::AlreadyReserved.message(), "email is already reserved");
    assert_eq!(
        EmailReservationError::InvalidVerificationCodeFormat.message(),
        "verification code must have seven decimal digits"
    );
    assert_eq!(
        EmailReservationError::AccountCreationAlreadyCompleted.message(),
        "account creation was already completed with the same data"
    );
}

#[test]
fn restored_snapshots_resume_where_they_stopped() {
    let replayed = replay(vec![reserved(), verified(), accepted()]);
    let restored = EmailReservation::restore(replayed.phase().clone());
    assert_eq!(restored, replayed);
    assert_eq!(
        restored.handle(record(id(1), profile(), created_at())),
        Ok(completed())
    );
}
