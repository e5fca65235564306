use account_management_service::domain::calendar::{CalendarDate, Timestamp};
use account_management_service::domain::email::Email;
use account_management_service::domain::user_account::commands::UserAccountCommand;
use account_management_service::domain::user_account::errors::UserAccountError;
use account_management_service::domain::user_account::events::UserAccountEvent;
use account_management_service::domain::user_account::UserAccount;
use account_management_service::domain::user_account_id::UserAccountId;

fn date(year: i32, month: u32, day: u32) -> CalendarDate {
    CalendarDate::from_ymd(year, month, day).unwrap()
}

/// Noon UTC on the given day of September 2026.
fn timestamp(day: u32) -> Timestamp {
    Timestamp::new(1_789_387_200 + (day as i64 - 14) * 86_400, 0)
}

fn id(value: u128) -> UserAccountId {
    UserAccountId::from_uuid(value)
}

fn email(value: &str) -> Email {
    Email::parse(value).unwrap()
}

fn command() -> UserAccountCommand {
    UserAccountCommand::CreateAccount {
        account_id: id(1),
        email: email("Alice@Example.com"),
        first_name: " Alice ".into(),
        last_name: " Smith ".into(),
        date_of_birth: date(1990, 5, 12),
        validation_date: date(2026, 9, 14),
        created_at: timestamp(14),
    }
}

fn created_event() -> UserAccountEvent {
    UserAccountEvent::AccountCreated {
        account_id: id(1),
        email: email("alice@example.com"),
        first_name: "Alice".into(),
        last_name: "Smith".into(),
        date_of_birth: date(1990, 5, 12),
        validation_date: date(2026, 9, 14),
        created_at: timestamp(14),
    }
}

fn decide(history: Vec<UserAccountEvent>, command: UserAccountCommand) -> Result<UserAccountEvent, UserAccountError> {
    let mut account = UserAccount::default();
    for event in history {
        account.apply(event);
    }
    account.handle(command)
}

#[test]
fn first_creation_records_normalized_profile_and_fixed_time() {
    assert!(UserAccount::default().created().is_none());
    assert_eq!(decide(vec![], command()), Ok(created_event()));
    let event = created_event();
    assert_eq!(event.event_type(), "account_created");
    assert_eq!(event.event_version(), "1");
}

#[test]
fn first_creation_rejects_invalid_profile_without_event() {
    let mut blank_first = command();
    let UserAccountCommand::CreateAccount { first_name, .. } = &mut blank_first;
    *first_name = " \t ".into();
    assert_eq!(decide(vec![], blank_first), Err(UserAccountError::EmptyFirstName));

    let mut blank_last = command();
    let UserAccountCommand::CreateAccount { last_name, .. } = &mut blank_last;
    *last_name = "  ".into();
    assert_eq!(decide(vec![], blank_last), Err(UserAccountError::EmptyLastName));

    let mut future_birth = command();
    let UserAccountCommand::CreateAccount { date_of_birth, .. } = &mut future_birth;
    *date_of_birth = date(2026, 9, 15);
    assert_eq!(
        decide(vec![], future_birth),
        Err(UserAccountError::FutureDateOfBirth {
            date_of_birth: date(2026, 9, 15),
            validation_date: date(2026, 9, 14),
        })
    );

    let mut today_birth = command();
    let UserAccountCommand::CreateAccount { date_of_birth, .. } = &mut today_birth;
    *date_of_birth = date(2026, 9, 14);
    let mut expected = created_event();
    let UserAccountEvent::AccountCreated { date_of_birth, .. } = &mut expected;
    *date_of_birth = date(2026, 9, 14);
    assert_eq!(decide(vec![], today_birth), Ok(expected));
}

#[test]
fn exact_retry_ignores_new_created_at_and_conflicting_intent_fails() {
    let mut retry = command();
    let UserAccountCommand::CreateAccount { created_at, .. } = &mut retry;
    *created_at = timestamp(15);
    assert_eq!(decide(vec![created_event()], retry), Err(UserAccountError::AlreadyCreated));

    let mut changes = Vec::new();
    let mut changed_id = command();
    let UserAccountCommand::CreateAccount { account_id, .. } = &mut changed_id;
    *account_id = id(2);
    changes.push(changed_id);
    let mut changed_email = command();
    let UserAccountCommand::CreateAccount { email: value, .. } = &mut changed_email;
    *value = email("bob@example.com");
    changes.push(changed_email);
    let mut changed_first = command();
    let UserAccountCommand::CreateAccount { first_name, .. } = &mut changed_first;
    *first_name = "Alicia".into();
    changes.push(changed_first);
    let mut changed_last = command();
    let UserAccountCommand::CreateAccount { last_name, .. } = &mut changed_last;
    *last_name = "Jones".into();
    changes.push(changed_last);
    let mut changed_birth = command();
    let UserAccountCommand::CreateAccount { date_of_birth, .. } = &mut changed_birth;
    *date_of_birth = date(1991, 5, 12);
    changes.push(changed_birth);
    let mut changed_validation = command();
    let UserAccountCommand::CreateAccount { validation_date, .. } = &mut changed_validation;
    *validation_date = date(2026, 9, 15);
    changes.push(changed_validation);
    for change in changes {
        assert_eq!(decide(vec![created_event()], change), Err(UserAccountError::AlreadyExistsWithDifferentData));
    }
}

#[test]
fn replay_and_snapshot_preserve_original_creation() {
    let mut account = UserAccount::default();
    account.apply(created_event());
    let created = account.created().unwrap();
    assert_eq!(created.account_id(), id(1));
    assert_eq!(created.email().as_str(), "alice@example.com");
    assert_eq!(created.first_name(), "Alice");
    assert_eq!(created.last_name(), "Smith");
    assert_eq!(created.date_of_birth(), date(1990, 5, 12));
    assert_eq!(created.validation_date(), date(2026, 9, 14));
    assert_eq!(created.created_at(), timestamp(14));
}

#[test]
fn command_names_its_account() {
    assert_eq!(command().account_id(), id(1));
}
