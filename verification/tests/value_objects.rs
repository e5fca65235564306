use account_management_service::domain::calendar::{CalendarDate, Timestamp};
use account_management_service::domain::email::{Email, InvalidEmail};
use account_management_service::domain::user_account_id::{uuid_hyphenated, UserAccountId};

const RAW_ID: &str = "26e91668-f9fc-4be4-bd9d-321fba42e18b";
const RAW_ID_VALUE: u128 = 0x26e9_1668_f9fc_4be4_bd9d_321f_ba42_e18b;

#[test]
fn validates_trims_and_normalizes_email() {
    let email = Email::parse("  Alice@Example.COM ").expect("test email must be valid");

    assert_eq!(email.as_str(), "alice@example.com");
    assert_eq!(Email::parse("not-an-email"), Err(InvalidEmail));
}

#[test]
fn value_objects_parses_and_displays_email() {
    let email = Email::parse("alice@example.com").expect("email must be valid");

    assert_eq!(email.as_str(), "alice@example.com");
}

#[test]
fn rejects_alternate_mailbox_spellings() {
    for value in [
        "Alice <alice@example.com>",
        "Bob <alice@example.com>",
        "<alice@example.com>",
        "\"alice\"@example.com",
        "alice@[127.0.0.1]",
    ] {
        assert_eq!(Email::parse(value), Err(InvalidEmail), "accepted {value}");
    }
}

#[test]
fn normalizes_every_construction_path_and_round_trips() {
    let expected = Email::parse("alice+tag@example.com").expect("valid email");
    for value in ["alice+tag@example.com", "Alice+Tag@EXAMPLE.COM", "  Alice+Tag@Example.com  "] {
        let parsed = Email::parse(value).expect("valid email");
        assert_eq!(parsed, expected);
        assert_eq!(parsed.as_str(), "alice+tag@example.com");
        assert_eq!(Email::parse(parsed.as_str()).expect("canonical email"), parsed);
    }
    assert!(Email::parse("invalid").is_err());
}

#[test]
fn mailbox_equality_ignores_domain_case_only() {
    let a = Email::parse("alice@example.com").unwrap();
    let b = Email::parse("ALICE@EXAMPLE.COM").unwrap();
    let c = Email::parse("bob@example.com").unwrap();
    assert!(a.same_address(&b));
    assert!(!a.same_address(&c));
    assert_eq!(a.clone(), a);
}

#[test]
fn creates_converts_and_displays_user_account_id() {
    let id = UserAccountId::from_uuid(RAW_ID_VALUE);
    let parsed = UserAccountId::parse(RAW_ID).expect("UUID must be valid");

    assert_eq!(id.as_uuid(), RAW_ID_VALUE);
    assert_eq!(id, parsed);
    assert_eq!(id.to_hyphenated(), RAW_ID);
}

#[test]
fn parses_valid_user_account_id_and_rejects_invalid_one() {
    let id = UserAccountId::parse(RAW_ID).expect("UUID must be valid");

    assert_eq!(id.to_hyphenated(), RAW_ID);
    assert!(UserAccountId::parse("not-a-uuid").is_err());
}

#[test]
fn creates_random_id_by_default() {
    let id = UserAccountId::default();

    assert_eq!((id.as_uuid() >> 76) & 0xf, 4);
    assert_eq!((id.as_uuid() >> 62) & 0x3, 2);
    assert_ne!(UserAccountId::new(), id);
}

#[test]
fn accepts_other_uuid_spellings() {
    let expected = UserAccountId::from_uuid(RAW_ID_VALUE);
    assert_eq!(UserAccountId::parse("26e91668f9fc4be4bd9d321fba42e18b"), Ok(expected));
    assert_eq!(UserAccountId::parse("{26e91668-f9fc-4be4-bd9d-321fba42e18b}"), Ok(expected));
    assert_eq!(uuid_hyphenated(1), "00000000-0000-0000-0000-000000000001");
}

#[test]
fn calendar_dates_follow_the_gregorian_rules() {
    assert!(CalendarDate::from_ymd(2024, 2, 29).is_some());
    assert!(CalendarDate::from_ymd(2023, 2, 29).is_none());
    assert!(CalendarDate::from_ymd(1900, 2, 29).is_none());
    assert!(CalendarDate::from_ymd(2000, 2, 29).is_some());
    assert!(CalendarDate::from_ymd(2026, 4, 31).is_none());
    assert!(CalendarDate::from_ymd(2026, 13, 1).is_none());
    assert!(CalendarDate::from_ymd(2026, 1, 0).is_none());
    let later = CalendarDate::from_ymd(2026, 9, 15).unwrap();
    let earlier = CalendarDate::from_ymd(2026, 9, 14).unwrap();
    assert!(later.is_after(&earlier));
    assert!(!earlier.is_after(&later));
    assert!(!earlier.is_after(&earlier));
    assert!(earlier.same_day(&CalendarDate::from_ymd(2026, 9, 14).unwrap()));
    assert_eq!((later.year(), later.month(), later.day()), (2026, 9, 15));
}

#[test]
fn reads_iso_dates_and_utc_days() {
    assert_eq!(CalendarDate::parse_iso("1990-05-12"), CalendarDate::from_ymd(1990, 5, 12));
    assert_eq!(CalendarDate::parse_iso("1990-02-30"), None);
    assert_eq!(CalendarDate::parse_iso("not a date"), None);
    assert_eq!(Timestamp::new(1_789_905_600, 0).utc_date(), CalendarDate::from_ymd(2026, 9, 20));
    assert_eq!(Timestamp::new(0, 0).utc_date(), CalendarDate::from_ymd(1970, 1, 1));
    assert_eq!(Timestamp::new(-1, 0).utc_date(), CalendarDate::from_ymd(1969, 12, 31));
    assert_eq!(Timestamp::new(i64::MAX, 0).utc_date(), None);
    assert!(Timestamp::new(5, 7).same_instant(&Timestamp::new(5, 7)));
    assert!(!Timestamp::new(5, 7).same_instant(&Timestamp::new(5, 8)));
}
