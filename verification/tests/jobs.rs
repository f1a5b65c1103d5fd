use shamebot::job::{JobType, TaskJobs};
use shamebot::text::{digit_str, push_decimal, push_signed_decimal, str_equals};

#[test]
fn kinds_have_their_lower_case_names() {
    assert_eq!(JobType::Pester.as_str(), "pester");
    assert_eq!(JobType::Overdue.as_str(), "overdue");
    assert_eq!(JobType::Reminder.as_str(), "reminder");
    assert_eq!(JobType::Unknown.as_str(), "unknown");
}

#[test]
fn kinds_are_found_from_their_names() {
    assert_eq!(JobType::from("pester"), JobType::Pester);
    assert_eq!(JobType::from("overdue"), JobType::Overdue);
    assert_eq!(JobType::from("reminder"), JobType::Reminder);
    assert_eq!(JobType::from("unknown"), JobType::Unknown);
    assert_eq!(JobType::from(""), JobType::Unknown);
    assert_eq!(JobType::from("Pester"), JobType::Unknown);
    assert_eq!(JobType::from("pester "), JobType::Unknown);
    assert_eq!(JobType::from("pest"), JobType::Unknown);
}

#[test]
fn names_round_trip() {
    for kind in [JobType::Pester, JobType::Overdue, JobType::Reminder, JobType::Unknown] {
        assert_eq!(JobType::from(kind.as_str()), kind);
    }
}

#[test]
fn only_overdue_and_reminder_fire_once() {
    assert!(!JobType::Pester.is_one_shot());
    assert!(JobType::Overdue.is_one_shot());
    assert!(JobType::Reminder.is_one_shot());
    assert!(!JobType::Unknown.is_one_shot());
}

#[test]
fn a_record_has_an_entry_for_each_of_the_three_kinds() {
    let jobs = TaskJobs { pester: Some(7), reminder: None, overdue: Some(9) };
    assert_eq!(jobs.get(&JobType::Pester), Some(Some(7)));
    assert_eq!(jobs.get(&JobType::Reminder), Some(None));
    assert_eq!(jobs.get(&JobType::Overdue), Some(Some(9)));
    assert_eq!(jobs.get(&JobType::Unknown), None);
    assert!(jobs.has_any());
}

#[test]
fn the_empty_record_names_no_trigger() {
    let jobs = TaskJobs::empty();
    assert_eq!(jobs, TaskJobs { pester: None, reminder: None, overdue: None });
    assert!(!jobs.has_any());
    assert!(TaskJobs { pester: None, reminder: Some(1), overdue: None }.has_any());
    assert!(TaskJobs { pester: None, reminder: None, overdue: Some(1) }.has_any());
}

#[test]
fn string_slices_are_equal_when_their_characters_are() {
    assert!(str_equals("", ""));
    assert!(str_equals("pester", "pester"));
    assert!(!str_equals("pester", "pestes"));
    assert!(!str_equals("pester", "peste"));
    assert!(!str_equals("a", ""));
    assert!(str_equals("zażółć", "zażółć"));
    assert!(!str_equals("zażółć", "zazolc"));
}

#[test]
fn numbers_are_written_in_decimal() {
    let mut out = String::from("n=");
    push_decimal(&mut out, 0);
    out.push(' ');
    push_decimal(&mut out, 9);
    out.push(' ');
    push_decimal(&mut out, 10);
    out.push(' ');
    push_decimal(&mut out, 1_700_000_300);
    out.push(' ');
    push_decimal(&mut out, u128::MAX);
    assert_eq!(out, "n=0 9 10 1700000300 340282366920938463463374607431768211455");
}

#[test]
fn negative_numbers_carry_a_minus_sign() {
    let mut out = String::new();
    push_signed_decimal(&mut out, -1);
    out.push(' ');
    push_signed_decimal(&mut out, 0);
    out.push(' ');
    push_signed_decimal(&mut out, i64::MIN);
    out.push(' ');
    push_signed_decimal(&mut out, i64::MAX);
    assert_eq!(out, "-1 0 -9223372036854775808 9223372036854775807");
}

#[test]
fn digits_have_their_characters() {
    let all: String = (0u8..10).map(digit_str).collect();
    assert_eq!(all, "0123456789");
}
