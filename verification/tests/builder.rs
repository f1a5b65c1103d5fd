use shamebot::calendar::{CalendarTime, MAX_UTC_SECONDS, MIN_UTC_SECONDS};
use shamebot::expression::{build_expressions, Schedule, TriggerExpression};
use shamebot::job::JobType;

fn at(secs: i64) -> (u32, u32, u32, u32, u32) {
    let t = CalendarTime::from_timestamp(secs).expect("an instant of the calendar");
    (t.month, t.day, t.hour, t.minute, t.second)
}

#[test]
fn reminder_and_overdue_fire_times_for_a_due_instant() {
    let exprs = build_expressions(0, None, Some(1_700_000_000), false);
    assert_eq!(exprs.len(), 2);
    assert_eq!(exprs[0].job_type, JobType::Overdue);
    assert_eq!(exprs[0].fire_time(), Some(1_700_000_300));
    assert_eq!(exprs[1].job_type, JobType::Reminder);
    assert_eq!(exprs[1].fire_time(), Some(1_699_996_400));
    match exprs[1].schedule {
        Schedule::At { instant, time } => {
            assert_eq!(instant, 1_699_996_400);
            assert_eq!(
                (time.month, time.day, time.hour, time.minute, time.second),
                (11, 14, 21, 13, 20)
            );
        }
        Schedule::Every { .. } => panic!("a reminder fires once"),
    }
    assert_eq!(exprs[1].to_cron().as_deref(), Some("20 13 21 14 11 *"));
    assert_eq!(exprs[0].to_cron().as_deref(), Some("20 18 22 14 11 *"));
}

#[test]
fn fire_times_are_exact_for_other_due_instants() {
    for due in [0i64, -1, 59, 3_600, 86_399, 951_782_400, 4_102_444_800, -2_208_988_800] {
        let exprs = build_expressions(12, None, Some(due), true);
        assert_eq!(exprs.len(), 2);
        assert_eq!(exprs[0].fire_time(), Some(due + 300));
        assert_eq!(exprs[1].fire_time(), Some(due - 3_600));
    }
}

#[test]
fn pester_is_emitted_for_a_positive_interval_of_an_open_task() {
    let exprs = build_expressions(0, Some(4), None, false);
    assert_eq!(exprs.len(), 1);
    assert_eq!(exprs[0].job_type, JobType::Pester);
    assert_eq!(exprs[0].schedule, Schedule::Every { interval: 4 });
    assert!(!exprs[0].elapsed);
    assert_eq!(exprs[0].fire_time(), None);
    assert_eq!(exprs[0].to_cron().as_deref(), Some("1/4 * * * * *"));
}

#[test]
fn pester_is_not_emitted_for_a_completed_task() {
    assert!(build_expressions(0, Some(4), None, true).is_empty());
}

#[test]
fn pester_is_not_emitted_for_an_interval_of_zero_or_less() {
    assert!(build_expressions(0, Some(0), None, false).is_empty());
    assert!(build_expressions(0, Some(-3), None, false).is_empty());
    assert!(build_expressions(0, Some(i16::MIN), None, false).is_empty());
    assert!(build_expressions(0, None, None, false).is_empty());
}

#[test]
fn all_three_are_emitted_in_the_order_pester_overdue_reminder() {
    let exprs = build_expressions(1_000, Some(i16::MAX), Some(2_000_000_000), false);
    let kinds: Vec<JobType> = exprs.iter().map(|e| e.job_type).collect();
    assert_eq!(kinds, vec![JobType::Pester, JobType::Overdue, JobType::Reminder]);
    assert_eq!(exprs[0].schedule, Schedule::Every { interval: i16::MAX });
    assert_eq!(exprs[0].to_cron(), None);
}

#[test]
fn one_shots_are_emitted_for_a_completed_task_with_a_due_instant() {
    let exprs = build_expressions(0, Some(4), Some(1_700_000_000), true);
    let kinds: Vec<JobType> = exprs.iter().map(|e| e.job_type).collect();
    assert_eq!(kinds, vec![JobType::Overdue, JobType::Reminder]);
}

#[test]
fn past_instants_are_still_emitted_and_marked_as_elapsed() {
    let due = 1_700_000_000;
    let before = build_expressions(due - 3_601, None, Some(due), false);
    assert_eq!((before[0].elapsed, before[1].elapsed), (false, false));
    let at_reminder = build_expressions(due - 3_600, None, Some(due), false);
    assert_eq!((at_reminder[0].elapsed, at_reminder[1].elapsed), (false, false));
    let between = build_expressions(due, None, Some(due), false);
    assert_eq!((between[0].elapsed, between[1].elapsed), (false, true));
    let at_overdue = build_expressions(due + 300, None, Some(due), false);
    assert_eq!((at_overdue[0].elapsed, at_overdue[1].elapsed), (false, true));
    let after = build_expressions(due + 301, None, Some(due), false);
    assert_eq!((after[0].elapsed, after[1].elapsed), (true, true));
    assert_eq!(after[0].fire_time(), Some(due + 300));
    assert_eq!(after[1].fire_time(), Some(due - 3_600));
}

#[test]
fn the_builder_is_pure() {
    let a = build_expressions(5, Some(2), Some(1_700_000_000), false);
    let b = build_expressions(5, Some(2), Some(1_700_000_000), false);
    assert_eq!(a, b);
}

#[test]
fn instants_beyond_the_calendar_emit_no_one_shot() {
    let last = build_expressions(0, None, Some(MAX_UTC_SECONDS - 300), false);
    assert_eq!(last.len(), 2);
    assert_eq!(last[0].fire_time(), Some(MAX_UTC_SECONDS));
    let beyond = build_expressions(0, None, Some(MAX_UTC_SECONDS - 299), false);
    assert_eq!(beyond.len(), 1);
    assert_eq!(beyond[0].job_type, JobType::Reminder);
    let first = build_expressions(0, None, Some(MIN_UTC_SECONDS + 3_600), false);
    assert_eq!(first.len(), 2);
    assert_eq!(first[1].fire_time(), Some(MIN_UTC_SECONDS));
    let below = build_expressions(0, None, Some(MIN_UTC_SECONDS + 3_599), false);
    assert_eq!(below.len(), 1);
    assert_eq!(below[0].job_type, JobType::Overdue);
    assert!(build_expressions(0, None, Some(i64::MAX), false).is_empty());
    assert!(build_expressions(0, None, Some(i64::MIN), false).is_empty());
}

#[test]
fn the_calendar_ends_where_its_bounds_say() {
    assert_eq!(at(MIN_UTC_SECONDS), (1, 1, 0, 0, 0));
    assert_eq!(at(MAX_UTC_SECONDS), (12, 31, 23, 59, 59));
    assert_eq!(CalendarTime::from_timestamp(MIN_UTC_SECONDS - 1), None);
    assert_eq!(CalendarTime::from_timestamp(MAX_UTC_SECONDS + 1), None);
    assert_eq!(CalendarTime::from_timestamp(i64::MIN), None);
    assert_eq!(CalendarTime::from_timestamp(i64::MAX), None);
}

#[test]
fn calendar_fields_of_known_instants() {
    assert_eq!(at(0), (1, 1, 0, 0, 0));
    assert_eq!(at(-1), (12, 31, 23, 59, 59));
    assert_eq!(at(1_431_648_000), (5, 15, 0, 0, 0));
    assert_eq!(at(1_709_210_096), (2, 29, 12, 34, 56));
    assert_eq!(at(951_827_696), (2, 29, 12, 34, 56));
    assert_eq!(at(-86_400 * 365 - 1), (12, 31, 23, 59, 59));
}

#[test]
fn clock_fields_are_the_remainders_of_the_count() {
    for secs in [-1_000_000_007i64, -3_601, -61, 0, 61, 3_601, 86_399, 1_700_000_000] {
        let t = CalendarTime::from_timestamp(secs).expect("an instant of the calendar");
        assert_eq!(t.second as i64, secs.rem_euclid(60));
        assert_eq!(t.minute as i64, secs.rem_euclid(3_600) / 60);
        assert_eq!(t.hour as i64, secs.rem_euclid(86_400) / 3_600);
    }
}

#[test]
fn one_shot_takes_its_fields_as_given() {
    let time = CalendarTime { month: 7, day: 4, hour: 9, minute: 5, second: 0 };
    let e = TriggerExpression::one_shot(JobType::Overdue, 100, time, 100);
    assert_eq!(e.job_type, JobType::Overdue);
    assert_eq!(e.schedule, Schedule::At { instant: 100, time });
    assert!(!e.elapsed);
    assert!(TriggerExpression::one_shot(JobType::Overdue, 100, time, 101).elapsed);
    assert_eq!(e.to_cron().as_deref(), Some("0 5 9 4 7 *"));
}

#[test]
fn a_recurring_schedule_has_a_text_only_where_the_text_recurs_with_its_interval() {
    let with_text: Vec<i16> = (i16::MIN..=i16::MAX)
        .filter(|n| TriggerExpression::pester(*n).to_cron().is_some())
        .collect();
    assert_eq!(with_text, vec![2, 3, 4, 5, 6, 10, 12, 15, 20, 30, 60]);
    assert_eq!(TriggerExpression::pester(2).to_cron().as_deref(), Some("1/2 * * * * *"));
    assert_eq!(TriggerExpression::pester(60).to_cron().as_deref(), Some("1/60 * * * * *"));
    assert_eq!(Schedule::Every { interval: 15 }.to_cron().as_deref(), Some("1/15 * * * * *"));
    for n in [i16::MIN, -7, 0, 1, 7, 59, 61, 120] {
        assert_eq!(TriggerExpression::pester(n).to_cron(), None);
    }
}

#[test]
fn the_seconds_that_a_text_names_lie_one_interval_apart() {
    for n in [2i64, 3, 4, 5, 6, 10, 12, 15, 20, 30, 60] {
        let named: Vec<i64> =
            (0..180).filter(|t| (1..=59).contains(&(t % 60)) && (t % 60 - 1) % n == 0).collect();
        for pair in named.windows(2) {
            assert_eq!(pair[1] - pair[0], n);
        }
        assert_eq!(named[0], 1);
    }
}

#[test]
fn a_one_shot_schedule_has_a_text_only_where_its_fields_lie_in_their_ranges() {
    let good = CalendarTime { month: 12, day: 31, hour: 23, minute: 59, second: 59 };
    assert_eq!(Schedule::At { instant: 0, time: good }.to_cron().as_deref(), Some("59 59 23 31 12 *"));
    for bad in [
        CalendarTime { month: 13, ..good },
        CalendarTime { month: 0, ..good },
        CalendarTime { day: 0, ..good },
        CalendarTime { day: 32, ..good },
        CalendarTime { hour: 24, ..good },
        CalendarTime { minute: 60, ..good },
        CalendarTime { second: 60, ..good },
    ] {
        assert_eq!(Schedule::At { instant: 0, time: bad }.to_cron(), None);
    }
}

#[test]
fn the_dispatch_loop_reads_every_text_that_is_given() {
    let mut texts: Vec<String> = (1..=60i16)
        .filter_map(|n| TriggerExpression::pester(n).to_cron())
        .collect();
    for secs in [0i64, 1_699_996_400, 1_700_000_300, 1_709_210_096, MIN_UTC_SECONDS, MAX_UTC_SECONDS] {
        let time = CalendarTime::from_timestamp(secs).unwrap();
        texts.push(Schedule::At { instant: secs, time }.to_cron().unwrap());
    }
    assert_eq!(texts.len(), 17);
    for text in texts {
        assert!(tokio_cron_scheduler::JobBuilder::new().with_schedule(text.as_str()).is_ok());
    }
    assert!(tokio_cron_scheduler::JobBuilder::new().with_schedule("1/0 * * * * *").is_err());
}

#[test]
fn a_schedule_is_well_formed_for_the_kind_that_it_suits() {
    let every = Schedule::Every { interval: 7 };
    assert!(every.is_well_formed_for(JobType::Pester));
    assert!(!every.is_well_formed_for(JobType::Overdue));
    assert!(!every.is_well_formed_for(JobType::Reminder));
    assert!(!every.is_well_formed_for(JobType::Unknown));
    assert!(!Schedule::Every { interval: 0 }.is_well_formed_for(JobType::Pester));
    assert!(!Schedule::Every { interval: -1 }.is_well_formed_for(JobType::Pester));
    assert!(Schedule::Every { interval: 1 }.is_well_formed_for(JobType::Pester));
    let time = CalendarTime::from_timestamp(1_700_000_300).unwrap();
    let at = Schedule::At { instant: 1_700_000_300, time };
    assert!(at.is_well_formed_for(JobType::Overdue));
    assert!(at.is_well_formed_for(JobType::Reminder));
    assert!(!at.is_well_formed_for(JobType::Pester));
    assert!(!at.is_well_formed_for(JobType::Unknown));
    let other = Schedule::At { instant: 1_700_000_301, time };
    assert!(!other.is_well_formed_for(JobType::Overdue));
    let thirteenth = Schedule::At { instant: 1_700_000_300, time: CalendarTime { month: 13, ..time } };
    assert!(!thirteenth.is_well_formed_for(JobType::Overdue));
    let beyond = Schedule::At { instant: MAX_UTC_SECONDS + 1, time };
    assert!(!beyond.is_well_formed_for(JobType::Reminder));
    for e in build_expressions(0, Some(9), Some(1_700_000_000), false) {
        assert!(e.schedule.is_well_formed_for(e.job_type));
    }
}

#[test]
fn calendar_fields_stay_in_their_ranges() {
    let mut secs = MIN_UTC_SECONDS;
    while secs <= MAX_UTC_SECONDS {
        let t = CalendarTime::from_timestamp(secs).expect("an instant of the calendar");
        assert!((1..=12).contains(&t.month));
        assert!((1..=31).contains(&t.day));
        assert!(t.hour <= 23 && t.minute <= 59 && t.second <= 59);
        assert_eq!(t.second as i64, secs.rem_euclid(60));
        assert_eq!(t.minute as i64, secs.rem_euclid(3_600) / 60);
        assert_eq!(t.hour as i64, secs.rem_euclid(86_400) / 3_600);
        secs += 1_000_000_007_123;
    }
}

#[test]
fn the_days_of_a_leap_year_come_in_their_order() {
    let start = 1_704_067_200i64;
    let lengths = [31u32, 29, 31, 30, 31, 30, 31, 31, 30, 31, 30, 31];
    let mut day_of_year = 0i64;
    for (m, len) in lengths.iter().enumerate() {
        for d in 1..=*len {
            let t = CalendarTime::from_timestamp(start + day_of_year * 86_400 + 86_399).unwrap();
            assert_eq!((t.month, t.day), (m as u32 + 1, d));
            assert_eq!((t.hour, t.minute, t.second), (23, 59, 59));
            day_of_year += 1;
        }
    }
    assert_eq!(day_of_year, 366);
}
