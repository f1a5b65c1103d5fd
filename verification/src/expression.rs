//! Trigger expressions: when a trigger of a task fires.
//!
//! The builder is pure. It takes the reference time as an argument and turns
//! a task's recurrence interval and due timestamp into at most three
//! structured expressions. The textual form that a cron-style dispatch loop
//! reads is made from the structured one only on request.

use vstd::prelude::*;
use vstd::arithmetic::div_mod::{
    lemma_fundamental_div_mod, lemma_mod_multiples_vanish, lemma_small_mod,
};
use crate::calendar::{representable, utc_day, utc_hour, utc_minute, utc_month, utc_second, CalendarTime};
use crate::job::JobType;
use crate::text::{decimal, push_decimal};

verus! {

/// How long before the due instant the reminder fires, in seconds.
pub const REMINDER_LEAD_SECONDS: i64 = 3_600;

/// How long after the due instant the overdue notice fires, in seconds.
pub const OVERDUE_DELAY_SECONDS: i64 = 300;

/// When a trigger fires.
#[derive(Debug, Clone, Copy, PartialEq, Eq, Structural)]
pub enum Schedule {
    /// Again and again, every `interval` seconds.
    Every { interval: i16 },
    /// Once, at `instant`, whose calendar fields in UTC are `time`.
    At { instant: i64, time: CalendarTime },
}

/// One trigger of a task: its kind, when it fires, and whether that instant
/// had already passed at the reference time.
#[derive(Debug, Clone, Copy, PartialEq, Eq, Structural)]
pub struct TriggerExpression {
    pub job_type: JobType,
    pub schedule: Schedule,
    pub elapsed: bool,
}

/// The calendar fields of a representable instant.
pub open spec fn calendar_of(secs: int) -> CalendarTime {
    CalendarTime {
        month: utc_month(secs) as u32,
        day: utc_day(secs) as u32,
        hour: utc_hour(secs) as u32,
        minute: utc_minute(secs) as u32,
        second: utc_second(secs) as u32,
    }
}

/// The recurring expression of a pester trigger.
pub open spec fn pester_expression(interval: i16) -> TriggerExpression {
    TriggerExpression {
        job_type: JobType::Pester,
        schedule: Schedule::Every { interval },
        elapsed: false,
    }
}

/// The expression of a trigger that fires once, at `instant`.
pub open spec fn one_shot_expression(
    job_type: JobType,
    instant: i64,
    time: CalendarTime,
    now: i64,
) -> TriggerExpression {
    TriggerExpression { job_type, schedule: Schedule::At { instant, time }, elapsed: instant < now }
}

/// A pester trigger is due to a task that recurs with a positive interval
/// and is not completed.
pub open spec fn emits_pester(interval: Option<i16>, completed: bool) -> bool {
    interval matches Some(n) && n > 0 && !completed
}

/// A one-shot trigger is due to a task with a due instant, where the instant
/// moved by `offset` seconds still has calendar fields.
pub open spec fn emits_one_shot(due_at: Option<i64>, offset: int) -> bool {
    due_at matches Some(due) && representable(due + offset)
}

/// Nothing, or the one pester expression of a task.
pub open spec fn pester_part(interval: Option<i16>, completed: bool) -> Seq<TriggerExpression> {
    if emits_pester(interval, completed) {
        seq![pester_expression(interval->Some_0)]
    } else {
        seq![]
    }
}

/// Nothing, or the one expression of kind `job_type` that fires `offset`
/// seconds from the due instant.
pub open spec fn one_shot_part(
    job_type: JobType,
    now: i64,
    due_at: Option<i64>,
    offset: int,
) -> Seq<TriggerExpression> {
    if emits_one_shot(due_at, offset) {
        let instant = due_at->Some_0 + offset;
        seq![one_shot_expression(job_type, instant as i64, calendar_of(instant), now)]
    } else {
        seq![]
    }
}

/// The expressions of a task, in the order pester, overdue, reminder.
pub open spec fn expressions(
    now: i64,
    interval: Option<i16>,
    due_at: Option<i64>,
    completed: bool,
) -> Seq<TriggerExpression> {
    pester_part(interval, completed) + one_shot_part(
        JobType::Overdue,
        now,
        due_at,
        OVERDUE_DELAY_SECONDS as int,
    ) + one_shot_part(JobType::Reminder, now, due_at, -(REMINDER_LEAD_SECONDS as int))
}

/// Whether the seconds field `1/n` of a cron text names the second `s` of
/// a minute: the field steps from second 1 by `n` and ends with second 59.
pub open spec fn steps_on(n: int, s: int) -> bool {
    1 <= s <= 59 && (s - 1) % n == 0
}

/// Whether the cron text `1/n * * * * *` recurs every `n` seconds: that is
/// so where `n` is at least 2 and divides the minute. For any other `n` the
/// steps of one minute do not join those of the next at the same distance.
pub open spec fn recurs_by_text(interval: i16) -> bool {
    interval >= 2 && 60int % (interval as int) == 0
}

impl Schedule {
    /// Whether the schedule is one that a trigger of kind `kind` can have:
    /// a pester trigger recurs, with a positive interval; an overdue or
    /// reminder trigger fires once, at an instant of the calendar whose
    /// fields the schedule carries as they are.
    pub open spec fn well_formed_for(self, kind: JobType) -> bool {
        match self {
            Schedule::Every { interval } => kind == JobType::Pester && interval > 0,
            Schedule::At { instant, time } => {
                &&& kind.one_shot()
                &&& representable(instant as int)
                &&& time == calendar_of(instant as int)
            },
        }
    }

    /// The six fields that a cron-style dispatch loop reads: second, minute,
    /// hour, day of the month, month and day of the week. There is a text
    /// for a recurring schedule only where the text recurs with the interval
    /// of the schedule, counted in seconds, and for a one-shot schedule only
    /// where its calendar fields lie in their ranges. The text of a one-shot
    /// schedule names the fields of its instant and leaves the day of the
    /// week open.
    pub open spec fn cron_text(self) -> Option<Seq<char>> {
        match self {
            Schedule::Every { interval } => if recurs_by_text(interval) {
                Some("1/"@ + decimal(interval as nat) + " * * * * *"@)
            } else {
                None
            },
            Schedule::At { instant, time } => if time.in_range() {
                Some(
                    decimal(time.second as nat) + " "@ + decimal(time.minute as nat) + " "@
                        + decimal(time.hour as nat) + " "@ + decimal(time.day as nat) + " "@
                        + decimal(time.month as nat) + " *"@,
                )
            } else {
                None
            },
        }
    }

    /// Whether the schedule is one that a trigger of kind `kind` can have.
    pub fn is_well_formed_for(&self, kind: JobType) -> (fits: bool)
        ensures
            fits == self.well_formed_for(kind),
    {
        match *self {
            Schedule::Every { interval } => kind == JobType::Pester && interval > 0,
            Schedule::At { instant, time } => {
                if !kind.is_one_shot() {
                    return false;
                }
                match CalendarTime::from_timestamp(instant) {
                    Some(fields) => {
                        assert(fields == calendar_of(instant as int));
                        fields == time
                    },
                    None => false,
                }
            },
        }
    }

    /// The textual form of the schedule, where it has one.
    pub fn to_cron(&self) -> (text: Option<String>)
        ensures
            text is Some == self.cron_text() is Some,
            text matches Some(t) ==> t@ == self.cron_text()->Some_0,
    {
        let mut text = String::new();
        match *self {
            Schedule::Every { interval } => {
                if interval < 2 || 60 % interval != 0 {
                    return None;
                }
                text.append("1/");
                push_decimal(&mut text, interval as u128);
                text.append(" * * * * *");
            },
            Schedule::At { instant, time } => {
                if time.month < 1 || time.month > 12 || time.day < 1 || time.day > 31 || time.hour
                    > 23 || time.minute > 59 || time.second > 59 {
                    return None;
                }
                push_decimal(&mut text, time.second as u128);
                text.append(" ");
                push_decimal(&mut text, time.minute as u128);
                text.append(" ");
                push_decimal(&mut text, time.hour as u128);
                text.append(" ");
                push_decimal(&mut text, time.day as u128);
                text.append(" ");
                push_decimal(&mut text, time.month as u128);
                text.append(" *");
            },
        }
        assert(text@ =~= self.cron_text()->Some_0);
        Some(text)
    }
}

impl TriggerExpression {
    /// The schedule is one that a trigger of the kind can have, and a
    /// recurring expression is not marked as elapsed.
    pub open spec fn well_formed(self) -> bool {
        &&& self.schedule.well_formed_for(self.job_type)
        &&& self.schedule is Every ==> !self.elapsed
    }

    /// The textual form of the expression, where its schedule has one.
    pub open spec fn cron_text(self) -> Option<Seq<char>> {
        self.schedule.cron_text()
    }

    /// The recurring expression of a pester trigger.
    pub fn pester(interval: i16) -> (expr: TriggerExpression)
        ensures
            expr == pester_expression(interval),
    {
        TriggerExpression {
            job_type: JobType::Pester,
            schedule: Schedule::Every { interval },
            elapsed: false,
        }
    }

    /// The expression of a trigger that fires once, at `instant`, whose
    /// calendar fields are `time`. It is marked as elapsed where the instant
    /// lies before `now`.
    pub fn one_shot(job_type: JobType, instant: i64, time: CalendarTime, now: i64) -> (expr:
        TriggerExpression)
        ensures
            expr == one_shot_expression(job_type, instant, time, now),
    {
        TriggerExpression { job_type, schedule: Schedule::At { instant, time }, elapsed: instant < now }
    }

    /// The instant at which a one-shot expression fires; `None` for a
    /// recurring one.
    pub fn fire_time(&self) -> (instant: Option<i64>)
        ensures
            instant == match self.schedule {
                Schedule::Every { .. } => None::<i64>,
                Schedule::At { instant, .. } => Some(instant),
            },
    {
        match self.schedule {
            Schedule::Every { .. } => None,
            Schedule::At { instant, .. } => Some(instant),
        }
    }

    /// The textual form of the expression, where its schedule has one.
    pub fn to_cron(&self) -> (text: Option<String>)
        ensures
            text is Some == self.cron_text() is Some,
            text matches Some(t) ==> t@ == self.cron_text()->Some_0,
    {
        self.schedule.to_cron()
    }
}

/// Appends the one-shot expression that fires `offset` seconds from `due`,
/// where that instant has calendar fields.
fn push_one_shot(
    exprs: &mut Vec<TriggerExpression>,
    job_type: JobType,
    now: i64,
    due: i64,
    offset: i64,
)
    requires
        -86_400 <= offset <= 86_400,
    ensures
        final(exprs)@ == old(exprs)@ + one_shot_part(job_type, now, Some(due), offset as int),
{
    if let Some(instant) = due.checked_add(offset) {
        if let Some(time) = CalendarTime::from_timestamp(instant) {
            exprs.push(TriggerExpression::one_shot(job_type, instant, time, now));
            assert(time == calendar_of(instant as int));
            assert(exprs@ =~= old(exprs)@ + one_shot_part(
                job_type,
                now,
                Some(due),
                offset as int,
            ));
            return;
        }
    }
    assert(exprs@ =~= old(exprs)@ + one_shot_part(job_type, now, Some(due), offset as int));
}

/// The expressions of a task at the reference time `now`: a pester
/// expression where the task recurs with a positive interval and is not
/// completed, then an overdue and a reminder expression where it has a due
/// instant. An expression whose instant has passed is emitted all the same,
/// marked as elapsed.
pub fn build_expressions(
    now: i64,
    interval: Option<i16>,
    due_at: Option<i64>,
    completed: bool,
) -> (exprs: Vec<TriggerExpression>)
    ensures
        exprs@ == expressions(now, interval, due_at, completed),
{
    let mut exprs: Vec<TriggerExpression> = Vec::new();
    if let Some(n) = interval {
        if n > 0 && !completed {
            exprs.push(TriggerExpression::pester(n));
        }
    }
    assert(exprs@ =~= pester_part(interval, completed));
    if let Some(due) = due_at {
        push_one_shot(&mut exprs, JobType::Overdue, now, due, OVERDUE_DELAY_SECONDS);
        push_one_shot(&mut exprs, JobType::Reminder, now, due, -REMINDER_LEAD_SECONDS);
    }
    assert(exprs@ =~= expressions(now, interval, due_at, completed));
    exprs
}

/// A task has at most three expressions, one of each kind, and each is
/// well-formed.
pub proof fn law_expressions_are_well_formed(
    now: i64,
    interval: Option<i16>,
    due_at: Option<i64>,
    completed: bool,
)
    ensures
        expressions(now, interval, due_at, completed).len() <= 3,
        forall|j: int|
            0 <= j < expressions(now, interval, due_at, completed).len() ==> (#[trigger] expressions(
                now,
                interval,
                due_at,
                completed,
            )[j]).well_formed(),
        forall|i: int, j: int|
            0 <= i < j < expressions(now, interval, due_at, completed).len() ==> (#[trigger] expressions(
                now,
                interval,
                due_at,
                completed,
            )[i]).job_type != (#[trigger] expressions(now, interval, due_at, completed)[j]).job_type,
{
}

/// The reminder of a task fires an hour before the due instant and its
/// overdue notice five minutes after it, to the second, whatever the
/// reference time; and each of the two is emitted wherever its own instant
/// can be told on the calendar.
pub proof fn law_fire_times(now: i64, interval: Option<i16>, due: i64, completed: bool)
    ensures
        ({
            let exprs = expressions(now, interval, Some(due), completed);
            &&& forall|j: int|
                0 <= j < exprs.len() && (#[trigger] exprs[j]).job_type == JobType::Reminder
                    ==> exprs[j].schedule == (Schedule::At {
                    instant: (due - REMINDER_LEAD_SECONDS) as i64,
                    time: calendar_of(due - REMINDER_LEAD_SECONDS),
                }) && representable(due - REMINDER_LEAD_SECONDS)
            &&& forall|j: int|
                0 <= j < exprs.len() && (#[trigger] exprs[j]).job_type == JobType::Overdue
                    ==> exprs[j].schedule == (Schedule::At {
                    instant: (due + OVERDUE_DELAY_SECONDS) as i64,
                    time: calendar_of(due + OVERDUE_DELAY_SECONDS),
                }) && representable(due + OVERDUE_DELAY_SECONDS)
            &&& representable(due - REMINDER_LEAD_SECONDS) ==> exists|j: int|
                0 <= j < exprs.len() && (#[trigger] exprs[j]).job_type == JobType::Reminder
            &&& representable(due + OVERDUE_DELAY_SECONDS) ==> exists|j: int|
                0 <= j < exprs.len() && (#[trigger] exprs[j]).job_type == JobType::Overdue
        }),
{
    let exprs = expressions(now, interval, Some(due), completed);
    let p = pester_part(interval, completed);
    let o = one_shot_part(JobType::Overdue, now, Some(due), OVERDUE_DELAY_SECONDS as int);
    let r = one_shot_part(JobType::Reminder, now, Some(due), -(REMINDER_LEAD_SECONDS as int));
    if representable(due - REMINDER_LEAD_SECONDS) {
        assert(exprs[exprs.len() - 1].job_type == JobType::Reminder);
    }
    if representable(due + OVERDUE_DELAY_SECONDS) {
        assert(exprs[p.len() as int].job_type == JobType::Overdue);
    }
}

/// A pester expression is emitted exactly for a task that recurs with a
/// positive interval and is not completed, and it recurs with that
/// interval.
pub proof fn law_pester_expression(
    now: i64,
    interval: Option<i16>,
    due_at: Option<i64>,
    completed: bool,
)
    ensures
        ({
            let exprs = expressions(now, interval, due_at, completed);
            &&& emits_pester(interval, completed) <==> exists|j: int|
                0 <= j < exprs.len() && (#[trigger] exprs[j]).job_type == JobType::Pester
            &&& forall|j: int|
                0 <= j < exprs.len() && (#[trigger] exprs[j]).job_type == JobType::Pester
                    ==> exprs[j] == pester_expression(interval->Some_0)
        }),
{
    let exprs = expressions(now, interval, due_at, completed);
    if emits_pester(interval, completed) {
        assert(exprs[0].job_type == JobType::Pester);
    }
}

/// The seconds that the field `1/n` names, minute after minute, are those
/// that lie one second behind a multiple of `n`, where `n` is at least 2
/// and `k` times `n` is the minute.
proof fn lemma_steps(n: int, k: int, t: int)
    requires
        n >= 2,
        n * k == 60,
    ensures
        steps_on(n, t % 60) <==> (t - 1) % n == 0,
{
    let s = t % 60;
    let q = t / 60;
    assert(t - 1 == n * (k * q) + (s - 1)) by (nonlinear_arith)
        requires
            t == 60 * q + s,
            n * k == 60,
    ;
    lemma_mod_multiples_vanish(k * q, s - 1, n);
    assert((t - 1) % n == (s - 1) % n);
    if s == 0 {
        lemma_mod_multiples_vanish(-1, n - 1, n);
        lemma_small_mod((n - 1) as nat, n as nat);
        assert((s - 1) % n == n - 1);
    }
}

/// The cron text of a recurring schedule recurs with the interval of the
/// schedule: counted in seconds, the instants that its seconds field names
/// are exactly those that lie one second behind a multiple of the interval,
/// so that each lies one interval behind the last.
pub proof fn law_cron_text_recurs(interval: i16, t: int)
    requires
        recurs_by_text(interval),
    ensures
        steps_on(interval as int, t % 60) <==> (t - 1) % (interval as int) == 0,
{
    let n = interval as int;
    let k = 60int / n;
    lemma_fundamental_div_mod(60, n);
    lemma_steps(n, k, t);
}

} // verus!
