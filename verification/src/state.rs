//! The scheduler as a value: the rows of the job store, the live triggers,
//! the highest trigger id known, and what every operation makes of them.
//!
//! The functions here are ghost. The contracts of the scheduler's
//! operations are stated with them, and the laws of the scheduler are
//! proved of them.

use vstd::prelude::*;
use crate::expression::{
    calendar_of, emits_one_shot, emits_pester, expressions, Schedule, TriggerExpression,
    OVERDUE_DELAY_SECONDS, REMINDER_LEAD_SECONDS,
};
use crate::job::{JobType, TaskJobs};
use crate::model::Task;
use crate::registry::{without_kind, without_task, without_trigger, ActiveTrigger};
use crate::store::{
    distinct_ids, has_task, highest_of, put_task, set_job, stale_entries, task_of,
};

verus! {

/// What the notifier is told when a trigger fires: the task and the kind of
/// the trigger.
#[derive(Debug, Clone, Copy, PartialEq, Eq, Structural)]
pub struct Notification {
    pub task_id: u128,
    pub job_type: JobType,
}

/// The rows after every trigger id of one task was cleared.
pub open spec fn clear_jobs(rows: Seq<Task>, task_id: u128) -> Seq<Task> {
    set_job(
        set_job(set_job(rows, task_id, JobType::Pester, None), task_id, JobType::Overdue, None),
        task_id,
        JobType::Reminder,
        None,
    )
}

/// Whether a task, as it stands, is owed a trigger of a kind: the pester
/// trigger while it recurs with a positive interval and is not completed,
/// the overdue and the reminder trigger while it has a due instant from
/// which theirs can be told on the calendar.
pub open spec fn owed(task: Task, kind: JobType) -> bool {
    match kind {
        JobType::Pester => emits_pester(task.pester, task.checked),
        JobType::Overdue => emits_one_shot(task.due_at, OVERDUE_DELAY_SECONDS as int),
        JobType::Reminder => emits_one_shot(task.due_at, -(REMINDER_LEAD_SECONDS as int)),
        JobType::Unknown => false,
    }
}

/// The schedule of the trigger of a kind that a task is owed: the one of
/// its expression of that kind.
pub open spec fn owed_schedule(task: Task, kind: JobType) -> Schedule {
    match kind {
        JobType::Pester => Schedule::Every { interval: task.pester->Some_0 },
        JobType::Overdue => Schedule::At {
            instant: (task.due_at->Some_0 + OVERDUE_DELAY_SECONDS) as i64,
            time: calendar_of(task.due_at->Some_0 + OVERDUE_DELAY_SECONDS),
        },
        _ => Schedule::At {
            instant: (task.due_at->Some_0 - REMINDER_LEAD_SECONDS) as i64,
            time: calendar_of(task.due_at->Some_0 - REMINDER_LEAD_SECONDS),
        },
    }
}

/// The state of a scheduler.
pub ghost struct State {
    /// The tasks of the job store, each with its trigger record.
    pub rows: Seq<Task>,
    /// The live triggers by id.
    pub live: Map<u128, ActiveTrigger>,
    /// The highest trigger id that was ever issued or found in a record.
    pub last_id: u128,
    /// Whether the dispatch loop has finished initializing.
    pub started: bool,
}

impl State {
    /// No two tasks share an id; every live trigger stands under its own
    /// id, which is positive, and is of one of the three kinds; a task has
    /// at most one live trigger of each kind; and no id, live or recorded,
    /// lies above the highest one known.
    pub open spec fn wf(self) -> bool {
        &&& distinct_ids(self.rows)
        &&& forall|id: u128| #[trigger]
            self.live.contains_key(id) ==> self.live[id].id == id && 1 <= id <= self.last_id
                && self.live[id].job_type != JobType::Unknown
        &&& forall|a: u128, b: u128|
            #[trigger] self.live.contains_key(a) && #[trigger] self.live.contains_key(b)
                && self.live[a].task_id == self.live[b].task_id && self.live[a].job_type
                == self.live[b].job_type ==> a == b
        &&& forall|i: int|
            0 <= i < self.rows.len() ==> (#[trigger] self.rows[i]).jobs().at_most(self.last_id)
    }

    /// Every id in the trigger record of a task is the id of a live trigger
    /// of that task and kind.
    pub open spec fn agrees(self, task: Task) -> bool {
        forall|kind: JobType| (#[trigger] task.jobs().field(kind)) is Some ==> self.is_live_for(
            task.jobs().field(kind)->Some_0,
            task.id,
            kind,
        )
    }

    /// Every id in a trigger record is the id of a live trigger of that
    /// task and kind.
    pub open spec fn consistent(self) -> bool {
        forall|i: int| 0 <= i < self.rows.len() ==> self.agrees(#[trigger] self.rows[i])
    }

    /// Whether `id` is the live trigger of kind `kind` of task `task_id`.
    pub open spec fn is_live_for(self, id: u128, task_id: u128, kind: JobType) -> bool {
        self.live.contains_key(id) && self.live[id].belongs_to(task_id, kind)
    }

    /// The trigger record of a task, where the store has the task.
    pub open spec fn record(self, task_id: u128) -> Option<TaskJobs> {
        if has_task(self.rows, task_id) {
            Some(task_of(self.rows, task_id).jobs())
        } else {
            None
        }
    }

    /// After every trigger of a task was removed: none of its triggers is
    /// live, and its record is empty.
    pub open spec fn clear_task(self, task_id: u128) -> State {
        State {
            rows: clear_jobs(self.rows, task_id),
            live: without_task(self.live, task_id),
            ..self
        }
    }

    /// Whether an id is left to issue.
    pub open spec fn can_issue(self) -> bool {
        self.last_id < u128::MAX
    }

    /// The id under which a trigger of kind `kind` with this schedule is
    /// registered next: none where the schedule is not one that a trigger
    /// of the kind can have, and none where no id is left to issue.
    pub open spec fn issued(self, kind: JobType, schedule: Schedule) -> Option<u128> {
        if schedule.well_formed_for(kind) && self.can_issue() {
            Some((self.last_id + 1) as u128)
        } else {
            None
        }
    }

    /// After a trigger of kind `kind` was registered for a task: the
    /// trigger that the task had of that kind is gone, the new one is live
    /// under the next id, and the record of the task names it. Where the
    /// schedule is not one that a trigger of the kind can have, or no id is
    /// left to issue, the trigger is skipped and nothing changes.
    pub open spec fn register(self, task_id: u128, kind: JobType, schedule: Schedule) -> State {
        if schedule.well_formed_for(kind) && self.can_issue() {
            let id = (self.last_id + 1) as u128;
            State {
                rows: set_job(self.rows, task_id, kind, Some(id)),
                live: without_kind(self.live, task_id, kind).insert(
                    id,
                    ActiveTrigger { id, task_id, job_type: kind, schedule },
                ),
                last_id: id,
                ..self
            }
        } else {
            self
        }
    }

    /// After a trigger was registered for each expression, in their order.
    pub open spec fn register_each(self, task_id: u128, exprs: Seq<TriggerExpression>) -> State
        decreases exprs.len(),
    {
        if exprs.len() == 0 {
            self
        } else {
            self.register_each(task_id, exprs.drop_last()).register(
                task_id,
                exprs.last().job_type,
                exprs.last().schedule,
            )
        }
    }

    /// After the triggers of a task were computed anew at the reference
    /// time `now`: every trigger that the task had is removed, and one is
    /// registered for each expression of the task as it stands in the
    /// store. Nothing changes where the store does not have the task.
    pub open spec fn register_all(self, task_id: u128, now: i64) -> State {
        if has_task(self.rows, task_id) {
            let task = task_of(self.rows, task_id);
            self.clear_task(task_id).register_each(
                task_id,
                expressions(now, task.pester, task.due_at, task.checked),
            )
        } else {
            self
        }
    }

    /// After the trigger `trigger_id` of kind `kind` of a task was removed:
    /// the record of the task names no trigger of that kind, and the
    /// trigger is live no more, if it was.
    pub open spec fn remove(self, task_id: u128, trigger_id: u128, kind: JobType) -> State {
        State {
            rows: set_job(self.rows, task_id, kind, None),
            live: without_trigger(self.live, task_id, trigger_id, kind),
            ..self
        }
    }

    /// What the notifier is told when the trigger `trigger_id` fires:
    /// nothing where it is not live.
    pub open spec fn notification(self, trigger_id: u128) -> Option<Notification> {
        if self.live.contains_key(trigger_id) {
            Some(
                Notification {
                    task_id: self.live[trigger_id].task_id,
                    job_type: self.live[trigger_id].job_type,
                },
            )
        } else {
            None
        }
    }

    /// After the trigger `trigger_id` fired: a one-shot trigger has removed
    /// itself; a recurring one, or one that is not live, changes nothing.
    pub open spec fn fire(self, trigger_id: u128) -> State {
        if self.live.contains_key(trigger_id) && self.live[trigger_id].job_type.one_shot() {
            self.remove(self.live[trigger_id].task_id, trigger_id, self.live[trigger_id].job_type)
        } else {
            self
        }
    }

    /// After the dispatch loop answered for the trigger `trigger_id`: a
    /// trigger that it accepted stays as it is; one that it refused is
    /// removed, so that it is live no more and the record of its task names
    /// no trigger of its kind. Nothing changes where the trigger is not
    /// live.
    pub open spec fn settle(self, trigger_id: u128, accepted: bool) -> State {
        if !accepted && self.live.contains_key(trigger_id) {
            self.remove(self.live[trigger_id].task_id, trigger_id, self.live[trigger_id].job_type)
        } else {
            self
        }
    }

    /// After a recorded id, if there is one, was removed.
    pub open spec fn discard(self, task_id: u128, id: Option<u128>, kind: JobType) -> State {
        match id {
            Some(id) => self.remove(task_id, id, kind),
            None => self,
        }
    }

    /// After every id of a stale record was removed.
    pub open spec fn discard_stale(self, task_id: u128, jobs: TaskJobs) -> State {
        self.discard(task_id, jobs.pester, JobType::Pester).discard(
            task_id,
            jobs.overdue,
            JobType::Overdue,
        ).discard(task_id, jobs.reminder, JobType::Reminder)
    }

    /// After one task was reconciled: the ids of its stale record are
    /// removed, and its triggers are computed anew.
    pub open spec fn reconcile_task(self, task_id: u128, jobs: TaskJobs, now: i64) -> State {
        self.discard_stale(task_id, jobs).register_all(task_id, now)
    }

    /// After the tasks of the entries were reconciled, in their order.
    pub open spec fn reconcile_each(self, entries: Seq<(u128, TaskJobs)>, now: i64) -> State
        decreases entries.len(),
    {
        if entries.len() == 0 {
            self
        } else {
            self.reconcile_each(entries.drop_last(), now).reconcile_task(
                entries.last().0,
                entries.last().1,
                now,
            )
        }
    }

    /// After every task that had a trigger of any kind was reconciled, in
    /// the order of the store.
    pub open spec fn reconcile(self, now: i64) -> State {
        self.reconcile_each(stale_entries(self.rows), now)
    }

    /// After a task was put into the store. The ids of its record count as
    /// known from then on.
    pub open spec fn put(self, task: Task) -> State {
        State {
            rows: put_task(self.rows, task),
            last_id: highest_of(task.jobs(), self.last_id),
            ..self
        }
    }

    /// After the dispatch loop has finished initializing.
    pub open spec fn start(self) -> State {
        State { started: true, ..self }
    }
}

} // verus!
