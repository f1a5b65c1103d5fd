//! The scheduler core: it registers and removes the triggers of tasks,
//! answers for their trigger records, keeps the books when a trigger fires,
//! and rebuilds the live triggers from the records after a restart.
//!
//! A one-shot trigger is registered whether or not its instant has passed.
//! The scheduler never fires a trigger by itself, neither on registration
//! nor later: a trigger fires when the dispatch loop reports it with `fire`.
//!
//! A trigger whose schedule is malformed is skipped, and so is one that the
//! dispatch loop refuses, as `settle_job` is told: in both cases the other
//! triggers of the task stay as they are.

use vstd::prelude::*;
use crate::expression::{build_expressions, Schedule, TriggerExpression};
use crate::invariants::{
    lemma_clear_task, lemma_fire, lemma_put, lemma_register, lemma_register_all, lemma_remove,
};
use crate::laws::{law_reconcile_restores_agreement, law_register_all_record, recorded};
use crate::job::{JobType, TaskJobs};
use crate::model::{DatabaseError, Task};
use crate::registry::{ActiveTrigger, Registry};
use crate::state::{owed, Notification, State};
use crate::store::{
    has_task, highest_id, highest_in, index_of, lemma_highest_id, task_of, JobStore,
};

verus! {

/// The scheduler: the job store, the live triggers, and the highest trigger
/// id known.
#[derive(Debug, Clone)]
pub struct Scheduler {
    store: JobStore,
    registry: Registry,
    last_id: u128,
    started: bool,
}

impl Scheduler {
    /// The state of the scheduler.
    pub closed spec fn view(&self) -> State {
        State {
            rows: self.store.rows(),
            live: self.registry@,
            last_id: self.last_id,
            started: self.started,
        }
    }

    /// The scheduler's parts are well-formed, and so is its state.
    pub closed spec fn wf(&self) -> bool {
        self.registry.wf() && self@.wf()
    }

    /// The state of a well-formed scheduler is well-formed.
    pub proof fn lemma_wf(&self)
        requires
            self.wf(),
        ensures
            self@.wf(),
    {
    }

    /// A scheduler over a job store, as after a restart: no trigger is
    /// live, whatever the records say, and the dispatch loop is not started.
    /// The highest id that a record holds counts as known, so that no id
    /// issued from now on was ever recorded.
    pub fn new(store: JobStore) -> (scheduler: Scheduler)
        requires
            store.wf(),
        ensures
            scheduler.wf(),
            scheduler@ == (State {
                rows: store.rows(),
                live: Map::<u128, ActiveTrigger>::empty(),
                last_id: highest_id(store.rows()),
                started: false,
            }),
    {
        let last_id = store.highest_job_id();
        proof {
            lemma_highest_id(store.rows());
        }
        Scheduler { store, registry: Registry::new(), last_id, started: false }
    }

    /// Notes that the dispatch loop has finished initializing. Starting
    /// twice is the same as starting once.
    pub fn start(&mut self)
        requires
            old(self).wf(),
        ensures
            final(self).wf(),
            final(self)@ == old(self)@.start(),
    {
        self.started = true;
    }

    /// Whether the dispatch loop has finished initializing.
    pub fn healthy(&self) -> (started: bool)
        ensures
            started == self@.started,
    {
        self.started
    }

    /// The job store.
    pub fn store(&self) -> (store: &JobStore)
        ensures
            store.rows() == self@.rows,
            self.wf() ==> store.wf(),
    {
        &self.store
    }

    /// The live trigger with this id, if there is one.
    pub fn trigger(&self, id: u128) -> (trigger: Option<ActiveTrigger>)
        requires
            self.wf(),
        ensures
            trigger == if self@.live.contains_key(id) {
                Some(self@.live[id])
            } else {
                None
            },
    {
        self.registry.get(id)
    }

    /// The number of live triggers.
    pub fn live_count(&self) -> (n: usize)
        requires
            self.wf(),
        ensures
            self@.live.dom().finite(),
            n == self@.live.len(),
    {
        self.registry.len()
    }

    /// Puts a task into the store, in the place of the task with its id or
    /// as a new one. The ids of its record count as known from then on.
    pub fn put_task(&mut self, task: Task)
        requires
            old(self).wf(),
        ensures
            final(self).wf(),
            final(self)@ == old(self)@.put(task),
    {
        proof {
            lemma_put(self@, task);
        }
        self.last_id = highest_in(&task.trigger_record(), self.last_id);
        self.store.put(task);
    }

    /// The trigger record of a task. A store without the task answers with
    /// the error of a query that found no row.
    pub fn get_jobs(&self, task_id: u128) -> (jobs: Result<TaskJobs, DatabaseError>)
        requires
            self.wf(),
        ensures
            match jobs {
                Ok(record) => self@.record(task_id) == Some(record),
                Err(e) => self@.record(task_id) is None && e.is_no_row(),
            },
    {
        Task::collect_jobs(&self.store, task_id)
    }

    /// Registers a trigger of kind `kind` for a task and gives its id.
    /// Where the schedule is not one that a trigger of the kind can have,
    /// or no id is left to issue, the trigger is skipped: nothing changes,
    /// and there is no id.
    fn register_job(&mut self, task_id: u128, kind: JobType, schedule: Schedule) -> (id: Option<
        u128,
    >)
        requires
            old(self).wf(),
        ensures
            final(self).wf(),
            final(self)@ == old(self)@.register(task_id, kind, schedule),
            old(self)@.consistent() ==> final(self)@.consistent(),
            id == old(self)@.issued(kind, schedule),
            id is None ==> final(self)@ == old(self)@,
    {
        proof {
            lemma_register(self@, task_id, kind, schedule);
        }
        if !schedule.is_well_formed_for(kind) || self.last_id == u128::MAX {
            return None;
        }
        let id = self.last_id + 1;
        self.registry.cancel_kind(task_id, kind);
        let inserted = self.registry.insert(ActiveTrigger { id, task_id, job_type: kind, schedule });
        assert(inserted);
        self.store.set_trigger_id(task_id, kind, Some(id));
        self.last_id = id;
        Some(id)
    }

    /// Registers the pester trigger of a task: the pester trigger that the
    /// task had is cancelled, the new one is live with the schedule given,
    /// and the record of the task names it. Gives the id of the new
    /// trigger. A schedule that does not recur, or recurs with an interval
    /// of zero or less, is malformed: the trigger is skipped, nothing
    /// changes, and there is no id. The same holds where no id is left to
    /// issue.
    pub fn register_pester_job(&mut self, task_id: u128, schedule: Schedule) -> (id: Option<u128>)
        requires
            old(self).wf(),
        ensures
            final(self).wf(),
            final(self)@ == old(self)@.register(task_id, JobType::Pester, schedule),
            old(self)@.consistent() ==> final(self)@.consistent(),
            id == old(self)@.issued(JobType::Pester, schedule),
            id is None ==> final(self)@ == old(self)@,
            id matches Some(new) ==> final(self)@.is_live_for(new, task_id, JobType::Pester)
                && final(self)@.live[new].schedule == schedule,
    {
        self.register_job(task_id, JobType::Pester, schedule)
    }

    /// Registers the reminder trigger of a task: the reminder trigger that
    /// the task had is cancelled, the new one is live with the schedule
    /// given, and the record of the task names it. Gives the id of the new
    /// trigger. A schedule that recurs, that fires at an instant beyond the
    /// calendar, or whose calendar fields are not those of its instant is
    /// malformed: the trigger is skipped, nothing changes, and there is no
    /// id. The same holds where no id is left to issue.
    pub fn register_reminder_job(&mut self, task_id: u128, schedule: Schedule) -> (id: Option<u128>)
        requires
            old(self).wf(),
        ensures
            final(self).wf(),
            final(self)@ == old(self)@.register(task_id, JobType::Reminder, schedule),
            old(self)@.consistent() ==> final(self)@.consistent(),
            id == old(self)@.issued(JobType::Reminder, schedule),
            id is None ==> final(self)@ == old(self)@,
            id matches Some(new) ==> final(self)@.is_live_for(new, task_id, JobType::Reminder)
                && final(self)@.live[new].schedule == schedule,
    {
        self.register_job(task_id, JobType::Reminder, schedule)
    }

    /// Registers the overdue trigger of a task: the overdue trigger that
    /// the task had is cancelled, the new one is live with the schedule
    /// given, and the record of the task names it. Gives the id of the new
    /// trigger. A schedule that recurs, that fires at an instant beyond the
    /// calendar, or whose calendar fields are not those of its instant is
    /// malformed: the trigger is skipped, nothing changes, and there is no
    /// id. The same holds where no id is left to issue.
    pub fn register_overdue_job(&mut self, task_id: u128, schedule: Schedule) -> (id: Option<u128>)
        requires
            old(self).wf(),
        ensures
            final(self).wf(),
            final(self)@ == old(self)@.register(task_id, JobType::Overdue, schedule),
            old(self)@.consistent() ==> final(self)@.consistent(),
            id == old(self)@.issued(JobType::Overdue, schedule),
            id is None ==> final(self)@ == old(self)@,
            id matches Some(new) ==> final(self)@.is_live_for(new, task_id, JobType::Overdue)
                && final(self)@.live[new].schedule == schedule,
    {
        self.register_job(task_id, JobType::Overdue, schedule)
    }

    /// Removes every trigger of a task: none of them stays live, and the
    /// record of the task is empty.
    fn clear_task(&mut self, task_id: u128)
        requires
            old(self).wf(),
        ensures
            final(self).wf(),
            final(self)@ == old(self)@.clear_task(task_id),
    {
        proof {
            lemma_clear_task(self@, task_id);
        }
        self.registry.cancel_task(task_id);
        self.store.set_trigger_id(task_id, JobType::Pester, None);
        self.store.set_trigger_id(task_id, JobType::Overdue, None);
        self.store.set_trigger_id(task_id, JobType::Reminder, None);
    }

    /// Computes the triggers of a task anew at the reference time `now`.
    /// Every trigger that the task had is removed, whatever its kind; then
    /// one trigger is registered for each expression of the task as it
    /// stands in the store, and its id is recorded. Gives the record of the
    /// task after that, or `None` where the store does not have the task
    /// and nothing changed. The record names a trigger only of a kind that
    /// the task is owed, and of every such kind while three ids are left to
    /// issue. Every id in it is new: it lies above every id known before
    /// and was recorded for no task.
    pub fn register_all(&mut self, task_id: u128, now: i64) -> (jobs: Option<TaskJobs>)
        requires
            old(self).wf(),
        ensures
            final(self).wf(),
            final(self)@ == old(self)@.register_all(task_id, now),
            jobs == final(self)@.record(task_id),
            jobs is Some == has_task(old(self)@.rows, task_id),
            jobs matches Some(record) ==> forall|kind: JobType|
                record.populated(kind) ==> owed(task_of(old(self)@.rows, task_id), kind),
            jobs matches Some(record) ==> old(self)@.last_id <= u128::MAX - 3 ==> forall|
                kind: JobType,
            |
                owed(task_of(old(self)@.rows, task_id), kind) ==> record.populated(kind),
            jobs matches Some(record) ==> forall|id: u128|
                record.holds(id) ==> old(self)@.last_id < id && !recorded(old(self)@, id),
            final(self)@.started == old(self)@.started,
            old(self)@.consistent() ==> final(self)@.consistent(),
    {
        proof {
            if has_task(self@.rows, task_id) {
                lemma_register_all(self@, task_id, now);
                law_register_all_record(self@, task_id, now, JobType::Pester);
                law_register_all_record(self@, task_id, now, JobType::Overdue);
                law_register_all_record(self@, task_id, now, JobType::Reminder);
                law_register_all_record(self@, task_id, now, JobType::Unknown);
            }
        }
        let exprs = match Task::get(&self.store, task_id) {
            Ok(task) => build_expressions(now, task.pester, task.due_at, task.checked),
            Err(_) => {
                return None;
            },
        };
        self.clear_task(task_id);
        let ghost cleared = self@;
        let mut i: usize = 0;
        assert(exprs@.take(0) =~= Seq::<TriggerExpression>::empty());
        while i < exprs.len()
            invariant
                i <= exprs@.len(),
                self.wf(),
                self@ == cleared.register_each(task_id, exprs@.take(i as int)),
            decreases exprs@.len() - i,
        {
            let expr = exprs[i];
            proof {
                let now_taken = exprs@.take(i as int + 1);
                assert(now_taken.drop_last() =~= exprs@.take(i as int));
                assert(now_taken.last() == exprs@[i as int]);
            }
            let _ = self.register_job(task_id, expr.job_type, expr.schedule);
            i = i + 1;
        }
        assert(exprs@.take(i as int) =~= exprs@);
        proof {
            let at = index_of(old(self)@.rows, task_id);
            assert(self@.rows[at].without_jobs() == old(self)@.rows[at].without_jobs());
            assert(self@.rows[at].id == task_id);
        }
        match Task::collect_jobs(&self.store, task_id) {
            Ok(record) => Some(record),
            Err(_) => None,
        }
    }

    /// Removes the trigger `trigger_id` of kind `job_type` of a task: the
    /// trigger is cancelled where it is live and is the one of that kind of
    /// that task, and the record of the task names no trigger of that kind
    /// any more. Says whether a live trigger was cancelled. Removing a
    /// trigger that is not live is no error, so that a second call with the
    /// same arguments changes nothing and answers `false`.
    pub fn remove(&mut self, task_id: u128, trigger_id: u128, job_type: JobType) -> (cancelled:
        bool)
        requires
            old(self).wf(),
        ensures
            final(self).wf(),
            final(self)@ == old(self)@.remove(task_id, trigger_id, job_type),
            old(self)@.consistent() ==> final(self)@.consistent(),
            cancelled == old(self)@.is_live_for(trigger_id, task_id, job_type),
    {
        proof {
            lemma_remove(self@, task_id, trigger_id, job_type);
        }
        let cancelled = self.registry.cancel(task_id, trigger_id, job_type);
        self.store.set_trigger_id(task_id, job_type, None);
        cancelled
    }

    /// Keeps the books when the dispatch loop reports that the trigger
    /// `trigger_id` fired. Gives what the notifier is to be told: the task
    /// and the kind of the trigger, or `None` where the trigger is not live,
    /// in which case nothing changes. A one-shot trigger removes itself; a
    /// recurring one stays live. Whether the notifier succeeds plays no part
    /// in this.
    pub fn fire(&mut self, trigger_id: u128) -> (told: Option<Notification>)
        requires
            old(self).wf(),
        ensures
            final(self).wf(),
            final(self)@ == old(self)@.fire(trigger_id),
            old(self)@.consistent() ==> final(self)@.consistent(),
            told == old(self)@.notification(trigger_id),
    {
        proof {
            lemma_fire(self@, trigger_id);
        }
        match self.registry.get(trigger_id) {
            Some(trigger) => {
                if trigger.job_type.is_one_shot() {
                    let _ = self.remove(trigger.task_id, trigger_id, trigger.job_type);
                }
                Some(Notification { task_id: trigger.task_id, job_type: trigger.job_type })
            },
            None => None,
        }
    }

    /// Takes the answer of the dispatch loop for the trigger `trigger_id`.
    /// A trigger that the loop accepted stays as it is. One that the loop
    /// refused is skipped: it is live no more, and the record of its task
    /// names no trigger of its kind; every other trigger and every other
    /// entry of a record stays as it is. Nothing changes where the trigger
    /// is not live. Says whether the trigger is live after that.
    pub fn settle_job(&mut self, trigger_id: u128, accepted: bool) -> (live: bool)
        requires
            old(self).wf(),
        ensures
            final(self).wf(),
            final(self)@ == old(self)@.settle(trigger_id, accepted),
            old(self)@.consistent() ==> final(self)@.consistent(),
            live == (accepted && old(self)@.live.contains_key(trigger_id)),
            live == final(self)@.live.contains_key(trigger_id),
    {
        match self.registry.get(trigger_id) {
            Some(trigger) => {
                if !accepted {
                    let _ = self.remove(trigger.task_id, trigger_id, trigger.job_type);
                }
                accepted
            },
            None => false,
        }
    }

    /// Rebuilds the live triggers from the records, as is due once after a
    /// restart. Every task whose record names a trigger of any kind is
    /// taken in the order of the store: each id of its record is removed,
    /// which tells the notifier nothing, and its triggers are computed anew
    /// at the reference time `now`.
    pub fn resume_jobs(&mut self, now: i64)
        requires
            old(self).wf(),
        ensures
            final(self).wf(),
            final(self)@ == old(self)@.reconcile(now),
            final(self)@.started == old(self)@.started,
            final(self)@.consistent(),
    {
        proof {
            law_reconcile_restores_agreement(self@, now);
        }
        let entries = match Task::collect_all_jobs(&self.store) {
            Ok(entries) => entries,
            Err(_) => {
                return ;
            },
        };
        let mut i: usize = 0;
        assert(entries@.take(0) =~= Seq::<(u128, TaskJobs)>::empty());
        while i < entries.len()
            invariant
                i <= entries@.len(),
                self.wf(),
                self@ == old(self)@.reconcile_each(entries@.take(i as int), now),
            decreases entries@.len() - i,
        {
            let (task_id, jobs) = entries[i];
            proof {
                let now_taken = entries@.take(i as int + 1);
                assert(now_taken.drop_last() =~= entries@.take(i as int));
                assert(now_taken.last() == entries@[i as int]);
            }
            if let Some(id) = jobs.pester {
                let _ = self.remove(task_id, id, JobType::Pester);
            }
            if let Some(id) = jobs.overdue {
                let _ = self.remove(task_id, id, JobType::Overdue);
            }
            if let Some(id) = jobs.reminder {
                let _ = self.remove(task_id, id, JobType::Reminder);
            }
            let _ = self.register_all(task_id, now);
            i = i + 1;
        }
        assert(entries@.take(i as int) =~= entries@);
    }
}

} // verus!
