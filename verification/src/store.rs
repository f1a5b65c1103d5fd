//! The job store: the tasks with their trigger records.
//!
//! The store keeps its tasks in the order in which they were put in, no two
//! with the same id. Every write to a trigger record touches the one field
//! of the one task that it names.

use vstd::prelude::*;
use crate::job::{JobType, TaskJobs};
use crate::model::{DatabaseError, Task};

verus! {

/// Whether a task with this id is among the rows.
pub open spec fn has_task(rows: Seq<Task>, id: u128) -> bool {
    exists|i: int| 0 <= i < rows.len() && (#[trigger] rows[i]).id == id
}

/// The place of the task with this id among the rows.
pub open spec fn index_of(rows: Seq<Task>, id: u128) -> int {
    choose|i: int| 0 <= i < rows.len() && (#[trigger] rows[i]).id == id
}

/// The task with this id.
pub open spec fn task_of(rows: Seq<Task>, id: u128) -> Task {
    rows[index_of(rows, id)]
}

/// No two rows have the same id.
pub open spec fn distinct_ids(rows: Seq<Task>) -> bool {
    forall|i: int, j: int|
        0 <= i < j < rows.len() ==> (#[trigger] rows[i]).id != (#[trigger] rows[j]).id
}

/// The rows after the trigger id of one kind was written for one task.
pub open spec fn set_job(rows: Seq<Task>, task_id: u128, kind: JobType, id: Option<u128>) -> Seq<
    Task,
> {
    rows.map_values(
        |t: Task|
            if t.id == task_id {
                t.with_job(kind, id)
            } else {
                t
            },
    )
}

/// The rows after a task was put in: in the place of the task with its id,
/// or behind the last row where there is none.
pub open spec fn put_task(rows: Seq<Task>, task: Task) -> Seq<Task> {
    if has_task(rows, task.id) {
        rows.update(index_of(rows, task.id), task)
    } else {
        rows.push(task)
    }
}

/// The rows without the task with this id.
pub open spec fn delete_task(rows: Seq<Task>, id: u128) -> Seq<Task> {
    if has_task(rows, id) {
        rows.remove(index_of(rows, id))
    } else {
        rows
    }
}

/// The tasks that have a trigger of any kind, each with its id and record,
/// in the order of the rows.
pub open spec fn stale_entries(rows: Seq<Task>) -> Seq<(u128, TaskJobs)> {
    rows.filter(|t: Task| t.jobs().any()).map_values(|t: Task| (t.id, t.jobs()))
}

/// The highest trigger id that a task records, or `floor` where that is
/// higher.
pub open spec fn highest_of(jobs: TaskJobs, floor: u128) -> u128 {
    let a = match jobs.pester {
        Some(id) if id > floor => id,
        _ => floor,
    };
    let b = match jobs.overdue {
        Some(id) if id > a => id,
        _ => a,
    };
    match jobs.reminder {
        Some(id) if id > b => id,
        _ => b,
    }
}

/// The highest trigger id that any of the rows records; 0 where none
/// records any.
pub open spec fn highest_id(rows: Seq<Task>) -> u128
    decreases rows.len(),
{
    if rows.len() == 0 {
        0
    } else {
        highest_of(rows.last().jobs(), highest_id(rows.drop_last()))
    }
}

/// No row records an id above the highest one.
pub proof fn lemma_highest_id(rows: Seq<Task>)
    ensures
        forall|i: int| 0 <= i < rows.len() ==> (#[trigger] rows[i]).jobs().at_most(highest_id(rows)),
    decreases rows.len(),
{
    if rows.len() > 0 {
        lemma_highest_id(rows.drop_last());
        assert forall|i: int| 0 <= i < rows.len() implies (#[trigger] rows[i]).jobs().at_most(
            highest_id(rows),
        ) by {
            if i < rows.len() - 1 {
                assert(rows.drop_last()[i] == rows[i]);
            }
        }
    }
}

/// A row is found under its own id.
pub proof fn lemma_task_at(rows: Seq<Task>, i: int)
    requires
        distinct_ids(rows),
        0 <= i < rows.len(),
    ensures
        has_task(rows, rows[i].id),
        index_of(rows, rows[i].id) == i,
        task_of(rows, rows[i].id) == rows[i],
{
    let j = index_of(rows, rows[i].id);
    assert(0 <= j < rows.len() && rows[j].id == rows[i].id);
    if j != i {
        if j < i {
            assert(rows[j].id != rows[i].id);
        } else {
            assert(rows[i].id != rows[j].id);
        }
    }
}

/// A write to a trigger record keeps the ids of the rows, changes the task
/// that it names in the one field, and leaves every other task as it was.
pub proof fn lemma_set_job(rows: Seq<Task>, task_id: u128, kind: JobType, id: Option<u128>)
    requires
        distinct_ids(rows),
    ensures
        distinct_ids(set_job(rows, task_id, kind, id)),
        set_job(rows, task_id, kind, id).len() == rows.len(),
        forall|other: u128| #[trigger]
            has_task(set_job(rows, task_id, kind, id), other) == has_task(rows, other),
        forall|other: u128|
            has_task(rows, other) ==> #[trigger] task_of(set_job(rows, task_id, kind, id), other)
                == if other == task_id {
                task_of(rows, other).with_job(kind, id)
            } else {
                task_of(rows, other)
            },
{
    let after = set_job(rows, task_id, kind, id);
    assert forall|i: int| 0 <= i < rows.len() implies (#[trigger] after[i]).id == rows[i].id by {}
    assert forall|other: u128| #[trigger] has_task(after, other) == has_task(rows, other) by {
        if has_task(rows, other) {
            let i = index_of(rows, other);
            assert(after[i].id == other);
        }
        if has_task(after, other) {
            let i = index_of(after, other);
            assert(rows[i].id == other);
        }
    }
    assert forall|other: u128| has_task(rows, other) implies #[trigger] task_of(after, other)
        == if other == task_id {
        task_of(rows, other).with_job(kind, id)
    } else {
        task_of(rows, other)
    } by {
        let i = index_of(rows, other);
        lemma_task_at(rows, i);
        assert(after[i].id == other);
        lemma_task_at(after, i);
    }
}

/// Writes to the fields of two different kinds do not clobber each other:
/// in whichever order they are made, the rows are the same afterwards,
/// whether they go to one task or to two.
pub proof fn law_writes_to_different_kinds_commute(
    rows: Seq<Task>,
    first_task: u128,
    first_kind: JobType,
    first_id: Option<u128>,
    second_task: u128,
    second_kind: JobType,
    second_id: Option<u128>,
)
    requires
        first_kind != second_kind || first_task != second_task,
    ensures
        set_job(set_job(rows, first_task, first_kind, first_id), second_task, second_kind, second_id)
            == set_job(
            set_job(rows, second_task, second_kind, second_id),
            first_task,
            first_kind,
            first_id,
        ),
{
    assert(set_job(
        set_job(rows, first_task, first_kind, first_id),
        second_task,
        second_kind,
        second_id,
    ) =~= set_job(
        set_job(rows, second_task, second_kind, second_id),
        first_task,
        first_kind,
        first_id,
    ));
}

/// The highest trigger id that a record holds, or `floor` where that is
/// higher.
pub fn highest_in(jobs: &TaskJobs, floor: u128) -> (highest: u128)
    ensures
        highest == highest_of(*jobs, floor),
{
    let mut highest = floor;
    if let Some(id) = jobs.pester {
        if id > highest {
            highest = id;
        }
    }
    if let Some(id) = jobs.overdue {
        if id > highest {
            highest = id;
        }
    }
    if let Some(id) = jobs.reminder {
        if id > highest {
            highest = id;
        }
    }
    highest
}

/// The tasks with their trigger records, in memory.
#[derive(Debug, Clone)]
pub struct JobStore {
    tasks: Vec<Task>,
}

impl JobStore {
    /// The tasks of the store, in the order in which they were put in.
    pub closed spec fn rows(&self) -> Seq<Task> {
        self.tasks@
    }

    /// No two tasks of the store have the same id.
    pub open spec fn wf(&self) -> bool {
        distinct_ids(self.rows())
    }

    /// A store without tasks.
    pub fn new() -> (store: JobStore)
        ensures
            store.rows() == Seq::<Task>::empty(),
            store.wf(),
    {
        JobStore { tasks: Vec::new() }
    }

    /// The number of tasks.
    pub fn len(&self) -> (n: usize)
        ensures
            n == self.rows().len(),
    {
        self.tasks.len()
    }

    /// The place of the task with this id, if there is one.
    fn find(&self, id: u128) -> (place: Option<usize>)
        ensures
            match place {
                Some(i) => i < self.rows().len() && self.rows()[i as int].id == id,
                None => !has_task(self.rows(), id),
            },
    {
        let mut i: usize = 0;
        while i < self.tasks.len()
            invariant
                i <= self.tasks@.len(),
                forall|k: int| 0 <= k < i ==> (#[trigger] self.tasks@[k]).id != id,
            decreases self.tasks@.len() - i,
        {
            if self.tasks[i].id == id {
                return Some(i);
            }
            i = i + 1;
        }
        None
    }

    /// The highest trigger id that any task records; 0 where none records
    /// any.
    pub fn highest_job_id(&self) -> (highest: u128)
        ensures
            highest == highest_id(self.rows()),
    {
        let mut highest: u128 = 0;
        let mut i: usize = 0;
        assert(self.tasks@.take(0) =~= Seq::<Task>::empty());
        while i < self.tasks.len()
            invariant
                i <= self.tasks@.len(),
                highest == highest_id(self.tasks@.take(i as int)),
            decreases self.tasks@.len() - i,
        {
            proof {
                let now = self.tasks@.take(i as int + 1);
                assert(now.drop_last() =~= self.tasks@.take(i as int));
                assert(now.last() == self.tasks@[i as int]);
            }
            highest = highest_in(&self.tasks[i].trigger_record(), highest);
            i = i + 1;
        }
        assert(self.tasks@.take(i as int) =~= self.tasks@);
        highest
    }

    /// Whether the store has a task with this id.
    pub fn contains(&self, id: u128) -> (found: bool)
        ensures
            found == has_task(self.rows(), id),
    {
        self.find(id).is_some()
    }

    /// Puts a task in: in the place of the task with its id, or behind the
    /// last one where the store has none.
    pub fn put(&mut self, task: Task)
        requires
            old(self).wf(),
        ensures
            final(self).wf(),
            final(self).rows() == put_task(old(self).rows(), task),
    {
        match self.find(task.id) {
            Some(i) => {
                proof {
                    lemma_task_at(self.rows(), i as int);
                }
                self.tasks.set(i, task);
                assert forall|a: int, b: int| 0 <= a < b < self.tasks@.len() implies (
                #[trigger] self.tasks@[a]).id != (#[trigger] self.tasks@[b]).id by {
                    assert(self.tasks@[a].id == old(self).tasks@[a].id);
                    assert(self.tasks@[b].id == old(self).tasks@[b].id);
                }
            },
            None => {
                self.tasks.push(task);
                assert forall|a: int, b: int| 0 <= a < b < self.tasks@.len() implies (
                #[trigger] self.tasks@[a]).id != (#[trigger] self.tasks@[b]).id by {
                    if b < old(self).tasks@.len() {
                        assert(self.tasks@[a] == old(self).tasks@[a]);
                        assert(self.tasks@[b] == old(self).tasks@[b]);
                    } else {
                        assert(self.tasks@[a] == old(self).tasks@[a]);
                    }
                }
            },
        }
    }

    /// Writes the trigger id of one kind, or `None`, into the record of one
    /// task. No other field and no other task changes. A store without that
    /// task stays as it is, and so does every record where the kind is
    /// `Unknown`, which names no field.
    pub fn set_trigger_id(&mut self, task_id: u128, kind: JobType, id: Option<u128>)
        requires
            old(self).wf(),
        ensures
            final(self).wf(),
            final(self).rows() == set_job(old(self).rows(), task_id, kind, id),
    {
        proof {
            lemma_set_job(self.rows(), task_id, kind, id);
        }
        match self.find(task_id) {
            Some(i) => {
                match kind {
                    JobType::Pester => {
                        self.tasks[i].pester_job = id;
                    },
                    JobType::Overdue => {
                        self.tasks[i].overdue_job = id;
                    },
                    JobType::Reminder => {
                        self.tasks[i].reminder_job = id;
                    },
                    JobType::Unknown => {},
                }
                assert forall|k: int| 0 <= k < self.tasks@.len() implies self.tasks@[k] == set_job(
                    old(self).rows(),
                    task_id,
                    kind,
                    id,
                )[k] by {
                    if k != i {
                        assert(old(self).tasks@[k].id != old(self).tasks@[i as int].id);
                    }
                }
                assert(self.tasks@ =~= set_job(old(self).rows(), task_id, kind, id));
            },
            None => {
                assert(self.tasks@ =~= set_job(old(self).rows(), task_id, kind, id));
            },
        }
    }
}

impl Task {
    /// The task with this id. A store without it answers with the error of
    /// a query that found no row.
    pub fn get(store: &JobStore, id: u128) -> (found: Result<&Task, DatabaseError>)
        requires
            store.wf(),
        ensures
            match found {
                Ok(task) => has_task(store.rows(), id) && *task == task_of(
                    store.rows(),
                    id,
                ),
                Err(e) => !has_task(store.rows(), id) && e.is_no_row(),
            },
    {
        match store.find(id) {
            Some(i) => {
                proof {
                    lemma_task_at(store.rows(), i as int);
                }
                Ok(&store.tasks[i])
            },
            None => Err(DatabaseError::no_row()),
        }
    }

    /// Takes the task with this id out of the store. Nothing is wrong with
    /// deleting a task that the store does not have.
    pub fn delete(store: &mut JobStore, id: u128) -> (done: Result<(), DatabaseError>)
        requires
            old(store).wf(),
        ensures
            done is Ok,
            final(store).wf(),
            final(store).rows() == delete_task(old(store).rows(), id),
    {
        match store.find(id) {
            Some(i) => {
                proof {
                    lemma_task_at(store.rows(), i as int);
                }
                let _ = store.tasks.remove(i);
                assert forall|a: int, b: int| 0 <= a < b < store.tasks@.len() implies (
                #[trigger] store.tasks@[a]).id != (#[trigger] store.tasks@[b]).id by {
                    let a0 = if a < i { a } else { a + 1 };
                    let b0 = if b < i { b } else { b + 1 };
                    assert(store.tasks@[a] == old(store).tasks@[a0]);
                    assert(store.tasks@[b] == old(store).tasks@[b0]);
                }
            },
            None => {},
        }
        Ok(())
    }

    /// Records `job_id` as the trigger of kind `job_type` of the task. No
    /// other field and no other task changes, and a store without the task
    /// stays as it is. `Unknown` names no field: the write is refused with
    /// the error of a write to a field that does not exist.
    pub fn attach_job(
        store: &mut JobStore,
        task_id: u128,
        job_id: u128,
        job_type: JobType,
    ) -> (done: Result<(), DatabaseError>)
        requires
            old(store).wf(),
        ensures
            final(store).wf(),
            job_type == JobType::Unknown ==> (done matches Err(e) && e.is_no_field())
                && final(store).rows() == old(store).rows(),
            job_type != JobType::Unknown ==> done is Ok && final(store).rows() == set_job(
                old(store).rows(),
                task_id,
                job_type,
                Some(job_id),
            ),
    {
        match job_type {
            JobType::Unknown => Err(DatabaseError::no_field()),
            _ => {
                store.set_trigger_id(task_id, job_type, Some(job_id));
                Ok(())
            },
        }
    }

    /// Clears the trigger of kind `job_type` in the record of the task,
    /// whatever id it held. No other field and no other task changes.
    /// `Unknown` names no field: the write is refused with the error of a
    /// write to a field that does not exist.
    /// The trigger itself is cancelled by the scheduler, not here.
    pub fn remove_job(
        store: &mut JobStore,
        task_id: u128,
        job_id: u128,
        job_type: JobType,
    ) -> (done: Result<(), DatabaseError>)
        requires
            old(store).wf(),
        ensures
            final(store).wf(),
            job_type == JobType::Unknown ==> (done matches Err(e) && e.is_no_field())
                && final(store).rows() == old(store).rows(),
            job_type != JobType::Unknown ==> done is Ok && final(store).rows() == set_job(
                old(store).rows(),
                task_id,
                job_type,
                None,
            ),
    {
        match job_type {
            JobType::Unknown => Err(DatabaseError::no_field()),
            _ => {
                store.set_trigger_id(task_id, job_type, None);
                Ok(())
            },
        }
    }

    /// The trigger record of the task with this id. A store without the
    /// task answers with the error of a query that found no row.
    pub fn collect_jobs(store: &JobStore, task_id: u128) -> (jobs: Result<
        TaskJobs,
        DatabaseError,
    >)
        requires
            store.wf(),
        ensures
            match jobs {
                Ok(record) => has_task(store.rows(), task_id) && record == task_of(
                    store.rows(),
                    task_id,
                ).jobs(),
                Err(e) => !has_task(store.rows(), task_id) && e.is_no_row(),
            },
    {
        match Task::get(store, task_id) {
            Ok(task) => Ok(task.trigger_record()),
            Err(e) => Err(e),
        }
    }

    /// Every task that has a trigger of any kind, with its id and trigger
    /// record, in the order of the store.
    pub fn collect_all_jobs(store: &JobStore) -> (all: Result<
        Vec<(u128, TaskJobs)>,
        DatabaseError,
    >)
        ensures
            all matches Ok(entries) && entries@ == stale_entries(store.rows()),
    {
        let mut entries: Vec<(u128, TaskJobs)> = Vec::new();
        let ghost any = |t: Task| t.jobs().any();
        let ghost entry = |t: Task| (t.id, t.jobs());
        let mut i: usize = 0;
        proof {
            reveal(Seq::filter);
            assert(store.tasks@.take(0) =~= Seq::<Task>::empty());
        }
        while i < store.tasks.len()
            invariant
                i <= store.tasks@.len(),
                any == |t: Task| t.jobs().any(),
                entry == |t: Task| (t.id, t.jobs()),
                entries@ == store.tasks@.take(i as int).filter(any).map_values(entry),
            decreases store.tasks@.len() - i,
        {
            let task = &store.tasks[i];
            let record = task.trigger_record();
            if record.has_any() {
                entries.push((task.id, record));
            }
            proof {
                let before = store.tasks@.take(i as int);
                let now = store.tasks@.take(i as int + 1);
                assert(now =~= before.push(store.tasks@[i as int]));
                before.lemma_filter_push(store.tasks@[i as int], any);
                assert(entries@ =~= now.filter(any).map_values(entry));
            }
            i = i + 1;
        }
        assert(store.tasks@.take(i as int) =~= store.tasks@);
        Ok(entries)
    }
}

} // verus!
