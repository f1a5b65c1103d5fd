//! What every operation of the scheduler keeps: the well-formedness of its
//! state, and the agreement of the trigger records with the live triggers.

use vstd::prelude::*;
use crate::expression::{
    one_shot_part, pester_part, Schedule, TriggerExpression, OVERDUE_DELAY_SECONDS,
    REMINDER_LEAD_SECONDS,
};
use crate::job::{JobType, TaskJobs};
use crate::model::Task;
use crate::state::{owed, owed_schedule, State};
use crate::store::{has_task, index_of, lemma_set_job, lemma_task_at, set_job, task_of};

verus! {

/// Removing the triggers of a task keeps the state well-formed, and keeps
/// the records in agreement with the live triggers where they were.
pub proof fn lemma_clear_task(s: State, task_id: u128)
    requires
        s.wf(),
    ensures
        s.clear_task(task_id).wf(),
        s.clear_task(task_id).rows.len() == s.rows.len(),
        forall|i: int|
            0 <= i < s.rows.len() ==> #[trigger] s.clear_task(task_id).rows[i] == if s.rows[i].id
                == task_id {
                s.rows[i].without_jobs()
            } else {
                s.rows[i]
            },
        forall|i: int|
            0 <= i < s.rows.len() && (s.agrees(s.rows[i]) || s.rows[i].id == task_id)
                ==> s.clear_task(task_id).agrees(#[trigger] s.clear_task(task_id).rows[i]),
        s.clear_task(task_id).last_id == s.last_id,
        forall|id: u128| #[trigger]
            s.clear_task(task_id).live.contains_key(id) ==> s.clear_task(task_id).live[id].task_id
                != task_id,
{
    let after = s.clear_task(task_id);
    let r1 = set_job(s.rows, task_id, JobType::Pester, None);
    let r2 = set_job(r1, task_id, JobType::Overdue, None);
    lemma_set_job(s.rows, task_id, JobType::Pester, None);
    lemma_set_job(r1, task_id, JobType::Overdue, None);
    lemma_set_job(r2, task_id, JobType::Reminder, None);
    assert forall|i: int| 0 <= i < after.rows.len() implies #[trigger] after.rows[i] == if s.rows[i].id
        == task_id {
        s.rows[i].without_jobs()
    } else {
        s.rows[i]
    } by {
        assert(r1[i].id == s.rows[i].id);
        assert(r2[i].id == s.rows[i].id);
    }
    assert forall|i: int|
        0 <= i < s.rows.len() && (s.agrees(s.rows[i]) || s.rows[i].id == task_id) implies after.agrees(
        #[trigger] after.rows[i],
    ) by {
        assert forall|kind: JobType| (#[trigger] after.rows[i].jobs().field(kind)) is Some implies after.is_live_for(
            after.rows[i].jobs().field(kind)->Some_0,
            after.rows[i].id,
            kind,
        ) by {
            assert(after.rows[i] == s.rows[i]);
            assert(s.rows[i].jobs().field(kind) is Some);
        }
    }
}

/// Registering a trigger keeps the state well-formed, and keeps the records in agreement with the live triggers
/// where they were.
pub proof fn lemma_register(s: State, task_id: u128, kind: JobType, schedule: Schedule)
    requires
        s.wf(),
    ensures
        s.register(task_id, kind, schedule).wf(),
        s.register(task_id, kind, schedule).rows.len() == s.rows.len(),
        forall|i: int|
            0 <= i < s.rows.len() && s.agrees(s.rows[i]) ==> s.register(
                task_id,
                kind,
                schedule,
            ).agrees(#[trigger] s.register(task_id, kind, schedule).rows[i]),
        s.register(task_id, kind, schedule).last_id >= s.last_id,
{
    let after = s.register(task_id, kind, schedule);
    if schedule.well_formed_for(kind) && s.can_issue() {
        let id = (s.last_id + 1) as u128;
        lemma_set_job(s.rows, task_id, kind, Some(id));
        assert forall|i: int| 0 <= i < after.rows.len() implies (#[trigger] after.rows[i]).jobs().at_most(
            after.last_id,
        ) by {
            assert(s.rows[i].jobs().at_most(s.last_id));
        }
        assert forall|i: int| 0 <= i < s.rows.len() && s.agrees(s.rows[i]) implies after.agrees(
            #[trigger] after.rows[i],
        ) by {
            assert forall|k: JobType| (#[trigger] after.rows[i].jobs().field(k)) is Some implies after.is_live_for(
                after.rows[i].jobs().field(k)->Some_0,
                after.rows[i].id,
                k,
            ) by {
                let x = after.rows[i].jobs().field(k)->Some_0;
                if s.rows[i].id == task_id && k == kind {
                    assert(x == id);
                } else {
                    assert(s.rows[i].jobs().field(k) == Some(x));
                    assert(s.rows[i].jobs().at_most(s.last_id));
                    assert(s.is_live_for(x, s.rows[i].id, k));
                }
            }
        }
    }
}

/// Removing a trigger keeps the state well-formed, and keeps the records
/// in agreement with the live triggers where they were.
pub proof fn lemma_remove(s: State, task_id: u128, trigger_id: u128, kind: JobType)
    requires
        s.wf(),
    ensures
        s.remove(task_id, trigger_id, kind).wf(),
        s.remove(task_id, trigger_id, kind).rows.len() == s.rows.len(),
        forall|i: int|
            0 <= i < s.rows.len() && s.agrees(s.rows[i]) ==> s.remove(
                task_id,
                trigger_id,
                kind,
            ).agrees(#[trigger] s.remove(task_id, trigger_id, kind).rows[i]),
        s.remove(task_id, trigger_id, kind).last_id == s.last_id,
        forall|id: u128| #[trigger]
            s.remove(task_id, trigger_id, kind).live.contains_key(id) ==> s.live.contains_key(id)
                && s.live[id] == s.remove(task_id, trigger_id, kind).live[id],
{
    let after = s.remove(task_id, trigger_id, kind);
    lemma_set_job(s.rows, task_id, kind, None);
    assert forall|i: int| 0 <= i < after.rows.len() implies (#[trigger] after.rows[i]).jobs().at_most(
        after.last_id,
    ) by {
        assert(s.rows[i].jobs().at_most(s.last_id));
    }
    assert forall|i: int| 0 <= i < s.rows.len() && s.agrees(s.rows[i]) implies after.agrees(
        #[trigger] after.rows[i],
    ) by {
        assert forall|k: JobType| (#[trigger] after.rows[i].jobs().field(k)) is Some implies after.is_live_for(
            after.rows[i].jobs().field(k)->Some_0,
            after.rows[i].id,
            k,
        ) by {
            let x = after.rows[i].jobs().field(k)->Some_0;
            assert(s.rows[i].jobs().field(k) == Some(x));
            assert(s.is_live_for(x, s.rows[i].id, k));
        }
    }
}

/// A trigger that fires keeps the state well-formed, and keeps the records
/// in agreement with the live triggers where they were.
pub proof fn lemma_fire(s: State, trigger_id: u128)
    requires
        s.wf(),
    ensures
        s.fire(trigger_id).wf(),
        s.consistent() ==> s.fire(trigger_id).consistent(),
        s.fire(trigger_id).last_id == s.last_id,
{
    if s.live.contains_key(trigger_id) && s.live[trigger_id].job_type.one_shot() {
        lemma_remove(s, s.live[trigger_id].task_id, trigger_id, s.live[trigger_id].job_type);
    }
}

/// Putting a task into the store keeps the state well-formed.
pub proof fn lemma_put(s: State, task: Task)
    requires
        s.wf(),
    ensures
        s.put(task).wf(),
        s.put(task).last_id >= s.last_id,
        s.put(task).rows.len() >= s.rows.len(),
        has_task(s.put(task).rows, task.id),
        task_of(s.put(task).rows, task.id) == task,
        forall|i: int|
            0 <= i < s.rows.len() && s.rows[i].id != task.id ==> #[trigger] s.put(task).rows[i]
                == s.rows[i],
        forall|i: int|
            0 <= i < s.put(task).rows.len() && (#[trigger] s.put(task).rows[i]).id != task.id ==> i
                < s.rows.len(),
{
    let after = s.put(task);
    if has_task(s.rows, task.id) {
        let i = index_of(s.rows, task.id);
        assert(after.rows[i] == task);
        assert forall|a: int, b: int| 0 <= a < b < after.rows.len() implies (
        #[trigger] after.rows[a]).id != (#[trigger] after.rows[b]).id by {
            assert(after.rows[a].id == s.rows[a].id);
            assert(after.rows[b].id == s.rows[b].id);
        }
        assert forall|k: int| 0 <= k < after.rows.len() implies (#[trigger] after.rows[k]).jobs().at_most(
            after.last_id,
        ) by {
            if k != i {
                assert(s.rows[k].jobs().at_most(s.last_id));
            }
        }
    } else {
        assert forall|a: int, b: int| 0 <= a < b < after.rows.len() implies (
        #[trigger] after.rows[a]).id != (#[trigger] after.rows[b]).id by {
            assert(after.rows[a] == s.rows[a]);
            if b < s.rows.len() {
                assert(after.rows[b] == s.rows[b]);
            }
        }
        assert forall|k: int| 0 <= k < after.rows.len() implies (#[trigger] after.rows[k]).jobs().at_most(
            after.last_id,
        ) by {
            if k < s.rows.len() {
                assert(s.rows[k].jobs().at_most(s.last_id));
            }
        }
        assert(after.rows[s.rows.len() as int] == task);
    }
    let at = if has_task(s.rows, task.id) {
        index_of(s.rows, task.id)
    } else {
        s.rows.len() as int
    };
    lemma_task_at(after.rows, at);
}

/// Registering for two runs of expressions, one after the other, is
/// registering for the two joined.
pub proof fn lemma_register_each_append(
    s: State,
    task_id: u128,
    a: Seq<TriggerExpression>,
    b: Seq<TriggerExpression>,
)
    ensures
        s.register_each(task_id, a + b) == s.register_each(task_id, a).register_each(task_id, b),
    decreases b.len(),
{
    if b.len() == 0 {
        assert(a + b =~= a);
    } else {
        lemma_register_each_append(s, task_id, a, b.drop_last());
        assert((a + b).drop_last() =~= a + b.drop_last());
        assert((a + b).last() == b.last());
    }
}

/// Registering for no expression changes nothing, and registering for one
/// registers its trigger.
pub proof fn lemma_register_each_short(s: State, task_id: u128, part: Seq<TriggerExpression>)
    requires
        part.len() <= 1,
    ensures
        s.register_each(task_id, part) == if part.len() == 0 {
            s
        } else {
            s.register(task_id, part[0].job_type, part[0].schedule)
        },
{
    if part.len() == 1 {
        assert(part.drop_last().len() == 0);
        assert(s.register_each(task_id, part.drop_last()) == s);
    }
}

/// What computing the triggers of a task anew makes of the state. The
/// state stays well-formed. Every other task stands as it did; the task
/// itself keeps everything but its record. Its record names a trigger only
/// of a kind that the task is owed, and of every such kind while three ids
/// are left to issue; each id that it names was issued in this step, and
/// its trigger is live. A record that agreed with the live triggers still
/// does, and that of the task does in any case.
pub proof fn lemma_register_all(s: State, task_id: u128, now: i64)
    requires
        s.wf(),
        has_task(s.rows, task_id),
    ensures
        ({
            let after = s.register_all(task_id, now);
            let task = task_of(s.rows, task_id);
            &&& after.wf()
            &&& after.rows.len() == s.rows.len()
            &&& s.last_id <= after.last_id <= s.last_id + 3
            &&& after.started == s.started
            &&& forall|i: int|
                0 <= i < s.rows.len() && s.rows[i].id != task_id ==> #[trigger] after.rows[i]
                    == s.rows[i]
            &&& forall|i: int|
                0 <= i < s.rows.len() && s.rows[i].id == task_id ==> (
                #[trigger] after.rows[i]).without_jobs() == s.rows[i].without_jobs()
            &&& forall|i: int, kind: JobType|
                0 <= i < s.rows.len() && s.rows[i].id == task_id && (
                #[trigger] after.rows[i].jobs().field(kind)) is Some ==> owed(task, kind) && s.last_id
                    < after.rows[i].jobs().field(kind)->Some_0 && after.is_live_for(
                    after.rows[i].jobs().field(kind)->Some_0,
                    task_id,
                    kind,
                )
            &&& s.last_id <= u128::MAX - 3 ==> forall|i: int, kind: JobType|
                0 <= i < s.rows.len() && s.rows[i].id == task_id && owed(task, kind) ==> (
                #[trigger] after.rows[i].jobs().field(kind)) is Some
            &&& s.can_issue() && owed(task, JobType::Pester) ==> forall|i: int|
                0 <= i < s.rows.len() && s.rows[i].id == task_id ==> (
                #[trigger] after.rows[i]).pester_job is Some
            &&& forall|i: int|
                0 <= i < s.rows.len() && (s.agrees(s.rows[i]) || s.rows[i].id == task_id)
                    ==> after.agrees(#[trigger] after.rows[i])
            &&& forall|id: u128| #[trigger]
                after.live.contains_key(id) && after.live[id].task_id == task_id ==> owed(
                    task,
                    after.live[id].job_type,
                ) && s.last_id < id && after.live[id].schedule == owed_schedule(
                    task,
                    after.live[id].job_type,
                )
            &&& forall|id: u128| #[trigger]
                after.live.contains_key(id) && after.live[id].task_id != task_id
                    ==> s.live.contains_key(id) && s.live[id] == after.live[id]
            &&& forall|id: u128| #[trigger]
                s.live.contains_key(id) && s.live[id].task_id != task_id
                    ==> after.live.contains_key(id)
        }),
{
    let task = task_of(s.rows, task_id);
    let s0 = s.clear_task(task_id);
    lemma_clear_task(s, task_id);
    let p = pester_part(task.pester, task.checked);
    let o = one_shot_part(JobType::Overdue, now, task.due_at, OVERDUE_DELAY_SECONDS as int);
    let r = one_shot_part(JobType::Reminder, now, task.due_at, -(REMINDER_LEAD_SECONDS as int));
    let s1 = s0.register_each(task_id, p);
    let s2 = s1.register_each(task_id, o);
    let s3 = s2.register_each(task_id, r);
    lemma_register_each_append(s0, task_id, p + o, r);
    lemma_register_each_append(s0, task_id, p, o);
    assert(s.register_all(task_id, now) == s3);
    lemma_register_each_short(s0, task_id, p);
    lemma_register_each_short(s1, task_id, o);
    lemma_register_each_short(s2, task_id, r);
    if p.len() > 0 {
        lemma_register(s0, task_id, p[0].job_type, p[0].schedule);
    }
    if o.len() > 0 {
        lemma_register(s1, task_id, o[0].job_type, o[0].schedule);
    }
    if r.len() > 0 {
        lemma_register(s2, task_id, r[0].job_type, r[0].schedule);
    }
    assert forall|i: int| 0 <= i < s.rows.len() implies {
        &&& s1.rows[i] == if s.rows[i].id == task_id && p.len() > 0 && s0.can_issue() {
            s0.rows[i].with_job(JobType::Pester, Some((s0.last_id + 1) as u128))
        } else {
            s0.rows[i]
        }
        &&& s2.rows[i] == if s.rows[i].id == task_id && o.len() > 0 && s1.can_issue() {
            s1.rows[i].with_job(JobType::Overdue, Some((s1.last_id + 1) as u128))
        } else {
            s1.rows[i]
        }
        &&& #[trigger] s3.rows[i] == if s.rows[i].id == task_id && r.len() > 0 && s2.can_issue() {
            s2.rows[i].with_job(JobType::Reminder, Some((s2.last_id + 1) as u128))
        } else {
            s2.rows[i]
        }
    } by {
        assert(s0.rows[i].id == s.rows[i].id);
        assert(s1.rows[i].id == s.rows[i].id);
        assert(s2.rows[i].id == s.rows[i].id);
    }
    lemma_task_at(s.rows, index_of(s.rows, task_id));
    assert forall|i: int, kind: JobType|
        0 <= i < s.rows.len() && s.rows[i].id == task_id && (#[trigger] s3.rows[i].jobs().field(
            kind,
        )) is Some implies owed(task, kind) && s.last_id < s3.rows[i].jobs().field(kind)->Some_0
        && s3.is_live_for(s3.rows[i].jobs().field(kind)->Some_0, task_id, kind) by {
        assert(index_of(s.rows, task_id) == i) by {
            lemma_task_at(s.rows, i);
        }
    }
    assert forall|i: int|
        0 <= i < s.rows.len() && (s.agrees(s.rows[i]) || s.rows[i].id == task_id) implies s3.agrees(
        #[trigger] s3.rows[i],
    ) by {
        assert(s0.agrees(s0.rows[i]));
        assert(s1.agrees(s1.rows[i]));
        assert(s2.agrees(s2.rows[i]));
    }
    if s.last_id <= u128::MAX - 3 {
        assert forall|i: int, kind: JobType|
            0 <= i < s.rows.len() && s.rows[i].id == task_id && owed(task, kind) implies (
        #[trigger] s3.rows[i].jobs().field(kind)) is Some by {
            assert(index_of(s.rows, task_id) == i) by {
                lemma_task_at(s.rows, i);
            }
        }
    }
}

/// The record of the task in a row is the record of that row.
pub proof fn lemma_record_at(s: State, i: int)
    requires
        s.wf(),
        0 <= i < s.rows.len(),
    ensures
        s.record(s.rows[i].id) == Some(s.rows[i].jobs()),
{
    lemma_task_at(s.rows, i);
}

/// Removing the ids of a stale record keeps the state well-formed. Every
/// other task stands as it did, and the task itself keeps everything but
/// its record. A record that agreed with the live triggers still does.
pub proof fn lemma_discard_stale(s: State, task_id: u128, jobs: TaskJobs)
    requires
        s.wf(),
    ensures
        ({
            let after = s.discard_stale(task_id, jobs);
            &&& after.wf()
            &&& after.rows.len() == s.rows.len()
            &&& after.last_id == s.last_id
            &&& after.started == s.started
            &&& forall|i: int|
                0 <= i < s.rows.len() && s.rows[i].id != task_id ==> #[trigger] after.rows[i]
                    == s.rows[i]
            &&& forall|i: int|
                0 <= i < s.rows.len() ==> (#[trigger] after.rows[i]).without_jobs()
                    == s.rows[i].without_jobs()
            &&& forall|i: int|
                0 <= i < s.rows.len() && s.agrees(s.rows[i]) ==> after.agrees(
                    #[trigger] after.rows[i],
                )
            &&& forall|id: u128| #[trigger]
                after.live.contains_key(id) ==> s.live.contains_key(id) && s.live[id]
                    == after.live[id]
        }),
{
    let s1 = s.discard(task_id, jobs.pester, JobType::Pester);
    let s2 = s1.discard(task_id, jobs.overdue, JobType::Overdue);
    let s3 = s2.discard(task_id, jobs.reminder, JobType::Reminder);
    if let Some(id) = jobs.pester {
        lemma_remove(s, task_id, id, JobType::Pester);
    }
    if let Some(id) = jobs.overdue {
        lemma_remove(s1, task_id, id, JobType::Overdue);
    }
    if let Some(id) = jobs.reminder {
        lemma_remove(s2, task_id, id, JobType::Reminder);
    }
    assert forall|i: int| 0 <= i < s.rows.len() implies {
        &&& s1.rows[i].id == s.rows[i].id
        &&& s2.rows[i].id == s.rows[i].id
        &&& (s.rows[i].id != task_id ==> #[trigger] s3.rows[i] == s.rows[i])
        &&& s3.rows[i].without_jobs() == s.rows[i].without_jobs()
        &&& (s.agrees(s.rows[i]) ==> s3.agrees(s3.rows[i]))
    } by {
        assert(s1.rows[i].without_jobs() == s.rows[i].without_jobs());
        assert(s2.rows[i].without_jobs() == s1.rows[i].without_jobs());
        if s.agrees(s.rows[i]) {
            assert(s1.agrees(s1.rows[i]));
            assert(s2.agrees(s2.rows[i]));
        }
    }
}

} // verus!
