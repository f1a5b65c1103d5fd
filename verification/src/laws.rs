//! The laws of the scheduler, proved of its state.

use vstd::prelude::*;
use crate::expression::emits_pester;
use crate::expression::Schedule;
use crate::invariants::{
    lemma_discard_stale, lemma_put, lemma_record_at, lemma_register, lemma_register_all,
    lemma_remove,
};
use crate::job::{JobType, TaskJobs};
use crate::model::Task;
use crate::state::{owed, owed_schedule, Notification, State};
use crate::store::{distinct_ids, has_task, index_of, lemma_task_at, stale_entries, task_of};

verus! {

/// Whether a task is among the entries.
pub open spec fn listed(entries: Seq<(u128, TaskJobs)>, task_id: u128) -> bool {
    exists|j: int| 0 <= j < entries.len() && (#[trigger] entries[j]).0 == task_id
}

/// Whether `id` stands in the record of some task of the state.
pub open spec fn recorded(s: State, id: u128) -> bool {
    exists|i: int| 0 <= i < s.rows.len() && (#[trigger] s.rows[i]).jobs().holds(id)
}

/// Computing the triggers of a task anew yields a pester id where the task
/// recurs with a positive interval and is not completed, as long as an id
/// is left to issue, and yields none where the task is completed.
pub proof fn law_pester_follows_status(s: State, task_id: u128, now: i64)
    requires
        s.wf(),
        has_task(s.rows, task_id),
    ensures
        ({
            let task = task_of(s.rows, task_id);
            let record = s.register_all(task_id, now).record(task_id);
            &&& record is Some
            &&& (task.pester matches Some(n) && n > 0 && !task.checked && s.can_issue())
                ==> record->Some_0.pester is Some
            &&& task.checked ==> record->Some_0.pester is None
            &&& record->Some_0.pester is Some ==> emits_pester(task.pester, task.checked)
        }),
{
    let i = index_of(s.rows, task_id);
    let after = s.register_all(task_id, now);
    lemma_task_at(s.rows, i);
    lemma_register_all(s, task_id, now);
    assert(after.rows[i].without_jobs() == s.rows[i].without_jobs());
    lemma_record_at(after, i);
    assert(after.rows[i].jobs().field(JobType::Pester) == after.rows[i].pester_job);
}

/// The record of a task after its triggers were computed anew names a
/// trigger of exactly the kinds that the task is owed, as long as three ids
/// are left to issue. Every id in it is new, and its trigger is live.
pub proof fn law_register_all_record(s: State, task_id: u128, now: i64, kind: JobType)
    requires
        s.wf(),
        has_task(s.rows, task_id),
    ensures
        ({
            let task = task_of(s.rows, task_id);
            let after = s.register_all(task_id, now);
            let record = after.record(task_id);
            &&& after.wf()
            &&& record is Some
            &&& record->Some_0.populated(kind) ==> owed(task, kind)
            &&& s.last_id <= u128::MAX - 3 && owed(task, kind) ==> record->Some_0.populated(kind)
            &&& record->Some_0.field(kind) matches Some(id) ==> s.last_id < id && !recorded(s, id)
                && after.is_live_for(id, task_id, kind)
        }),
{
    let i = index_of(s.rows, task_id);
    let after = s.register_all(task_id, now);
    lemma_task_at(s.rows, i);
    lemma_register_all(s, task_id, now);
    assert(after.rows[i].without_jobs() == s.rows[i].without_jobs());
    lemma_record_at(after, i);
    if after.rows[i].jobs().field(kind) is Some {
        let id = after.rows[i].jobs().field(kind)->Some_0;
        if recorded(s, id) {
            let k = choose|k: int| 0 <= k < s.rows.len() && (#[trigger] s.rows[k]).jobs().holds(id);
            assert(s.rows[k].jobs().at_most(s.last_id));
        }
    }
}

/// After the triggers of a task were computed anew, each of its live
/// triggers is of a kind that the task is owed: a pester trigger is live
/// only while the task recurs with a positive interval and is not
/// completed, an overdue or reminder trigger only while the task has a due
/// instant. The live triggers of every other task are the ones it had.
pub proof fn law_triggers_follow_task(s: State, task_id: u128, now: i64, id: u128)
    requires
        s.wf(),
        has_task(s.rows, task_id),
    ensures
        ({
            let task = task_of(s.rows, task_id);
            let after = s.register_all(task_id, now);
            &&& after.live.contains_key(id) && after.live[id].task_id == task_id ==> owed(
                task,
                after.live[id].job_type,
            ) && !s.live.contains_key(id)
            &&& after.live.contains_key(id) && after.live[id].job_type == JobType::Pester
                && after.live[id].task_id == task_id ==> task.pester is Some && !task.checked
            &&& after.live.contains_key(id) && after.live[id].job_type.one_shot()
                && after.live[id].task_id == task_id ==> task.due_at is Some
            &&& after.live.contains_key(id) && after.live[id].task_id != task_id
                ==> s.live.contains_key(id) && s.live[id] == after.live[id]
            &&& s.live.contains_key(id) && s.live[id].task_id != task_id
                ==> after.live.contains_key(id)
        }),
{
    lemma_register_all(s, task_id, now);
}

/// Two successive computations of the triggers of a task, with no change
/// to the task between them, populate the same kinds, and no id of the
/// second record is an id of the first. Six ids must be left to issue.
pub proof fn law_register_all_twice(s: State, task_id: u128, now: i64, later: i64)
    requires
        s.wf(),
        has_task(s.rows, task_id),
        s.last_id <= u128::MAX - 6,
    ensures
        ({
            let once = s.register_all(task_id, now);
            let twice = once.register_all(task_id, later);
            &&& once.record(task_id) is Some
            &&& twice.record(task_id) is Some
            &&& forall|kind: JobType|
                once.record(task_id)->Some_0.populated(kind) == twice.record(
                    task_id,
                )->Some_0.populated(kind)
            &&& forall|id: u128|
                twice.record(task_id)->Some_0.holds(id) ==> !once.record(task_id)->Some_0.holds(id)
        }),
{
    let i = index_of(s.rows, task_id);
    let once = s.register_all(task_id, now);
    let twice = once.register_all(task_id, later);
    lemma_task_at(s.rows, i);
    lemma_register_all(s, task_id, now);
    assert(once.rows[i].without_jobs() == s.rows[i].without_jobs());
    lemma_task_at(once.rows, i);
    lemma_register_all(once, task_id, later);
    assert(twice.rows[i].without_jobs() == once.rows[i].without_jobs());
    lemma_task_at(twice.rows, i);
    let task = s.rows[i];
    assert(forall|kind: JobType| owed(once.rows[i], kind) == owed(task, kind));
    assert forall|kind: JobType|
        once.rows[i].jobs().populated(kind) == twice.rows[i].jobs().populated(kind) by {
        if once.rows[i].jobs().field(kind) is Some {
            assert(owed(task, kind));
        }
        if twice.rows[i].jobs().field(kind) is Some {
            assert(owed(task, kind));
        }
        if owed(task, kind) {
            assert(once.rows[i].jobs().field(kind) is Some);
            assert(twice.rows[i].jobs().field(kind) is Some);
        }
    }
    assert forall|id: u128| twice.rows[i].jobs().holds(id) implies !once.rows[i].jobs().holds(
        id,
    ) by {
        assert(once.rows[i].jobs().at_most(once.last_id));
        let kind = if twice.rows[i].jobs().pester == Some(id) {
            JobType::Pester
        } else if twice.rows[i].jobs().overdue == Some(id) {
            JobType::Overdue
        } else {
            JobType::Reminder
        };
        assert(twice.rows[i].jobs().field(kind) == Some(id));
    }
}

/// Removing a trigger a second time with the same arguments changes
/// nothing: the trigger is not live any more, and the state stays as the
/// first removal left it.
pub proof fn law_remove_twice(s: State, task_id: u128, trigger_id: u128, kind: JobType)
    ensures
        ({
            let once = s.remove(task_id, trigger_id, kind);
            &&& once.remove(task_id, trigger_id, kind) == once
            &&& !once.is_live_for(trigger_id, task_id, kind)
        }),
{
    let once = s.remove(task_id, trigger_id, kind);
    let twice = once.remove(task_id, trigger_id, kind);
    assert(twice.rows =~= once.rows);
    assert(twice.live =~= once.live);
}

/// What reconciling the tasks of some entries makes of the state.
proof fn lemma_reconcile_each(s: State, entries: Seq<(u128, TaskJobs)>, now: i64)
    requires
        s.wf(),
    ensures
        ({
            let after = s.reconcile_each(entries, now);
            &&& after.wf()
            &&& after.rows.len() == s.rows.len()
            &&& after.started == s.started
            &&& s.last_id <= after.last_id <= s.last_id + 3 * entries.len()
            &&& forall|i: int|
                0 <= i < s.rows.len() ==> (#[trigger] after.rows[i]).without_jobs()
                    == s.rows[i].without_jobs()
            &&& forall|i: int|
                0 <= i < s.rows.len() && !listed(entries, s.rows[i].id) ==> #[trigger] after.rows[i]
                    == s.rows[i]
            &&& forall|i: int, kind: JobType|
                0 <= i < s.rows.len() && listed(entries, s.rows[i].id) && (
                #[trigger] after.rows[i].jobs().field(kind)) is Some ==> owed(s.rows[i], kind)
                    && s.last_id < after.rows[i].jobs().field(kind)->Some_0
            &&& s.last_id + 3 * entries.len() <= u128::MAX ==> forall|i: int, kind: JobType|
                0 <= i < s.rows.len() && listed(entries, s.rows[i].id) && owed(s.rows[i], kind)
                    ==> (#[trigger] after.rows[i].jobs().field(kind)) is Some
            &&& forall|i: int|
                0 <= i < s.rows.len() && (s.agrees(s.rows[i]) || listed(entries, s.rows[i].id))
                    ==> after.agrees(#[trigger] after.rows[i])
            &&& forall|id: u128| #[trigger]
                after.live.contains_key(id) && !listed(entries, after.live[id].task_id)
                    ==> s.live.contains_key(id) && s.live[id] == after.live[id]
        }),
    decreases entries.len(),
{
    if entries.len() > 0 {
        let rest = entries.drop_last();
        let (task_id, jobs) = entries.last();
        let mid = s.reconcile_each(rest, now);
        lemma_reconcile_each(s, rest, now);
        let cleared = mid.discard_stale(task_id, jobs);
        lemma_discard_stale(mid, task_id, jobs);
        let after = cleared.register_all(task_id, now);
        assert(after == s.reconcile_each(entries, now));
        assert(entries[entries.len() - 1].0 == task_id);
        assert forall|id: u128| listed(entries, id) && id != task_id implies listed(rest, id) by {
            let j = choose|j: int| 0 <= j < entries.len() && (#[trigger] entries[j]).0 == id;
            assert(rest[j] == entries[j]);
        }
        assert forall|id: u128| listed(rest, id) implies listed(entries, id) by {
            let j = choose|j: int| 0 <= j < rest.len() && (#[trigger] rest[j]).0 == id;
            assert(entries[j] == rest[j]);
        }
        assert(listed(entries, task_id));
        if has_task(cleared.rows, task_id) {
            let at = index_of(cleared.rows, task_id);
            lemma_task_at(cleared.rows, at);
            lemma_register_all(cleared, task_id, now);
            let task = task_of(cleared.rows, task_id);
            assert(task.without_jobs() == s.rows[at].without_jobs());
            assert forall|i: int| 0 <= i < s.rows.len() implies {
                &&& (#[trigger] after.rows[i]).without_jobs() == s.rows[i].without_jobs()
                &&& (!listed(entries, s.rows[i].id) ==> after.rows[i] == s.rows[i])
                &&& ((s.agrees(s.rows[i]) || listed(entries, s.rows[i].id)) ==> after.agrees(
                    after.rows[i],
                ))
            } by {
                assert(cleared.rows[i].without_jobs() == mid.rows[i].without_jobs());
                assert(mid.rows[i].without_jobs() == s.rows[i].without_jobs());
                if s.rows[i].id != task_id {
                    assert(after.rows[i] == cleared.rows[i]);
                    assert(cleared.rows[i] == mid.rows[i]);
                }
                if s.agrees(s.rows[i]) || listed(rest, s.rows[i].id) {
                    assert(mid.agrees(mid.rows[i]));
                    assert(cleared.agrees(cleared.rows[i]));
                }
            }
            assert forall|i: int, kind: JobType|
                0 <= i < s.rows.len() && listed(entries, s.rows[i].id) && (
                #[trigger] after.rows[i].jobs().field(kind)) is Some implies owed(s.rows[i], kind)
                && s.last_id < after.rows[i].jobs().field(kind)->Some_0 by {
                assert(cleared.rows[i].without_jobs() == mid.rows[i].without_jobs());
                assert(mid.rows[i].without_jobs() == s.rows[i].without_jobs());
                if s.rows[i].id == task_id {
                    lemma_task_at(cleared.rows, i);
                    assert(owed(task, kind) == owed(s.rows[i], kind));
                } else {
                    assert(after.rows[i] == cleared.rows[i]);
                    assert(cleared.rows[i] == mid.rows[i]);
                    assert(mid.rows[i].jobs().field(kind) is Some);
                }
            }
            if s.last_id + 3 * entries.len() <= u128::MAX {
                assert forall|i: int, kind: JobType|
                    0 <= i < s.rows.len() && listed(entries, s.rows[i].id) && owed(
                        s.rows[i],
                        kind,
                    ) implies (#[trigger] after.rows[i].jobs().field(kind)) is Some by {
                    assert(cleared.rows[i].without_jobs() == mid.rows[i].without_jobs());
                    assert(mid.rows[i].without_jobs() == s.rows[i].without_jobs());
                    if s.rows[i].id == task_id {
                        lemma_task_at(cleared.rows, i);
                        assert(owed(task, kind) == owed(s.rows[i], kind));
                    } else {
                        assert(after.rows[i] == cleared.rows[i]);
                        assert(cleared.rows[i] == mid.rows[i]);
                        assert(mid.rows[i].jobs().field(kind) is Some);
                    }
                }
            }
        } else {
            assert(after == cleared);
            assert forall|i: int| 0 <= i < s.rows.len() implies s.rows[i].id != task_id by {
                assert(cleared.rows[i].without_jobs() == mid.rows[i].without_jobs());
                assert(mid.rows[i].without_jobs() == s.rows[i].without_jobs());
                assert(cleared.rows[i].id == s.rows[i].id);
            }
            assert forall|i: int| 0 <= i < s.rows.len() implies {
                &&& (#[trigger] after.rows[i]).without_jobs() == s.rows[i].without_jobs()
                &&& (!listed(entries, s.rows[i].id) ==> after.rows[i] == s.rows[i])
                &&& ((s.agrees(s.rows[i]) || listed(entries, s.rows[i].id)) ==> after.agrees(
                    after.rows[i],
                ))
            } by {
                assert(cleared.rows[i] == mid.rows[i]);
                assert(mid.rows[i].without_jobs() == s.rows[i].without_jobs());
                if s.agrees(s.rows[i]) || listed(rest, s.rows[i].id) {
                    assert(mid.agrees(mid.rows[i]));
                    assert(cleared.agrees(cleared.rows[i]));
                }
            }
            assert forall|i: int, kind: JobType|
                0 <= i < s.rows.len() && listed(entries, s.rows[i].id) && (
                #[trigger] after.rows[i].jobs().field(kind)) is Some implies owed(s.rows[i], kind)
                && s.last_id < after.rows[i].jobs().field(kind)->Some_0 by {
                assert(cleared.rows[i] == mid.rows[i]);
                assert(mid.rows[i].jobs().field(kind) is Some);
            }
            if s.last_id + 3 * entries.len() <= u128::MAX {
                assert forall|i: int, kind: JobType|
                    0 <= i < s.rows.len() && listed(entries, s.rows[i].id) && owed(
                        s.rows[i],
                        kind,
                    ) implies (#[trigger] after.rows[i].jobs().field(kind)) is Some by {
                    assert(cleared.rows[i] == mid.rows[i]);
                    assert(mid.rows[i].jobs().field(kind) is Some);
                }
            }
        }
    }
}

/// Every task that has a trigger of any kind is among the stale entries.
proof fn lemma_stale_listed(rows: Seq<Task>, i: int)
    requires
        0 <= i < rows.len(),
        rows[i].jobs().any(),
    ensures
        listed(stale_entries(rows), rows[i].id),
        stale_entries(rows).len() <= rows.len(),
{
    let any = |t: Task| t.jobs().any();
    rows.lemma_filter_len(any);
    rows.lemma_filter_contains(any, i);
    let kept = rows.filter(any);
    assert(kept.contains(rows[i]));
    let j = choose|j: int| 0 <= j < kept.len() && kept[j] == rows[i];
    assert(stale_entries(rows)[j].0 == rows[i].id);
}

/// After reconciliation the state is well-formed and every trigger record
/// agrees with the live triggers: each id that a record names is the id of
/// a live trigger of that task and kind.
pub proof fn law_reconcile_restores_agreement(s: State, now: i64)
    requires
        s.wf(),
    ensures
        s.reconcile(now).wf(),
        s.reconcile(now).consistent(),
        s.reconcile(now).started == s.started,
        s.reconcile(now).rows.len() == s.rows.len(),
{
    let entries = stale_entries(s.rows);
    let after = s.reconcile(now);
    lemma_reconcile_each(s, entries, now);
    assert forall|i: int| 0 <= i < after.rows.len() implies after.agrees(#[trigger] after.rows[i]) by {
        if s.rows[i].jobs().any() {
            lemma_stale_listed(s.rows, i);
        } else if !listed(entries, s.rows[i].id) {
            assert(after.rows[i] == s.rows[i]);
        }
    }
}

/// Reconciliation converges. Of a task whose record named a trigger of any
/// kind before, the record names afterwards a trigger of exactly the kinds
/// that the task is owed, which are the kinds that a fresh computation of
/// its triggers populates; and no id in it was recorded for any task
/// before. Three ids for each task of the store must be left to issue.
pub proof fn law_reconcile_converges(s: State, now: i64, task_id: u128)
    requires
        s.wf(),
        has_task(s.rows, task_id),
        task_of(s.rows, task_id).jobs().any(),
        s.last_id + 3 * s.rows.len() <= u128::MAX,
    ensures
        ({
            let task = task_of(s.rows, task_id);
            let after = s.reconcile(now).record(task_id);
            let fresh = s.register_all(task_id, now).record(task_id);
            &&& after is Some
            &&& fresh is Some
            &&& forall|kind: JobType| after->Some_0.populated(kind) == owed(task, kind)
            &&& forall|kind: JobType|
                after->Some_0.populated(kind) == fresh->Some_0.populated(kind)
            &&& forall|id: u128| after->Some_0.holds(id) ==> !recorded(s, id)
        }),
{
    let i = index_of(s.rows, task_id);
    lemma_task_at(s.rows, i);
    let task = s.rows[i];
    let entries = stale_entries(s.rows);
    let done = s.reconcile(now);
    lemma_stale_listed(s.rows, i);
    lemma_reconcile_each(s, entries, now);
    assert(3 * entries.len() <= 3 * s.rows.len());
    assert(done.rows[i].without_jobs() == s.rows[i].without_jobs());
    lemma_record_at(done, i);
    let after = done.rows[i].jobs();
    assert forall|kind: JobType| after.populated(kind) == owed(task, kind) by {
        if after.field(kind) is Some {
            assert(owed(task, kind));
        }
        if owed(task, kind) {
            assert(done.rows[i].jobs().field(kind) is Some);
        }
    }
    assert forall|kind: JobType| #![auto] after.populated(kind) == s.register_all(
        task_id,
        now,
    ).record(task_id)->Some_0.populated(kind) by {
        law_register_all_record(s, task_id, now, kind);
    }
    law_register_all_record(s, task_id, now, JobType::Pester);
    assert forall|id: u128| after.holds(id) implies !recorded(s, id) by {
        let kind = if after.pester == Some(id) {
            JobType::Pester
        } else if after.overdue == Some(id) {
            JobType::Overdue
        } else {
            JobType::Reminder
        };
        assert(done.rows[i].jobs().field(kind) == Some(id));
        if recorded(s, id) {
            let k = choose|k: int| 0 <= k < s.rows.len() && (#[trigger] s.rows[k]).jobs().holds(id);
            assert(s.rows[k].jobs().at_most(s.last_id));
        }
    }
}

/// A completed task is not pestered: once its triggers were computed
/// anew, its record names no pester trigger, and whichever trigger fires,
/// the notifier is not told to pester for the task.
pub proof fn law_completed_task_is_not_pestered(s: State, task_id: u128, now: i64, fired: u128)
    requires
        s.wf(),
        has_task(s.rows, task_id),
        task_of(s.rows, task_id).checked,
    ensures
        s.register_all(task_id, now).record(task_id) matches Some(record) && record.pester
            is None,
        s.register_all(task_id, now).notification(fired) != Some(
            Notification { task_id, job_type: JobType::Pester },
        ),
{
    law_pester_follows_status(s, task_id, now);
    law_triggers_follow_task(s, task_id, now, fired);
}

/// A one-shot trigger fires once. When it fires, the notifier is told its
/// task and kind; after that it is live no more, the record of its task
/// names no trigger of its kind, and a second firing tells the notifier
/// nothing and changes nothing. A recurring trigger stays as it is.
pub proof fn law_one_shot_fires_once(s: State, trigger_id: u128)
    requires
        s.wf(),
        s.live.contains_key(trigger_id),
    ensures
        ({
            let trigger = s.live[trigger_id];
            let after = s.fire(trigger_id);
            &&& s.notification(trigger_id) == Some(
                Notification { task_id: trigger.task_id, job_type: trigger.job_type },
            )
            &&& trigger.job_type.one_shot() ==> {
                &&& !after.live.contains_key(trigger_id)
                &&& after.notification(trigger_id) is None
                &&& after.fire(trigger_id) == after
                &&& after.record(trigger.task_id) matches Some(record) ==> !record.populated(
                    trigger.job_type,
                )
            }
            &&& !trigger.job_type.one_shot() ==> after == s
        }),
{
    let trigger = s.live[trigger_id];
    let after = s.fire(trigger_id);
    if trigger.job_type.one_shot() {
        lemma_remove(s, trigger.task_id, trigger_id, trigger.job_type);
        if has_task(after.rows, trigger.task_id) {
            let i = index_of(after.rows, trigger.task_id);
            lemma_task_at(after.rows, i);
        }
    }
}

/// A task that was changed in the store and whose triggers were then
/// computed anew leaves every record in agreement with the live triggers,
/// where they agreed before the change.
pub proof fn law_update_keeps_agreement(s: State, task: Task, now: i64)
    requires
        s.wf(),
        s.consistent(),
    ensures
        s.put(task).register_all(task.id, now).wf(),
        s.put(task).register_all(task.id, now).consistent(),
{
    let changed = s.put(task);
    lemma_put(s, task);
    lemma_register_all(changed, task.id, now);
    let after = changed.register_all(task.id, now);
    assert forall|i: int| 0 <= i < after.rows.len() implies after.agrees(#[trigger] after.rows[i]) by {
        if changed.rows[i].id != task.id {
            assert(changed.rows[i] == s.rows[i]);
            assert(s.agrees(s.rows[i]));
            assert(changed.agrees(changed.rows[i]));
        }
    }
}

/// A task whose record names no trigger is not among the stale entries.
proof fn lemma_unrecorded_not_listed(rows: Seq<Task>, i: int)
    requires
        distinct_ids(rows),
        0 <= i < rows.len(),
        !rows[i].jobs().any(),
    ensures
        !listed(stale_entries(rows), rows[i].id),
{
    let any = |t: Task| t.jobs().any();
    let kept = rows.filter(any);
    if listed(stale_entries(rows), rows[i].id) {
        let j = choose|j: int|
            0 <= j < stale_entries(rows).len() && (#[trigger] stale_entries(rows)[j]).0
                == rows[i].id;
        assert(kept[j].id == rows[i].id);
        rows.lemma_filter_pred(any, j);
        assert(kept.contains(kept[j]));
        rows.lemma_filter_contains_rev(any, kept[j]);
        let k = choose|k: int| 0 <= k < rows.len() && rows[k] == kept[j];
        if k < i {
            assert(rows[k].id != rows[i].id);
        } else if i < k {
            assert(rows[i].id != rows[k].id);
        }
    }
}

/// Reconciliation leaves a task alone whose record names no trigger: the
/// task stands as it did, its record stays empty, and it gets no trigger.
pub proof fn law_reconcile_leaves_unrecorded_tasks(s: State, now: i64, task_id: u128, id: u128)
    requires
        s.wf(),
        has_task(s.rows, task_id),
        !task_of(s.rows, task_id).jobs().any(),
    ensures
        has_task(s.reconcile(now).rows, task_id),
        task_of(s.reconcile(now).rows, task_id) == task_of(s.rows, task_id),
        s.reconcile(now).live.contains_key(id) && s.reconcile(now).live[id].task_id == task_id
            ==> s.live.contains_key(id) && s.live[id] == s.reconcile(now).live[id],
{
    let i = index_of(s.rows, task_id);
    lemma_task_at(s.rows, i);
    lemma_unrecorded_not_listed(s.rows, i);
    lemma_reconcile_each(s, stale_entries(s.rows), now);
    lemma_task_at(s.reconcile(now).rows, i);
}

/// A malformed schedule is skipped. Where the schedule is not one that a
/// trigger of the kind can have (a recurring one for another kind than
/// pester or with an interval of zero or less, a one-shot one for pester,
/// for an instant beyond the calendar or with other calendar fields than
/// those of its instant), registering changes nothing and gives no id.
pub proof fn law_malformed_schedule_is_skipped(
    s: State,
    task_id: u128,
    kind: JobType,
    schedule: Schedule,
)
    requires
        !schedule.well_formed_for(kind),
    ensures
        s.register(task_id, kind, schedule) == s,
        s.issued(kind, schedule) is None,
{
}

/// A trigger that the dispatch loop refuses is skipped, and its siblings
/// are left alone. After the trigger was registered and the loop refused
/// it, the trigger is live no more and the record of its task names no
/// trigger of its kind; every other live trigger and every other entry of
/// every record is as the registration left it. A trigger that the loop
/// accepts stays as registered.
pub proof fn law_refused_trigger_is_skipped(
    s: State,
    task_id: u128,
    kind: JobType,
    schedule: Schedule,
    other: u128,
)
    requires
        s.wf(),
        s.issued(kind, schedule) is Some,
    ensures
        ({
            let id = s.issued(kind, schedule)->Some_0;
            let registered = s.register(task_id, kind, schedule);
            let refused = registered.settle(id, false);
            &&& registered.settle(id, true) == registered
            &&& !refused.live.contains_key(id)
            &&& refused.record(task_id) matches Some(record) ==> record.field(kind) is None
            &&& other != id ==> refused.live.contains_key(other) == registered.live.contains_key(
                other,
            )
            &&& other != id && refused.live.contains_key(other) ==> refused.live[other]
                == registered.live[other]
            &&& refused.rows.len() == registered.rows.len()
            &&& forall|i: int|
                0 <= i < registered.rows.len() ==> #[trigger] refused.rows[i] == if registered.rows[i].id
                    == task_id {
                    registered.rows[i].with_job(kind, None)
                } else {
                    registered.rows[i]
                }
            &&& refused.wf()
        }),
{
    let id = s.issued(kind, schedule)->Some_0;
    let registered = s.register(task_id, kind, schedule);
    let refused = registered.settle(id, false);
    lemma_register(s, task_id, kind, schedule);
    lemma_remove(registered, task_id, id, kind);
    if has_task(refused.rows, task_id) {
        let at = index_of(refused.rows, task_id);
        lemma_task_at(refused.rows, at);
    }
}

/// The live triggers of a task carry the schedules of its expressions.
/// After the triggers of a task were computed anew, the trigger that its
/// record names for a kind is live, belongs to the task and the kind, and
/// has the schedule of the expression of that kind: the pester trigger
/// recurs with the interval of the task, the overdue trigger fires five
/// minutes after the due instant and the reminder an hour before it.
pub proof fn law_registered_schedules(s: State, task_id: u128, now: i64, kind: JobType)
    requires
        s.wf(),
        has_task(s.rows, task_id),
    ensures
        ({
            let task = task_of(s.rows, task_id);
            let after = s.register_all(task_id, now);
            after.record(task_id) matches Some(record) && (record.field(kind) matches Some(id) ==> {
                &&& after.is_live_for(id, task_id, kind)
                &&& after.live[id].schedule == owed_schedule(task, kind)
                &&& after.live[id].schedule.well_formed_for(kind)
            })
        }),
{
    law_register_all_record(s, task_id, now, kind);
    lemma_register_all(s, task_id, now);
}

} // verus!
