use shamebot::job::{JobType, TaskJobs};
use shamebot::model::{DatabaseError, Task};
use shamebot::registry::{ActiveTrigger, Registry};
use shamebot::expression::Schedule;
use shamebot::store::{highest_in, JobStore};

fn row(id: u128, jobs: TaskJobs) -> Task {
    Task {
        id,
        list_id: 2,
        user_id: 3,
        title: format!("task {}", id),
        content: Some(String::from("notes")),
        checked: false,
        pester: Some(2),
        due_at: None,
        proof_id: None,
        pester_job: jobs.pester,
        overdue_job: jobs.overdue,
        reminder_job: jobs.reminder,
    }
}

fn store_of(rows: Vec<Task>) -> JobStore {
    let mut store = JobStore::new();
    for t in rows {
        store.put(t);
    }
    store
}

#[test]
fn a_task_is_found_under_its_id() {
    let store = store_of(vec![row(1, TaskJobs::empty()), row(2, TaskJobs::empty())]);
    assert_eq!(Task::get(&store, 2).map(|t| t.title.clone()), Ok(String::from("task 2")));
    assert_eq!(Task::get(&store, 3).map(|t| t.id), Err(DatabaseError::no_row()));
    assert!(store.contains(1));
    assert!(!store.contains(3));
    assert_eq!(store.len(), 2);
}

#[test]
fn putting_a_task_with_a_known_id_replaces_it_in_place() {
    let mut store = store_of(vec![row(1, TaskJobs::empty()), row(2, TaskJobs::empty())]);
    let mut changed = row(1, TaskJobs::empty());
    changed.title = String::from("changed");
    store.put(changed);
    assert_eq!(store.len(), 2);
    assert_eq!(Task::get(&store, 1).unwrap().title, "changed");
    let all = Task::collect_all_jobs(&store).unwrap();
    assert!(all.is_empty());
}

#[test]
fn attaching_writes_one_field_of_one_task() {
    let mut store = store_of(vec![row(1, TaskJobs::empty()), row(2, TaskJobs::empty())]);
    assert_eq!(Task::attach_job(&mut store, 1, 70, JobType::Pester), Ok(()));
    assert_eq!(Task::attach_job(&mut store, 1, 71, JobType::Reminder), Ok(()));
    assert_eq!(Task::attach_job(&mut store, 2, 72, JobType::Overdue), Ok(()));
    assert_eq!(
        Task::collect_jobs(&store, 1),
        Ok(TaskJobs { pester: Some(70), reminder: Some(71), overdue: None })
    );
    assert_eq!(
        Task::collect_jobs(&store, 2),
        Ok(TaskJobs { pester: None, reminder: None, overdue: Some(72) })
    );
    assert_eq!(Task::get(&store, 1).unwrap().title, "task 1");
}

#[test]
fn removing_clears_one_field_whatever_id_it_held() {
    let jobs = TaskJobs { pester: Some(70), reminder: Some(71), overdue: Some(72) };
    let mut store = store_of(vec![row(1, jobs), row(2, jobs)]);
    assert_eq!(Task::remove_job(&mut store, 1, 999, JobType::Reminder), Ok(()));
    assert_eq!(Task::collect_jobs(&store, 1), Ok(TaskJobs { reminder: None, ..jobs }));
    assert_eq!(Task::collect_jobs(&store, 2), Ok(jobs));
}

#[test]
fn writes_for_an_unknown_kind_are_refused() {
    let jobs = TaskJobs { pester: Some(70), reminder: Some(71), overdue: Some(72) };
    let mut store = store_of(vec![row(1, jobs)]);
    assert_eq!(
        Task::attach_job(&mut store, 1, 5, JobType::Unknown),
        Err(DatabaseError::no_field())
    );
    assert_eq!(
        Task::remove_job(&mut store, 1, 70, JobType::Unknown),
        Err(DatabaseError::DBQueryError(String::from(
            "column \"unknown_job\" of relation \"tasks\" does not exist"
        )))
    );
    assert_eq!(Task::collect_jobs(&store, 1), Ok(jobs));
    store.set_trigger_id(1, JobType::Unknown, None);
    assert_eq!(Task::collect_jobs(&store, 1), Ok(jobs));
}

#[test]
fn writes_for_a_task_that_the_store_lacks_change_nothing() {
    let jobs = TaskJobs { pester: Some(70), reminder: None, overdue: None };
    let mut store = store_of(vec![row(1, jobs)]);
    assert_eq!(Task::attach_job(&mut store, 9, 5, JobType::Pester), Ok(()));
    assert_eq!(Task::remove_job(&mut store, 9, 70, JobType::Pester), Ok(()));
    assert_eq!(Task::collect_jobs(&store, 1), Ok(jobs));
    assert_eq!(
        Task::collect_jobs(&store, 9),
        Err(DatabaseError::DBQueryError(String::from(
            "query returned an unexpected number of rows"
        )))
    );
}

#[test]
fn only_tasks_with_a_trigger_are_listed_in_the_order_of_the_store() {
    let a = TaskJobs { pester: Some(1), reminder: None, overdue: None };
    let b = TaskJobs { pester: None, reminder: None, overdue: Some(2) };
    let store = store_of(vec![row(5, b), row(3, TaskJobs::empty()), row(9, a), row(1, a)]);
    assert_eq!(Task::collect_all_jobs(&store), Ok(vec![(5, b), (9, a), (1, a)]));
    assert_eq!(Task::collect_all_jobs(&JobStore::new()), Ok(vec![]));
}

#[test]
fn deleting_takes_the_task_out() {
    let a = TaskJobs { pester: Some(1), reminder: None, overdue: None };
    let mut store = store_of(vec![row(5, a), row(3, a), row(9, a)]);
    assert_eq!(Task::delete(&mut store, 3), Ok(()));
    assert_eq!(Task::delete(&mut store, 3), Ok(()));
    assert_eq!(Task::delete(&mut store, 77), Ok(()));
    assert_eq!(Task::collect_all_jobs(&store), Ok(vec![(5, a), (9, a)]));
    assert!(!store.contains(3));
}

#[test]
fn the_highest_recorded_id_is_found() {
    assert_eq!(JobStore::new().highest_job_id(), 0);
    let a = TaskJobs { pester: Some(4), reminder: Some(90), overdue: None };
    let b = TaskJobs { pester: None, reminder: None, overdue: Some(17) };
    assert_eq!(store_of(vec![row(1, a), row(2, b), row(3, TaskJobs::empty())]).highest_job_id(), 90);
    assert_eq!(highest_in(&b, 3), 17);
    assert_eq!(highest_in(&b, 30), 30);
    assert_eq!(highest_in(&TaskJobs::empty(), 0), 0);
}

#[test]
fn the_trigger_record_of_a_task_is_its_three_fields() {
    let jobs = TaskJobs { pester: Some(4), reminder: Some(90), overdue: Some(5) };
    assert_eq!(row(1, jobs).trigger_record(), jobs);
}

fn trigger(id: u128, task_id: u128, job_type: JobType) -> ActiveTrigger {
    ActiveTrigger { id, task_id, job_type, schedule: Schedule::Every { interval: 1 } }
}

#[test]
fn the_registry_is_keyed_by_id() {
    let mut r = Registry::new();
    assert_eq!(r.len(), 0);
    assert!(r.insert(trigger(1, 10, JobType::Pester)));
    assert!(r.insert(trigger(2, 10, JobType::Overdue)));
    assert!(!r.insert(trigger(1, 11, JobType::Reminder)));
    assert_eq!(r.len(), 2);
    assert_eq!(r.get(1), Some(trigger(1, 10, JobType::Pester)));
    assert_eq!(r.get(3), None);
}

#[test]
fn the_registry_cancels_by_id_and_owner() {
    let mut r = Registry::new();
    r.insert(trigger(1, 10, JobType::Pester));
    r.insert(trigger(2, 10, JobType::Overdue));
    r.insert(trigger(3, 11, JobType::Pester));
    assert!(!r.cancel(11, 1, JobType::Pester));
    assert!(!r.cancel(10, 1, JobType::Overdue));
    assert!(!r.cancel(10, 9, JobType::Pester));
    assert_eq!(r.len(), 3);
    assert!(r.cancel(10, 1, JobType::Pester));
    assert_eq!(r.get(1), None);
    assert_eq!(r.len(), 2);
    r.cancel_kind(11, JobType::Overdue);
    assert_eq!(r.len(), 2);
    r.cancel_kind(11, JobType::Pester);
    assert_eq!(r.get(3), None);
    r.insert(trigger(4, 10, JobType::Reminder));
    r.cancel_task(10);
    assert_eq!(r.len(), 0);
}
