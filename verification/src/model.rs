//! The task as the storage layer hands it over, and the storage errors.

use vstd::prelude::*;
use crate::job::{JobType, TaskJobs};

verus! {

/// A snapshot of a task. `pester` is the recurrence interval, `due_at` the
/// due instant in seconds since the epoch, `checked` tells whether the task
/// is completed, and the three `_job` fields are its trigger record.
#[derive(Debug, Clone)]
pub struct Task {
    pub id: u128,
    pub list_id: u128,
    pub user_id: i64,
    pub title: String,
    pub content: Option<String>,
    pub checked: bool,
    pub pester: Option<i16>,
    pub due_at: Option<i64>,
    pub proof_id: Option<u128>,
    pub pester_job: Option<u128>,
    pub overdue_job: Option<u128>,
    pub reminder_job: Option<u128>,
}

impl Task {
    /// The trigger record of the task.
    pub open spec fn jobs(self) -> TaskJobs {
        TaskJobs { pester: self.pester_job, reminder: self.reminder_job, overdue: self.overdue_job }
    }

    /// The task with the trigger id of one kind replaced; unchanged for
    /// `Unknown`.
    pub open spec fn with_job(self, kind: JobType, id: Option<u128>) -> Task {
        match kind {
            JobType::Pester => Task { pester_job: id, ..self },
            JobType::Overdue => Task { overdue_job: id, ..self },
            JobType::Reminder => Task { reminder_job: id, ..self },
            JobType::Unknown => self,
        }
    }

    /// The task with no trigger registered.
    pub open spec fn without_jobs(self) -> Task {
        Task { pester_job: None, overdue_job: None, reminder_job: None, ..self }
    }

    /// The trigger record of the task.
    pub fn trigger_record(&self) -> (jobs: TaskJobs)
        ensures
            jobs == self.jobs(),
    {
        TaskJobs { pester: self.pester_job, reminder: self.reminder_job, overdue: self.overdue_job }
    }
}

/// What a query says of itself that found no row where it needs one.
pub open spec fn no_row_text() -> Seq<char> {
    "query returned an unexpected number of rows"@
}

/// What a write says of itself that names the field of no kind.
pub open spec fn no_field_text() -> Seq<char> {
    "column \"unknown_job\" of relation \"tasks\" does not exist"@
}

/// Why an operation of the storage layer failed, with what the cause said
/// of itself.
#[derive(Debug, Clone, PartialEq, Eq)]
pub enum DatabaseError {
    /// No connection could be had from the pool.
    DBPoolError(String),
    /// A query failed: it named what does not exist, or found no row where
    /// one was required.
    DBQueryError(String),
    /// A spawned piece of work could not be joined.
    JoinTaskError(String),
    /// Anything else.
    DBGenericError,
}

impl DatabaseError {
    /// Whether this is the error of a query that found no row where it
    /// needs one.
    pub open spec fn is_no_row(self) -> bool {
        self matches DatabaseError::DBQueryError(cause) && cause@ == no_row_text()
    }

    /// Whether this is the error of a write that names the field of no
    /// kind.
    pub open spec fn is_no_field(self) -> bool {
        self matches DatabaseError::DBQueryError(cause) && cause@ == no_field_text()
    }

    /// What the error says: what it is, then what the cause said of itself.
    pub open spec fn text(self) -> Seq<char> {
        match self {
            DatabaseError::DBPoolError(cause) => "error getting connection from DB pool: "@
                + cause@,
            DatabaseError::DBQueryError(cause) => "error executing of preparing DB query: "@
                + cause@,
            DatabaseError::JoinTaskError(cause) => "error joining spawned tasks: "@ + cause@,
            DatabaseError::DBGenericError => "unknown error occurred"@,
        }
    }

    /// The error of a query that found no row where it needs one.
    pub fn no_row() -> (e: DatabaseError)
        ensures
            e.is_no_row(),
    {
        DatabaseError::DBQueryError(
            String::from_str("query returned an unexpected number of rows"),
        )
    }

    /// The error of a write that names the field of no kind.
    pub fn no_field() -> (e: DatabaseError)
        ensures
            e.is_no_field(),
    {
        DatabaseError::DBQueryError(
            String::from_str("column \"unknown_job\" of relation \"tasks\" does not exist"),
        )
    }

    /// What the error says: what it is, then what the cause said of itself.
    pub fn message(&self) -> (text: String)
        ensures
            text@ == self.text(),
    {
        match self {
            DatabaseError::DBPoolError(cause) => {
                let mut text = String::from_str("error getting connection from DB pool: ");
                text.append(cause.as_str());
                text
            },
            DatabaseError::DBQueryError(cause) => {
                let mut text = String::from_str("error executing of preparing DB query: ");
                text.append(cause.as_str());
                text
            },
            DatabaseError::JoinTaskError(cause) => {
                let mut text = String::from_str("error joining spawned tasks: ");
                text.append(cause.as_str());
                text
            },
            DatabaseError::DBGenericError => String::from_str("unknown error occurred"),
        }
    }
}

/// A guild: its id, its name, its icon, and the channel that its notices
/// go to.
#[derive(Debug, Clone)]
pub struct Guild {
    pub id: i64,
    pub name: String,
    pub icon: Option<String>,
    pub send_to: Option<i64>,
}

impl Guild {
    /// The channel that the notices of the guild go to; 0 where none is
    /// set.
    pub fn channel(&self) -> (channel: i64)
        ensures
            channel == match self.send_to {
                Some(id) => id,
                None => 0,
            },
    {
        match self.send_to {
            Some(id) => id,
            None => 0,
        }
    }
}

/// A user as the chat service knows them.
#[derive(Debug, Clone)]
pub struct User {
    pub id: i64,
    pub username: String,
    pub discriminator: String,
    pub avatar_hash: String,
}

impl User {
    /// Whether the user is made of the entries at place `i` of the four
    /// columns.
    pub open spec fn is_row_of(
        self,
        i: int,
        ids: Seq<i64>,
        usernames: Seq<String>,
        discriminators: Seq<String>,
        avatar_hashes: Seq<String>,
    ) -> bool {
        &&& self.id == ids[i]
        &&& self.username == usernames[i]
        &&& self.discriminator == discriminators[i]
        &&& self.avatar_hash == avatar_hashes[i]
    }

    /// The users that four columns describe, place by place, as far as the
    /// shortest column goes.
    pub fn new_batch(
        ids: &Vec<i64>,
        usernames: &Vec<String>,
        discriminators: &Vec<String>,
        avatar_hashes: &Vec<String>,
    ) -> (users: Vec<User>)
        ensures
            users@.len() <= ids@.len(),
            users@.len() <= usernames@.len(),
            users@.len() <= discriminators@.len(),
            users@.len() <= avatar_hashes@.len(),
            users@.len() == ids@.len() || users@.len() == usernames@.len() || users@.len()
                == discriminators@.len() || users@.len() == avatar_hashes@.len(),
            forall|i: int|
                0 <= i < users@.len() ==> (#[trigger] users@[i]).is_row_of(
                    i,
                    ids@,
                    usernames@,
                    discriminators@,
                    avatar_hashes@,
                ),
    {
        let mut users: Vec<User> = Vec::new();
        let mut i: usize = 0;
        while i < ids.len() && i < usernames.len() && i < discriminators.len() && i
            < avatar_hashes.len()
            invariant
                users@.len() == i,
                i <= ids@.len(),
                i <= usernames@.len(),
                i <= discriminators@.len(),
                i <= avatar_hashes@.len(),
                forall|k: int|
                    0 <= k < i ==> (#[trigger] users@[k]).is_row_of(
                        k,
                        ids@,
                        usernames@,
                        discriminators@,
                        avatar_hashes@,
                    ),
            decreases ids@.len() - i,
        {
            users.push(
                User {
                    id: ids[i],
                    username: usernames[i].clone(),
                    discriminator: discriminators[i].clone(),
                    avatar_hash: avatar_hashes[i].clone(),
                },
            );
            i = i + 1;
        }
        users
    }
}

/// A list of tasks.
#[derive(Debug, Clone)]
pub struct List {
    pub id: u128,
    pub title: String,
    pub user_id: i64,
}

/// What a user handed in to show that a task is done.
#[derive(Debug, Clone)]
pub struct Proof {
    pub id: u128,
    pub content: Option<String>,
    pub image: Option<String>,
    pub approved: bool,
}

/// What became of a request for an accountability partner.
#[derive(Debug, Clone, Copy, PartialEq, Eq, Structural)]
pub enum RequestStatus {
    Accepted,
    Pending,
    Rejected,
}

/// A request of one user to another to be their accountability partner for
/// a task.
#[derive(Debug, Clone)]
pub struct AccountabilityRequest {
    pub requesting_user: i64,
    pub requested_user: i64,
    pub task_id: u128,
    pub status: RequestStatus,
}

/// Where the storage layer is found, and who asks.
#[derive(Debug, Clone)]
pub struct Env {
    pub postgres_user: String,
    pub postgres_password: String,
    pub postgres_host: String,
    pub postgres_port: String,
}

impl Env {
    /// The connection settings in one line: host, port, user and password,
    /// each behind its name.
    pub open spec fn connection_text(self) -> Seq<char> {
        "host="@ + self.postgres_host@ + " port="@ + self.postgres_port@ + " user="@
            + self.postgres_user@ + " password="@ + self.postgres_password@
    }

    /// The connection settings in one line.
    pub fn connection_string(&self) -> (text: String)
        ensures
            text@ == self.connection_text(),
    {
        let mut text = String::from_str("host=");
        text.append(self.postgres_host.as_str());
        text.append(" port=");
        text.append(self.postgres_port.as_str());
        text.append(" user=");
        text.append(self.postgres_user.as_str());
        text.append(" password=");
        text.append(self.postgres_password.as_str());
        text
    }
}

} // verus!
