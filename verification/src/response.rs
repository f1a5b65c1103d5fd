//! What the service answers: status codes and the bodies of its replies.

use vstd::prelude::*;
use crate::job::TaskJobs;
use crate::model::DatabaseError;

verus! {

/// The status of a reply that carries what was asked for.
pub const STATUS_OK: u16 = 200;

/// The status of a reply to a request that created something.
pub const STATUS_CREATED: u16 = 201;

/// The status of a reply to a request that lacks what it needs.
pub const STATUS_BAD_REQUEST: u16 = 400;

/// The status of a reply to a request that is not allowed.
pub const STATUS_FORBIDDEN: u16 = 403;

/// The status of a reply where nothing was found.
pub const STATUS_NOT_FOUND: u16 = 404;

/// The status of a reply after a failure of the service.
pub const STATUS_INTERNAL_SERVER_ERROR: u16 = 500;

/// The status of a reply while the service is not ready.
pub const STATUS_SERVICE_UNAVAILABLE: u16 = 503;

/// The body of the reply to a request for a path that the service does not
/// have.
pub fn not_found() -> (body: &'static str)
    ensures
        body@ == "Not Found"@,
{
    "Not Found"
}

/// The status of the liveness reply: ready only while both the storage
/// layer and the scheduler are healthy.
pub fn health(db_healthy: bool, sched_healthy: bool) -> (status: u16)
    ensures
        status == if db_healthy && sched_healthy {
            STATUS_OK
        } else {
            STATUS_SERVICE_UNAVAILABLE
        },
{
    if db_healthy && sched_healthy {
        STATUS_OK
    } else {
        STATUS_SERVICE_UNAVAILABLE
    }
}

/// The status of the reply to a request that creates something: created
/// where the reply carries what was asked for, and the reply's own status
/// where it does not.
pub fn created_status(status: u16) -> (created: u16)
    ensures
        created == if status == STATUS_OK {
            STATUS_CREATED
        } else {
            status
        },
{
    if status == STATUS_OK {
        STATUS_CREATED
    } else {
        status
    }
}

/// What went wrong, in words.
#[derive(Debug, Clone)]
pub struct GenericError {
    pub message: String,
}

/// The body of a reply: the status, what was asked for, and what went
/// wrong where something did.
#[derive(Debug, Clone)]
pub struct GenericResponse<T> {
    pub status: u16,
    pub data: Vec<T>,
    pub error: Option<GenericError>,
}

impl<T> GenericResponse<T> {
    /// Whether the reply carries exactly `value` and no error.
    pub open spec fn carries(self, value: T) -> bool {
        &&& self.status == STATUS_OK
        &&& self.data@ == seq![value]
        &&& self.error is None
    }

    /// Whether the reply carries nothing but an error with this status and
    /// message.
    pub open spec fn fails_with(self, status: u16, message: Seq<char>) -> bool {
        &&& self.status == status
        &&& self.data@.len() == 0
        &&& self.error matches Some(e) && e.message@ == message
    }

    /// The reply to a request whose outcome is `value`: what was found with
    /// status 200; status 404 and the message "Resource not found." where
    /// nothing was found; status 500 and the message of the failure where
    /// the request failed.
    pub fn from(value: Result<Option<T>, String>) -> (reply: GenericResponse<T>)
        ensures
            match value {
                Ok(Some(v)) => reply.carries(v),
                Ok(None) => reply.fails_with(STATUS_NOT_FOUND, "Resource not found."@),
                Err(message) => reply.fails_with(STATUS_INTERNAL_SERVER_ERROR, message@),
            },
    {
        match value {
            Ok(Some(v)) => {
                let mut data: Vec<T> = Vec::new();
                data.push(v);
                GenericResponse { status: STATUS_OK, data, error: None }
            },
            Ok(None) => GenericResponse {
                status: STATUS_NOT_FOUND,
                data: Vec::new(),
                error: Some(GenericError { message: String::from_str("Resource not found.") }),
            },
            Err(message) => GenericResponse {
                status: STATUS_INTERNAL_SERVER_ERROR,
                data: Vec::new(),
                error: Some(GenericError { message }),
            },
        }
    }
}

/// What went wrong with the triggers of a task, in words.
#[derive(Debug, Clone)]
pub struct JobError {
    pub message: String,
}

/// The body of a reply about the triggers of a task: the status, the
/// trigger record, and what went wrong where something did.
#[derive(Debug, Clone)]
pub struct JobsResponse {
    pub status: u16,
    pub data: Vec<TaskJobs>,
    pub error: Option<JobError>,
}

impl JobsResponse {
    /// The reply for a trigger record or a storage error: the record with
    /// status 200, or status 500 with what the error says, its cause
    /// included.
    pub fn from(value: Result<TaskJobs, DatabaseError>) -> (reply: JobsResponse)
        ensures
            match value {
                Ok(jobs) => reply.status == STATUS_OK && reply.data@ == seq![jobs] && reply.error is None,
                Err(e) => reply.status == STATUS_INTERNAL_SERVER_ERROR && reply.data@.len() == 0
                    && (reply.error matches Some(said) && said.message@ == e.text()),
            },
    {
        match value {
            Ok(jobs) => {
                let mut data: Vec<TaskJobs> = Vec::new();
                data.push(jobs);
                JobsResponse { status: STATUS_OK, data, error: None }
            },
            Err(e) => JobsResponse {
                status: STATUS_INTERNAL_SERVER_ERROR,
                data: Vec::new(),
                error: Some(JobError { message: e.message() }),
            },
        }
    }
}

/// The three trigger ids of a task as a reply names them: the id of the
/// trigger, and the nil id 0 where none is registered.
#[derive(Debug, Clone, Copy, PartialEq, Eq, Structural)]
pub struct JobIds {
    pub pester: u128,
    pub reminder: u128,
    pub overdue: u128,
}

impl JobIds {
    /// The id that stands for an entry of a record: the nil id 0 for none.
    pub open spec fn id_or_nil(entry: Option<u128>) -> u128 {
        match entry {
            Some(id) => id,
            None => 0,
        }
    }

    /// The ids of a trigger record, with the nil id 0 for each kind that
    /// has no trigger.
    pub fn of(jobs: &TaskJobs) -> (ids: JobIds)
        ensures
            ids.pester == JobIds::id_or_nil(jobs.pester),
            ids.reminder == JobIds::id_or_nil(jobs.reminder),
            ids.overdue == JobIds::id_or_nil(jobs.overdue),
    {
        JobIds {
            pester: match jobs.pester {
                Some(id) => id,
                None => 0,
            },
            reminder: match jobs.reminder {
                Some(id) => id,
                None => 0,
            },
            overdue: match jobs.overdue {
                Some(id) => id,
                None => 0,
            },
        }
    }
}

/// Why a request was turned away for its API key.
#[derive(Debug, Clone, Copy, PartialEq, Eq, Structural)]
pub enum ApiKeyError {
    /// The request carries no key.
    Missing,
    /// The key is not a valid one.
    Invalid,
    /// The storage layer failed while the key was looked up.
    DbError,
}

impl ApiKeyError {
    /// The status of the reply that turns the request away.
    pub open spec fn status_code(self) -> u16 {
        match self {
            ApiKeyError::Missing => STATUS_BAD_REQUEST,
            ApiKeyError::Invalid => STATUS_FORBIDDEN,
            ApiKeyError::DbError => STATUS_INTERNAL_SERVER_ERROR,
        }
    }

    /// The status of the reply that turns the request away.
    pub fn status(&self) -> (status: u16)
        ensures
            status == self.status_code(),
    {
        match self {
            ApiKeyError::Missing => STATUS_BAD_REQUEST,
            ApiKeyError::Invalid => STATUS_FORBIDDEN,
            ApiKeyError::DbError => STATUS_INTERNAL_SERVER_ERROR,
        }
    }
}

/// The API key of a request that passed.
#[derive(Debug, Clone, Copy, PartialEq, Eq, Structural)]
pub struct ShamebotApiKey {
    pub api_key: u128,
}

impl ShamebotApiKey {
    /// Whether a request passes for its API key. `key` is the key that the
    /// request carries, if it carries one, and `valid` what the storage
    /// layer said of it. A request without a key is turned away as
    /// `Missing` whatever the storage layer would say; one whose lookup
    /// failed as `DbError`; one whose key is not valid as `Invalid`. A
    /// request that passes keeps its key.
    pub fn from_request(key: Option<u128>, valid: Result<bool, DatabaseError>) -> (passed: Result<
        ShamebotApiKey,
        ApiKeyError,
    >)
        ensures
            passed == match key {
                None => Err::<ShamebotApiKey, ApiKeyError>(ApiKeyError::Missing),
                Some(api_key) => match valid {
                    Ok(true) => Ok(ShamebotApiKey { api_key }),
                    Ok(false) => Err(ApiKeyError::Invalid),
                    Err(_) => Err(ApiKeyError::DbError),
                },
            },
    {
        match key {
            None => Err(ApiKeyError::Missing),
            Some(api_key) => match valid {
                Ok(true) => Ok(ShamebotApiKey { api_key }),
                Ok(false) => Err(ApiKeyError::Invalid),
                Err(_) => Err(ApiKeyError::DbError),
            },
        }
    }
}

/// A header of a reply: its name and its value.
#[derive(Debug, Clone, Copy)]
pub struct Header {
    pub name: &'static str,
    pub value: &'static str,
}

/// What lets pages of other origins call the service.
#[derive(Debug, Clone, Copy)]
pub struct CORS;

impl CORS {
    /// What the headers are for.
    pub fn info(&self) -> (name: &'static str)
        ensures
            name@ == "Add CORS headers to responses"@,
    {
        "Add CORS headers to responses"
    }

    /// The headers that every reply carries: any origin may call, with the
    /// methods named, with any header, and with credentials.
    pub fn headers(&self) -> (headers: Vec<Header>)
        ensures
            headers@.len() == 4,
            headers@[0].name@ == "Access-Control-Allow-Origin"@,
            headers@[0].value@ == "*"@,
            headers@[1].name@ == "Access-Control-Allow-Methods"@,
            headers@[1].value@ == "POST, PUT, DELETE, GET, PATCH, OPTIONS"@,
            headers@[2].name@ == "Access-Control-Allow-Headers"@,
            headers@[2].value@ == "*"@,
            headers@[3].name@ == "Access-Control-Allow-Credentials"@,
            headers@[3].value@ == "true"@,
    {
        let mut headers: Vec<Header> = Vec::new();
        headers.push(Header { name: "Access-Control-Allow-Origin", value: "*" });
        headers.push(
            Header {
                name: "Access-Control-Allow-Methods",
                value: "POST, PUT, DELETE, GET, PATCH, OPTIONS",
            },
        );
        headers.push(Header { name: "Access-Control-Allow-Headers", value: "*" });
        headers.push(Header { name: "Access-Control-Allow-Credentials", value: "true" });
        headers
    }
}

} // verus!
