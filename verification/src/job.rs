//! The kinds of trigger a task can have, and the record of a task's trigger ids.

use vstd::prelude::*;
use crate::text::str_equals;

verus! {

/// The kind of a trigger. `Pester` recurs; `Overdue` and `Reminder` fire once.
/// `Unknown` stands for a name that is none of the three.
#[derive(Debug, Clone, Copy, PartialEq, Eq, Hash, Structural)]
pub enum JobType {
    Pester,
    Overdue,
    Reminder,
    Unknown,
}

impl JobType {
    /// The lower-case name of the kind.
    pub open spec fn name(self) -> Seq<char> {
        match self {
            JobType::Pester => "pester"@,
            JobType::Overdue => "overdue"@,
            JobType::Reminder => "reminder"@,
            JobType::Unknown => "unknown"@,
        }
    }

    /// The kind that a name stands for: `Unknown` for every name but the
    /// three kinds' own.
    pub open spec fn of_name(name: Seq<char>) -> JobType {
        if name == "pester"@ {
            JobType::Pester
        } else if name == "overdue"@ {
            JobType::Overdue
        } else if name == "reminder"@ {
            JobType::Reminder
        } else {
            JobType::Unknown
        }
    }

    /// Whether a trigger of this kind fires once and is then discarded.
    pub open spec fn one_shot(self) -> bool {
        self == JobType::Overdue || self == JobType::Reminder
    }

    pub fn as_str(&self) -> (name: &str)
        ensures
            name@ == self.name(),
    {
        match self {
            JobType::Pester => "pester",
            JobType::Overdue => "overdue",
            JobType::Reminder => "reminder",
            JobType::Unknown => "unknown",
        }
    }

    /// Whether a trigger of this kind fires once and is then discarded.
    pub fn is_one_shot(&self) -> (once: bool)
        ensures
            once == self.one_shot(),
    {
        match self {
            JobType::Overdue => true,
            JobType::Reminder => true,
            _ => false,
        }
    }
}

impl From<&str> for JobType {
    fn from(value: &str) -> (kind: JobType) {
        if str_equals(value, "pester") {
            JobType::Pester
        } else if str_equals(value, "overdue") {
            JobType::Overdue
        } else if str_equals(value, "reminder") {
            JobType::Reminder
        } else {
            JobType::Unknown
        }
    }
}

impl vstd::std_specs::convert::FromSpecImpl<&str> for JobType {
    open spec fn obeys_from_spec() -> bool {
        true
    }

    open spec fn from_spec(value: &str) -> JobType {
        JobType::of_name(value@)
    }
}

/// Every kind is found again from its own name: the four names differ.
pub proof fn law_name_round_trip(kind: JobType)
    ensures
        JobType::of_name(kind.name()) == kind,
{
    reveal_strlit("pester");
    reveal_strlit("overdue");
    reveal_strlit("reminder");
    reveal_strlit("unknown");
    assert("pester"@.len() == 6);
    assert("overdue"@.len() == 7);
    assert("reminder"@.len() == 8);
    assert("unknown"@.len() == 7);
    assert("overdue"@[0] == 'o');
    assert("unknown"@[0] == 'u');
}

/// The trigger record of a task: for each of the three kinds the id of the
/// registered trigger, or `None` where none is registered.
#[derive(Debug, Clone, Copy, PartialEq, Eq, Structural)]
pub struct TaskJobs {
    pub pester: Option<u128>,
    pub reminder: Option<u128>,
    pub overdue: Option<u128>,
}

impl TaskJobs {
    /// The id recorded for a kind; `None` for `Unknown`, which has no entry.
    pub open spec fn field(self, kind: JobType) -> Option<u128> {
        match kind {
            JobType::Pester => self.pester,
            JobType::Overdue => self.overdue,
            JobType::Reminder => self.reminder,
            JobType::Unknown => None,
        }
    }

    /// Whether a trigger of the kind is registered.
    pub open spec fn populated(self, kind: JobType) -> bool {
        self.field(kind) is Some
    }

    /// Whether any trigger is registered.
    pub open spec fn any(self) -> bool {
        self.pester is Some || self.reminder is Some || self.overdue is Some
    }

    /// Whether no recorded id lies above `bound`.
    pub open spec fn at_most(self, bound: u128) -> bool {
        &&& self.pester matches Some(id) ==> id <= bound
        &&& self.reminder matches Some(id) ==> id <= bound
        &&& self.overdue matches Some(id) ==> id <= bound
    }

    /// Whether `id` is recorded for some kind.
    pub open spec fn holds(self, id: u128) -> bool {
        self.pester == Some(id) || self.reminder == Some(id) || self.overdue == Some(id)
    }

    /// The record with no trigger registered.
    pub fn empty() -> (jobs: TaskJobs)
        ensures
            jobs == (TaskJobs { pester: None, reminder: None, overdue: None }),
    {
        TaskJobs { pester: None, reminder: None, overdue: None }
    }

    /// The entry of a kind: `Some` of the recorded id or of `None` for the
    /// three kinds, and `None` for `Unknown`, which has no entry.
    pub fn get(&self, kind: &JobType) -> (entry: Option<Option<u128>>)
        ensures
            entry == match *kind {
                JobType::Unknown => None::<Option<u128>>,
                _ => Some(self.field(*kind)),
            },
    {
        match kind {
            JobType::Pester => Some(self.pester),
            JobType::Overdue => Some(self.overdue),
            JobType::Reminder => Some(self.reminder),
            JobType::Unknown => None,
        }
    }

    /// Whether any trigger is registered.
    pub fn has_any(&self) -> (any: bool)
        ensures
            any == self.any(),
    {
        self.pester.is_some() || self.reminder.is_some() || self.overdue.is_some()
    }
}

} // verus!
