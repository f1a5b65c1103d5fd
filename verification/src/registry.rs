//! The registry of live triggers, keyed by trigger id.

use vstd::prelude::*;
use crate::expression::Schedule;
use crate::job::JobType;

verus! {

/// A live trigger: its id, the task that owns it, its kind and when it
/// fires. It lives in memory only and is rebuilt after a restart.
#[derive(Debug, Clone, Copy, PartialEq, Eq, Structural)]
pub struct ActiveTrigger {
    pub id: u128,
    pub task_id: u128,
    pub job_type: JobType,
    pub schedule: Schedule,
}

impl ActiveTrigger {
    /// Whether the trigger is the one of kind `kind` of task `task_id`.
    pub open spec fn belongs_to(self, task_id: u128, kind: JobType) -> bool {
        self.task_id == task_id && self.job_type == kind
    }
}

/// The live triggers without those of one task.
pub open spec fn without_task(live: Map<u128, ActiveTrigger>, task_id: u128) -> Map<
    u128,
    ActiveTrigger,
> {
    Map::new(|id: u128| live.contains_key(id) && live[id].task_id != task_id, |id: u128| live[id])
}

/// The live triggers without the one of kind `kind` of one task.
pub open spec fn without_kind(live: Map<u128, ActiveTrigger>, task_id: u128, kind: JobType) -> Map<
    u128,
    ActiveTrigger,
> {
    Map::new(
        |id: u128| live.contains_key(id) && !live[id].belongs_to(task_id, kind),
        |id: u128| live[id],
    )
}

/// The live triggers without the trigger `id`, where it is the one of kind
/// `kind` of task `task_id`; unchanged where it is not, or is not live.
pub open spec fn without_trigger(
    live: Map<u128, ActiveTrigger>,
    task_id: u128,
    id: u128,
    kind: JobType,
) -> Map<u128, ActiveTrigger> {
    if live.contains_key(id) && live[id].belongs_to(task_id, kind) {
        live.remove(id)
    } else {
        live
    }
}

/// The live triggers, in memory.
#[derive(Debug, Clone)]
pub struct Registry {
    live: Vec<ActiveTrigger>,
}

impl Registry {
    /// No two live triggers have the same id.
    pub closed spec fn wf(&self) -> bool {
        forall|i: int, j: int|
            0 <= i < j < self.live@.len() ==> (#[trigger] self.live@[i]).id != (
            #[trigger] self.live@[j]).id
    }

    /// The live triggers by id. Every trigger stands under its own id.
    pub closed spec fn view(&self) -> Map<u128, ActiveTrigger> {
        Map::new(
            |id: u128| exists|i: int| 0 <= i < self.live@.len() && (#[trigger] self.live@[i]).id == id,
            |id: u128|
                self.live@[choose|i: int|
                    0 <= i < self.live@.len() && (#[trigger] self.live@[i]).id == id],
        )
    }

    /// The trigger at a place stands in the view under its id.
    proof fn lemma_at(&self, i: int)
        requires
            self.wf(),
            0 <= i < self.live@.len(),
        ensures
            self@.contains_key(self.live@[i].id),
            self@[self.live@[i].id] == self.live@[i],
    {
        let id = self.live@[i].id;
        let j = choose|j: int| 0 <= j < self.live@.len() && (#[trigger] self.live@[j]).id == id;
        if j != i {
            if j < i {
                assert(self.live@[j].id != self.live@[i].id);
            } else {
                assert(self.live@[i].id != self.live@[j].id);
            }
        }
    }

    /// A registry without live triggers.
    pub fn new() -> (registry: Registry)
        ensures
            registry.wf(),
            registry@ == Map::<u128, ActiveTrigger>::empty(),
    {
        let registry = Registry { live: Vec::new() };
        assert(registry@ =~= Map::<u128, ActiveTrigger>::empty());
        registry
    }

    /// The number of live triggers.
    pub fn len(&self) -> (n: usize)
        requires
            self.wf(),
        ensures
            n == self@.len(),
            self@.dom().finite(),
    {
        proof {
            self.lemma_len(self.live@.len() as int);
            assert(self.prefix_ids(self.live@.len() as int) =~= self@.dom());
        }
        self.live.len()
    }

    /// The ids of the first `n` triggers.
    spec fn prefix_ids(&self, n: int) -> Set<u128> {
        Set::new(|id: u128| exists|i: int| 0 <= i < n && (#[trigger] self.live@[i]).id == id)
    }

    /// The first `n` triggers have `n` ids.
    proof fn lemma_len(&self, n: int)
        requires
            self.wf(),
            0 <= n <= self.live@.len(),
        ensures
            self.prefix_ids(n).finite(),
            self.prefix_ids(n).len() == n,
        decreases n,
    {
        if n == 0 {
            assert(self.prefix_ids(0) =~= Set::<u128>::empty());
        } else {
            self.lemma_len(n - 1);
            let last = self.live@[n - 1].id;
            assert(!self.prefix_ids(n - 1).contains(last)) by {
                if self.prefix_ids(n - 1).contains(last) {
                    let i = choose|i: int| 0 <= i < n - 1 && (#[trigger] self.live@[i]).id == last;
                    assert(self.live@[i].id != self.live@[n - 1].id);
                }
            }
            assert(self.prefix_ids(n) =~= self.prefix_ids(n - 1).insert(last)) by {
                assert forall|id: u128| self.prefix_ids(n).contains(id) implies self.prefix_ids(
                    n - 1,
                ).insert(last).contains(id) by {
                    let i = choose|i: int| 0 <= i < n && (#[trigger] self.live@[i]).id == id;
                    if i < n - 1 {
                        assert(self.prefix_ids(n - 1).contains(id));
                    }
                }
                assert(self.live@[n - 1].id == last);
            }
        }
    }

    /// The place of the trigger with this id, if it is live.
    fn find(&self, id: u128) -> (place: Option<usize>)
        requires
            self.wf(),
        ensures
            match place {
                Some(i) => i < self.live@.len() && self.live@[i as int].id == id
                    && self@.contains_key(id) && self@[id] == self.live@[i as int],
                None => !self@.contains_key(id),
            },
    {
        let mut i: usize = 0;
        while i < self.live.len()
            invariant
                self.wf(),
                i <= self.live@.len(),
                forall|k: int| 0 <= k < i ==> (#[trigger] self.live@[k]).id != id,
            decreases self.live@.len() - i,
        {
            if self.live[i].id == id {
                proof {
                    self.lemma_at(i as int);
                }
                return Some(i);
            }
            i = i + 1;
        }
        None
    }

    /// The live trigger with this id, if there is one.
    pub fn get(&self, id: u128) -> (trigger: Option<ActiveTrigger>)
        requires
            self.wf(),
        ensures
            trigger == if self@.contains_key(id) {
                Some(self@[id])
            } else {
                None
            },
            trigger matches Some(t) ==> t.id == id,
    {
        match self.find(id) {
            Some(i) => Some(self.live[i]),
            None => None,
        }
    }

    /// Makes a trigger live. An id that is live already is refused, and the
    /// registry stays as it is.
    pub fn insert(&mut self, trigger: ActiveTrigger) -> (inserted: bool)
        requires
            old(self).wf(),
        ensures
            final(self).wf(),
            inserted == !old(self)@.contains_key(trigger.id),
            final(self)@ == if inserted {
                old(self)@.insert(trigger.id, trigger)
            } else {
                old(self)@
            },
    {
        match self.find(trigger.id) {
            Some(_) => false,
            None => {
                self.live.push(trigger);
                proof {
                    assert forall|a: int, b: int| 0 <= a < b < self.live@.len() implies (
                    #[trigger] self.live@[a]).id != (#[trigger] self.live@[b]).id by {
                        assert(self.live@[a] == old(self).live@[a]);
                        if b < old(self).live@.len() {
                            assert(self.live@[b] == old(self).live@[b]);
                        } else {
                            assert(old(self)@.contains_key(old(self).live@[a].id)) by {
                                old(self).lemma_at(a);
                            }
                        }
                    }
                    let want = old(self)@.insert(trigger.id, trigger);
                    assert forall|id: u128| self@.contains_key(id) == want.contains_key(id) by {
                        if self@.contains_key(id) {
                            let i = choose|i: int|
                                0 <= i < self.live@.len() && (#[trigger] self.live@[i]).id == id;
                            if i < old(self).live@.len() {
                                assert(old(self).live@[i].id == id);
                            }
                        }
                        if want.contains_key(id) {
                            if id == trigger.id {
                                assert(self.live@[self.live@.len() - 1].id == id);
                            } else {
                                let i = choose|i: int|
                                    0 <= i < old(self).live@.len() && (
                                    #[trigger] old(self).live@[i]).id == id;
                                assert(self.live@[i].id == id);
                            }
                        }
                    }
                    assert forall|id: u128| self@.contains_key(id) implies self@[id] == want[id] by {
                        let i = choose|i: int|
                            0 <= i < self.live@.len() && (#[trigger] self.live@[i]).id == id;
                        self.lemma_at(i);
                        if i < old(self).live@.len() {
                            assert(old(self).live@[i] == self.live@[i]);
                            old(self).lemma_at(i);
                        }
                    }
                    assert(self@ =~= want);
                }
                true
            },
        }
    }

    /// Drops the live triggers of a task that `which` selects and keeps the
    /// others.
    fn retain(&mut self, task_id: u128, which: Selection)
        requires
            old(self).wf(),
        ensures
            final(self).wf(),
            final(self)@ == match which {
                Selection::One(id, kind) => without_trigger(old(self)@, task_id, id, kind),
                Selection::Kind(kind) => without_kind(old(self)@, task_id, kind),
                Selection::All => without_task(old(self)@, task_id),
            },
    {
        let ghost before = *self;
        let mut kept: Vec<ActiveTrigger> = Vec::new();
        let mut i: usize = 0;
        while i < self.live.len()
            invariant
                *self == before,
                before.wf(),
                i <= self.live@.len(),
                forall|j: int|
                    0 <= j < kept@.len() ==> exists|k: int|
                        0 <= k < i && #[trigger] self.live@[k] == #[trigger] kept@[j]
                            && !dropped(self.live@[k], task_id, which),
                forall|k: int|
                    0 <= k < i && !dropped(#[trigger] self.live@[k], task_id, which)
                        ==> exists|j: int| 0 <= j < kept@.len() && #[trigger] kept@[j] == self.live@[k],
                forall|a: int, b: int|
                    0 <= a < b < kept@.len() ==> (#[trigger] kept@[a]).id != (#[trigger] kept@[b]).id,
            decreases self.live@.len() - i,
        {
            let t = self.live[i];
            let drop = match which {
                Selection::One(id, kind) => t.id == id && t.task_id == task_id && t.job_type
                    == kind,
                Selection::Kind(kind) => t.task_id == task_id && t.job_type == kind,
                Selection::All => t.task_id == task_id,
            };
            if !drop {
                proof {
                    assert forall|a: int| 0 <= a < kept@.len() implies (#[trigger] kept@[a]).id
                        != t.id by {
                        let k = choose|k: int|
                            0 <= k < i && #[trigger] self.live@[k] == kept@[a] && !dropped(
                                self.live@[k],
                                task_id,
                                which,
                            );
                        assert(self.live@[k].id != self.live@[i as int].id);
                    }
                }
                let ghost kept_before = kept@;
                kept.push(t);
                proof {
                    assert forall|j: int| 0 <= j < kept@.len() implies exists|k: int|
                        0 <= k < i + 1 && #[trigger] self.live@[k] == #[trigger] kept@[j]
                            && !dropped(self.live@[k], task_id, which) by {
                        if j < kept_before.len() {
                            assert(kept@[j] == kept_before[j]);
                            let k = choose|k: int|
                                0 <= k < i && #[trigger] self.live@[k] == kept_before[j]
                                    && !dropped(self.live@[k], task_id, which);
                            assert(self.live@[k] == kept@[j]);
                        } else {
                            assert(self.live@[i as int] == kept@[j]);
                        }
                    }
                    assert forall|k: int|
                        0 <= k < i + 1 && !dropped(
                            #[trigger] self.live@[k],
                            task_id,
                            which,
                        ) implies exists|j: int|
                        0 <= j < kept@.len() && #[trigger] kept@[j] == self.live@[k] by {
                        if k < i {
                            let j = choose|j: int|
                                0 <= j < kept_before.len() && #[trigger] kept_before[j]
                                    == self.live@[k];
                            assert(kept@[j] == self.live@[k]);
                        } else {
                            assert(kept@[kept@.len() - 1] == self.live@[k]);
                        }
                    }
                }
            }
            i = i + 1;
        }
        self.live = kept;
        proof {
            let want = match which {
                Selection::One(id, kind) => without_trigger(before@, task_id, id, kind),
                Selection::Kind(kind) => without_kind(before@, task_id, kind),
                Selection::All => without_task(before@, task_id),
            };
            assert forall|id: u128| self@.contains_key(id) implies want.contains_key(id)
                && self@[id] == want[id] by {
                let j = choose|j: int| 0 <= j < self.live@.len() && (#[trigger] self.live@[j]).id == id;
                self.lemma_at(j);
                let k = choose|k: int|
                    0 <= k < before.live@.len() && #[trigger] before.live@[k] == self.live@[j]
                        && !dropped(before.live@[k], task_id, which);
                before.lemma_at(k);
            }
            assert forall|id: u128| want.contains_key(id) implies self@.contains_key(id) by {
                assert(before@.contains_key(id));
                let k = choose|k: int|
                    0 <= k < before.live@.len() && (#[trigger] before.live@[k]).id == id;
                before.lemma_at(k);
                assert(!dropped(before.live@[k], task_id, which));
                let j = choose|j: int|
                    0 <= j < self.live@.len() && #[trigger] self.live@[j] == before.live@[k];
                assert(self.live@[j].id == id);
            }
            assert(self@ =~= want);
        }
    }

    /// Cancels the trigger `id`, where it is live and is the one of kind
    /// `kind` of task `task_id`. Says whether it cancelled anything.
    pub fn cancel(&mut self, task_id: u128, id: u128, kind: JobType) -> (cancelled: bool)
        requires
            old(self).wf(),
        ensures
            final(self).wf(),
            cancelled == (old(self)@.contains_key(id) && old(self)@[id].belongs_to(task_id, kind)),
            final(self)@ == without_trigger(old(self)@, task_id, id, kind),
    {
        let cancelled = match self.get(id) {
            Some(t) => t.task_id == task_id && t.job_type == kind,
            None => false,
        };
        self.retain(task_id, Selection::One(id, kind));
        cancelled
    }

    /// Cancels every live trigger of a task.
    pub fn cancel_task(&mut self, task_id: u128)
        requires
            old(self).wf(),
        ensures
            final(self).wf(),
            final(self)@ == without_task(old(self)@, task_id),
    {
        self.retain(task_id, Selection::All);
    }

    /// Cancels the live trigger of kind `kind` of a task.
    pub fn cancel_kind(&mut self, task_id: u128, kind: JobType)
        requires
            old(self).wf(),
        ensures
            final(self).wf(),
            final(self)@ == without_kind(old(self)@, task_id, kind),
    {
        self.retain(task_id, Selection::Kind(kind));
    }
}

/// Which live triggers of a task to drop: the trigger with one id, where it
/// is of the kind named; the one of a kind; or all of them.
#[derive(Clone, Copy)]
enum Selection {
    One(u128, JobType),
    Kind(JobType),
    All,
}

/// Whether a selection drops a trigger.
spec fn dropped(t: ActiveTrigger, task_id: u128, which: Selection) -> bool {
    match which {
        Selection::One(id, kind) => t.id == id && t.belongs_to(task_id, kind),
        Selection::Kind(kind) => t.belongs_to(task_id, kind),
        Selection::All => t.task_id == task_id,
    }
}

} // verus!
