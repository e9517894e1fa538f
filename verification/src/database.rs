//! The queue store: entry states, the backlog as contracts see it, and the
//! interface every store offers to producers and workers.

use vstd::prelude::*;
use crate::builder::BuildResult;

verus! {

/// Where an entry stands in its life: awaiting a worker, claimed by one, or finished.
#[derive(Clone, Copy, Debug, PartialEq, Eq, Structural)]
pub enum EntryStatus {
    Pending,
    InProgress,
    Done,
}

impl EntryStatus {
    /// The stable number under which a status is persisted.
    pub open spec fn code(self) -> int {
        match self {
            EntryStatus::Pending => 0,
            EntryStatus::InProgress => 1,
            EntryStatus::Done => 2,
        }
    }

    /// The one status an entry may move to from this one, if any.
    pub open spec fn successor(self) -> Option<EntryStatus> {
        match self {
            EntryStatus::Pending => Some(EntryStatus::InProgress),
            EntryStatus::InProgress => Some(EntryStatus::Done),
            EntryStatus::Done => None,
        }
    }

    /// Whether an entry in status `self` may later be seen in status `later`.
    pub open spec fn reaches(self, later: EntryStatus) -> bool {
        self.code() <= later.code()
    }

    /// Encodes the status for a backend without native enums.
    pub fn to_int(&self) -> (n: i32)
        ensures
            n == self.code(),
    {
        match *self {
            EntryStatus::Pending => 0,
            EntryStatus::InProgress => 1,
            EntryStatus::Done => 2,
        }
    }

    /// Decodes a persisted status; numbers that encode no status give `None`.
    pub fn from_int(n: i32) -> (s: Option<EntryStatus>)
        ensures
            match s {
                Some(status) => status.code() == n,
                None => n < 0 || n > 2,
            },
    {
        if n == 0 {
            Some(EntryStatus::Pending)
        } else if n == 1 {
            Some(EntryStatus::InProgress)
        } else if n == 2 {
            Some(EntryStatus::Done)
        } else {
            None
        }
    }
}

/// Why a queue operation did not do what was asked.
#[derive(Clone, Copy, Debug, PartialEq, Eq, Structural)]
pub enum QueueError {
    /// The backing store could not be reached; nothing was changed.
    StoreUnavailable,
    /// The entry was not in the status the operation starts from, or the store broke its own
    /// rules (one conditional update touched several entries).
    InvalidTransition,
    /// The executor could not produce any result; the entry stays claimed.
    ExecutorFault,
}

/// One entry of the backlog as contracts see it. Its place in the backlog is its id.
pub struct Slot<A> {
    pub request: A,
    pub status: EntryStatus,
    pub results: Option<BuildResult>,
}

/// An entry carries results exactly when it is done.
pub open spec fn slot_wf<A>(s: Slot<A>) -> bool {
    (s.status == EntryStatus::Done) == (s.results is Some)
}

pub open spec fn backlog_wf<A>(b: Seq<Slot<A>>) -> bool {
    forall|i: int| 0 <= i < b.len() ==> slot_wf(#[trigger] b[i])
}

pub open spec fn is_pending<A>(b: Seq<Slot<A>>, i: int) -> bool {
    0 <= i < b.len() && b[i].status == EntryStatus::Pending
}

pub open spec fn is_in_progress<A>(b: Seq<Slot<A>>, i: int) -> bool {
    0 <= i < b.len() && b[i].status == EntryStatus::InProgress
}

pub open spec fn is_done<A>(b: Seq<Slot<A>>, i: int) -> bool {
    0 <= i < b.len() && b[i].status == EntryStatus::Done
}

pub open spec fn has_pending<A>(b: Seq<Slot<A>>) -> bool {
    exists|i: int| is_pending(b, i)
}

/// The first pending entry at or after `from`, or the backlog's length if there is none.
pub open spec fn first_pending_from<A>(b: Seq<Slot<A>>, from: int) -> int
    decreases b.len() - from,
{
    if from < 0 || from >= b.len() {
        b.len() as int
    } else if b[from].status == EntryStatus::Pending {
        from
    } else {
        first_pending_from(b, from + 1)
    }
}

/// The id of the earliest-inserted pending entry, or the backlog's length if none is pending.
pub open spec fn first_pending<A>(b: Seq<Slot<A>>) -> int {
    first_pending_from(b, 0)
}

/// The backlog after a producer has submitted `request`.
pub open spec fn add_pending_spec<A>(b: Seq<Slot<A>>, request: A) -> Seq<Slot<A>> {
    b.push(Slot { request, status: EntryStatus::Pending, results: None })
}

/// The backlog after a conditional update that moves entry `i` from pending to in progress.
pub open spec fn lock_spec<A>(b: Seq<Slot<A>>, i: int) -> Seq<Slot<A>> {
    if is_pending(b, i) {
        b.update(
            i,
            Slot { request: b[i].request, status: EntryStatus::InProgress, results: b[i].results },
        )
    } else {
        b
    }
}

/// The backlog after one claim attempt: the earliest pending entry, if any, is in progress.
pub open spec fn claim_spec<A>(b: Seq<Slot<A>>) -> Seq<Slot<A>> {
    lock_spec(b, first_pending(b))
}

/// The backlog after the worker that claimed entry `i` has reported `results`.
/// Only an entry in progress can be finished.
pub open spec fn commit_spec<A>(b: Seq<Slot<A>>, i: int, results: BuildResult) -> Seq<Slot<A>> {
    if is_in_progress(b, i) {
        b.update(i, Slot { request: b[i].request, status: EntryStatus::Done, results: Some(results) })
    } else {
        b
    }
}

/// What `first_pending_from` finds is pending, nothing between `from` and it is, and it
/// is the backlog's length exactly when nothing at or after `from` is pending.
pub proof fn lemma_first_pending_from<A>(b: Seq<Slot<A>>, from: int)
    requires
        0 <= from <= b.len(),
    ensures
        from <= first_pending_from(b, from) <= b.len(),
        first_pending_from(b, from) < b.len() ==> is_pending(b, first_pending_from(b, from)),
        forall|j: int| from <= j < first_pending_from(b, from) ==> !is_pending(b, j),
    decreases b.len() - from,
{
    if from < b.len() && b[from].status != EntryStatus::Pending {
        lemma_first_pending_from(b, from + 1);
    }
}

/// `first_pending` names the earliest pending entry whenever one exists.
pub proof fn lemma_first_pending<A>(b: Seq<Slot<A>>)
    ensures
        0 <= first_pending(b) <= b.len(),
        has_pending(b) <==> first_pending(b) < b.len(),
        has_pending(b) ==> is_pending(b, first_pending(b)),
        forall|j: int| 0 <= j < first_pending(b) ==> !is_pending(b, j),
{
    lemma_first_pending_from(b, 0);
    if has_pending(b) {
        let i = choose|i: int| is_pending(b, i);
        assert(is_pending(b, i));
        if first_pending(b) >= b.len() {
            assert(!is_pending(b, i));
        }
    }
}

/// An entry handed out by a store, which can always be reduced to the request it was made from.
///
/// The spec functions of this module's traits have a body that says nothing: an
/// implementation that is not verified leaves them alone, a verified one states them.
pub trait DatabaseEntry<A>: Sized {
    /// The request this entry was made from.
    open spec fn base(&self) -> A {
        arbitrary()
    }

    fn get_base(&self) -> (a: A)
        ensures
            a == self.base(),
    ;
}

/// A store of build requests. `A` is what producers submit, `B` what workers are handed.
///
/// The store owns the status of every entry. Each operation is one atomic step on the
/// backlog, so what holds of every sequence of steps holds of every interleaving of
/// producers and workers.
pub trait Database<A, B: DatabaseEntry<A>>: Sized {
    /// Every entry ever submitted, earliest first.
    open spec fn backlog(&self) -> Seq<Slot<A>> {
        arbitrary()
    }

    /// The id of the backlog entry that a handed-out entry stands for.
    open spec fn slot_of(entry: &B) -> int {
        arbitrary()
    }

    /// Whether no operation of this kind of store ever fails for a reason of the store's
    /// own: it can always be reached and never breaks its own rules. A store in memory is
    /// of that kind, a store behind a connection is not.
    open spec fn infallible() -> bool {
        false
    }

    /// Appends `entry` as a pending entry. Fails only when the store cannot be reached.
    fn add_pending(&mut self, entry: A) -> (r: Result<(), QueueError>)
        ensures
            Self::infallible() ==> r is Ok,
            match r {
                Ok(()) => final(self).backlog() == add_pending_spec(old(self).backlog(), entry),
                Err(e) => e == QueueError::StoreUnavailable && final(self).backlog() == old(
                    self,
                ).backlog(),
            },
    ;

    /// Claims the earliest pending entry and hands it out; `None` when nothing is pending,
    /// in which case the caller is expected to back off and ask again later.
    fn get_pending(&mut self) -> (r: Result<Option<B>, QueueError>)
        ensures
            Self::infallible() ==> r is Ok,
            match r {
                Ok(Some(e)) => {
                    &&& has_pending(old(self).backlog())
                    &&& Self::slot_of(&e) == first_pending(old(self).backlog())
                    &&& e.base() == old(self).backlog()[first_pending(old(self).backlog())].request
                    &&& final(self).backlog() == claim_spec(old(self).backlog())
                },
                Ok(None) => {
                    &&& !has_pending(old(self).backlog())
                    &&& final(self).backlog() == old(self).backlog()
                },
                Err(e) => {
                    &&& e != QueueError::ExecutorFault
                    &&& final(self).backlog() == old(self).backlog()
                },
            },
    ;

    /// Records `results` for a claimed entry and marks it done. An entry that is not in
    /// progress is refused with `InvalidTransition`.
    fn add_test_results(&mut self, entry: B, results: BuildResult) -> (r: Result<(), QueueError>)
        ensures
            Self::infallible() ==> (r is Ok <==> is_in_progress(
                old(self).backlog(),
                Self::slot_of(&entry),
            )),
            match r {
                Ok(()) => {
                    &&& is_in_progress(old(self).backlog(), Self::slot_of(&entry))
                    &&& final(self).backlog() == commit_spec(
                        old(self).backlog(),
                        Self::slot_of(&entry),
                        results,
                    )
                },
                Err(e) => {
                    &&& e != QueueError::ExecutorFault
                    &&& e == QueueError::InvalidTransition ==> !is_in_progress(
                        old(self).backlog(),
                        Self::slot_of(&entry),
                    )
                    &&& final(self).backlog() == old(self).backlog()
                },
            },
    ;
}

} // verus!
