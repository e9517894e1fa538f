//! A store that keeps the backlog of builds in memory.
//!
//! It answers the three requests every backing store must answer (insert, select the
//! earliest pending entry, update on condition) and runs the claim protocol on them.

use vstd::prelude::*;
use crate::builder::BuildResult;
use crate::builds::{Build, BuildInsert};
use crate::claim::{claim_begin, claim_next, commit_result, BackendReply, ClaimStep};
use crate::database::{
    add_pending_spec, backlog_wf, claim_spec, commit_spec, first_pending, has_pending,
    is_in_progress, is_pending, lemma_first_pending, lock_spec, slot_wf, Database, EntryStatus,
    QueueError, Slot,
};

verus! {

/// The backlog of builds, held in memory in the order of submission.
pub struct MemoryDatabase {
    rows: Vec<Build>,
}

impl MemoryDatabase {
    /// Every row sits at the place that its id names, and carries results exactly when done.
    #[verifier::type_invariant]
    spec fn rows_in_place(self) -> bool {
        forall|i: int|
            0 <= i < self.rows@.len() ==> (#[trigger] self.rows@[i]).id == i && slot_wf(
                self.rows@[i].slot(),
            )
    }

    /// An empty store.
    pub fn new() -> (db: MemoryDatabase)
        ensures
            db.backlog() == Seq::<Slot<BuildInsert>>::empty(),
    {
        let db = MemoryDatabase { rows: Vec::new() };
        assert(db.backlog() =~= Seq::<Slot<BuildInsert>>::empty());
        db
    }

    /// How many entries were ever submitted.
    pub fn len(&self) -> (n: usize)
        ensures
            n == self.backlog().len(),
    {
        self.rows.len()
    }

    /// Reads the entry with the given id as it stands now.
    pub fn entry(&self, id: u64) -> (found: Option<Build>)
        ensures
            match found {
                Some(b) => id < self.backlog().len() && b.id == id && b.slot() == self.backlog()[id as int],
                None => id >= self.backlog().len(),
            },
    {
        proof {
            use_type_invariant(self);
        }
        if id < self.rows.len() as u64 {
            Some(self.rows[id as usize].clone())
        } else {
            None
        }
    }
    /// Selects the earliest pending entry, if any, without changing it.
    pub fn get_one_build(&self) -> (found: Option<Build>)
        ensures
            match found {
                Some(b) => {
                    &&& has_pending(self.backlog())
                    &&& b.id == first_pending(self.backlog())
                    &&& b.slot() == self.backlog()[b.id as int]
                },
                None => !has_pending(self.backlog()),
            },
    {
        proof {
            use_type_invariant(self);
            lemma_first_pending(self.backlog());
        }
        let mut i: usize = 0;
        while i < self.rows.len()
            invariant
                i <= self.rows@.len(),
                forall|j: int| 0 <= j < i ==> !is_pending(self.backlog(), j),
            decreases self.rows@.len() - i,
        {
            match self.rows[i].status {
                EntryStatus::Pending => {
                    proof {
                        use_type_invariant(self);
                        lemma_first_pending(self.backlog());
                        assert(is_pending(self.backlog(), i as int));
                    }
                    return Some(self.rows[i].clone());
                },
                _ => {},
            }
            i += 1;
        }
        proof {
            assert forall|j: int| !is_pending(self.backlog(), j) by {}
        }
        None
    }

    /// Moves the entry that `b` names from pending to in progress, on condition that it is
    /// still pending. Returns how many entries were changed: one, or none.
    pub fn try_lock_build(&mut self, b: &Build) -> (rows: u64)
        ensures
            final(self).backlog() == lock_spec(old(self).backlog(), b.id as int),
            rows == if is_pending(old(self).backlog(), b.id as int) {
                1u64
            } else {
                0u64
            },
    {
        proof {
            use_type_invariant(&*self);
        }
        let mut rows: Vec<Build> = Vec::new();
        std::mem::swap(&mut self.rows, &mut rows);
        let mut changed: u64 = 0;
        if b.id < rows.len() as u64 {
            let i = b.id as usize;
            match rows[i].status {
                EntryStatus::Pending => {
                    rows[i].status = EntryStatus::InProgress;
                    changed = 1;
                },
                _ => {},
            }
        }
        std::mem::swap(&mut self.rows, &mut rows);
        assert(self.backlog() =~= lock_spec(old(self).backlog(), b.id as int));
        changed
    }

    /// Moves the entry with the given id from in progress to done and stores `results`
    /// with it, on condition that it is in progress. Returns how many entries were
    /// changed: one, or none.
    pub fn try_finish_build(&mut self, id: u64, results: BuildResult) -> (rows: u64)
        ensures
            final(self).backlog() == commit_spec(old(self).backlog(), id as int, results),
            rows == if is_in_progress(old(self).backlog(), id as int) {
                1u64
            } else {
                0u64
            },
    {
        proof {
            use_type_invariant(&*self);
        }
        let mut rows: Vec<Build> = Vec::new();
        std::mem::swap(&mut self.rows, &mut rows);
        let mut changed: u64 = 0;
        if id < rows.len() as u64 {
            let i = id as usize;
            match rows[i].status {
                EntryStatus::InProgress => {
                    rows[i].status = EntryStatus::Done;
                    rows[i].results = Some(results);
                    changed = 1;
                },
                _ => {},
            }
        }
        std::mem::swap(&mut self.rows, &mut rows);
        assert(self.backlog() =~= commit_spec(old(self).backlog(), id as int, results));
        changed
    }
}

impl Database<BuildInsert, Build> for MemoryDatabase {
    closed spec fn backlog(&self) -> Seq<Slot<BuildInsert>> {
        Seq::new(self.rows@.len(), |i: int| self.rows@[i].slot())
    }

    open spec fn slot_of(entry: &Build) -> int {
        entry.id as int
    }

    open spec fn infallible() -> bool {
        true
    }

    fn add_pending(&mut self, entry: BuildInsert) -> (r: Result<(), QueueError>)
        ensures
            backlog_wf(final(self).backlog()),
    {
        proof {
            use_type_invariant(&*self);
        }
        let mut rows: Vec<Build> = Vec::new();
        std::mem::swap(&mut self.rows, &mut rows);
        let id = rows.len() as u64;
        rows.push(
            Build {
                id,
                status: EntryStatus::Pending,
                clone_url: entry.clone_url,
                branch: entry.branch,
                results: None,
            },
        );
        std::mem::swap(&mut self.rows, &mut rows);
        proof {
            use_type_invariant(&*self);
            assert(self.backlog() =~= add_pending_spec(old(self).backlog(), entry));
            assert(backlog_wf(self.backlog()));
        }
        Ok(())
    }

    fn get_pending(&mut self) -> (r: Result<Option<Build>, QueueError>)
        ensures
            r matches Ok(Some(e)) ==> e.slot() == final(self).backlog()[e.id as int],
            backlog_wf(final(self).backlog()),
    {
        let mut step = claim_begin();
        loop
            invariant
                claim_in_step(old(self).backlog(), self.backlog(), step),
            decreases requests_left(step),
        {
            match step {
                ClaimStep::Finished(found) => {
                    proof {
                        use_type_invariant(&*self);
                        lemma_first_pending(old(self).backlog());
                        assert(backlog_wf(self.backlog()));
                    }
                    return Ok(found);
                },
                ClaimStep::Failed(e) => {
                    return Err(e);
                },
                ClaimStep::Select => {
                    let reply = BackendReply::Selected(self.get_one_build());
                    proof {
                        lemma_first_pending(self.backlog());
                    }
                    step = claim_next(ClaimStep::Select, reply);
                },
                ClaimStep::TryLock(candidate) => {
                    proof {
                        lemma_first_pending(self.backlog());
                    }
                    let rows = self.try_lock_build(&candidate);
                    step = claim_next(ClaimStep::TryLock(candidate), BackendReply::Updated(rows));
                },
            }
        }
    }

    fn add_test_results(&mut self, entry: Build, results: BuildResult) -> (r: Result<
        (),
        QueueError,
    >)
        ensures
            r matches Err(e) ==> e == QueueError::InvalidTransition,
            backlog_wf(final(self).backlog()),
    {
        let rows = self.try_finish_build(entry.id, results);
        proof {
            use_type_invariant(&*self);
            assert(backlog_wf(self.backlog()));
        }
        commit_result(BackendReply::Updated(rows))
    }
}

/// How the store stands while a claim attempt is at `step`: untouched until the candidate
/// is locked, and the candidate is always the earliest pending entry.
pub open spec fn claim_in_step(
    before: Seq<Slot<BuildInsert>>,
    now: Seq<Slot<BuildInsert>>,
    step: ClaimStep,
) -> bool {
    match step {
        ClaimStep::Select => now == before,
        ClaimStep::TryLock(candidate) => {
            &&& now == before
            &&& has_pending(before)
            &&& candidate.id == first_pending(before)
            &&& candidate.slot() == before[candidate.id as int]
        },
        ClaimStep::Finished(Some(claimed)) => {
            &&& now == claim_spec(before)
            &&& has_pending(before)
            &&& claimed.id == first_pending(before)
            &&& claimed.slot() == now[claimed.id as int]
        },
        ClaimStep::Finished(None) => now == before && !has_pending(before),
        ClaimStep::Failed(_) => false,
    }
}

/// How many requests a claim attempt at `step` may still send to a store that nobody
/// else is changing.
pub open spec fn requests_left(step: ClaimStep) -> nat {
    match step {
        ClaimStep::Select => 2,
        ClaimStep::TryLock(_) => 1,
        _ => 0,
    }
}

} // verus!
