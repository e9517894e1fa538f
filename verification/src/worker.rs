//! A worker: it takes one entry from the store, has it built, and records the outcome.

use vstd::prelude::*;
use crate::builder::{BuildResult, ToWholeBuildable, WholeBuildable};
use crate::database::{
    claim_spec, commit_spec, first_pending, has_pending, is_done, is_in_progress,
    lemma_first_pending, Database, DatabaseEntry, QueueError,
};

verus! {

/// What one step of a worker did.
#[derive(Clone, Copy, Debug, PartialEq, Eq, Structural)]
pub enum WorkerStep {
    /// Nothing was pending. The caller decides how long to wait before the next step.
    Idle,
    /// One entry was claimed and built, and its results are recorded.
    Recorded,
}

/// Records what the executor reported for a claimed entry.
///
/// A build that ran is recorded whether it passed or failed. When the executor produced
/// nothing, the store is left as it is: the entry stays in progress for an operator to
/// see, and the fault is reported.
pub fn record_outcome<A, D: DatabaseEntry<A>, C: Database<A, D>>(
    db: &mut C,
    entry: D,
    outcome: Option<BuildResult>,
) -> (r: Result<(), QueueError>)
    ensures
        C::infallible() && outcome is Some ==> (r is Ok <==> is_in_progress(
            old(db).backlog(),
            C::slot_of(&entry),
        )),
        match outcome {
            None => r == Err::<(), QueueError>(QueueError::ExecutorFault) && final(db).backlog()
                == old(db).backlog(),
            Some(results) => match r {
                Ok(()) => {
                    &&& is_in_progress(old(db).backlog(), C::slot_of(&entry))
                    &&& final(db).backlog() == commit_spec(
                        old(db).backlog(),
                        C::slot_of(&entry),
                        results,
                    )
                },
                Err(e) => {
                    &&& e != QueueError::ExecutorFault
                    &&& e == QueueError::InvalidTransition ==> !is_in_progress(
                        old(db).backlog(),
                        C::slot_of(&entry),
                    )
                    &&& final(db).backlog() == old(db).backlog()
                },
            },
        },
{
    match outcome {
        Some(results) => db.add_test_results(entry, results),
        None => Err(QueueError::ExecutorFault),
    }
}

/// One step of a worker: claim the earliest pending entry, build it, record the outcome.
///
/// The build runs between the claim and the record, so the store is never held while
/// it runs. What the executor reports is its own affair; whatever it is, the store ends
/// in one of the states below.
pub fn worker_loop_step<
    B: WholeBuildable,
    A: ToWholeBuildable<B>,
    D: DatabaseEntry<A>,
    C: Database<A, D>,
>(db: &mut C) -> (r: Result<WorkerStep, QueueError>)
    ensures
        C::infallible() ==> r is Ok || r == Err::<WorkerStep, QueueError>(
            QueueError::ExecutorFault,
        ),
        match r {
            Ok(WorkerStep::Idle) => {
                &&& !has_pending(old(db).backlog())
                &&& final(db).backlog() == old(db).backlog()
            },
            Ok(WorkerStep::Recorded) => {
                let claimed = first_pending(old(db).backlog());
                &&& has_pending(old(db).backlog())
                &&& is_done(final(db).backlog(), claimed)
                &&& final(db).backlog()[claimed].results is Some
                &&& final(db).backlog() == commit_spec(
                    claim_spec(old(db).backlog()),
                    claimed,
                    final(db).backlog()[claimed].results->0,
                )
            },
            Err(QueueError::ExecutorFault) => {
                &&& has_pending(old(db).backlog())
                &&& final(db).backlog() == claim_spec(old(db).backlog())
            },
            Err(QueueError::StoreUnavailable) => {
                ||| final(db).backlog() == old(db).backlog()
                ||| has_pending(old(db).backlog()) && final(db).backlog() == claim_spec(
                    old(db).backlog(),
                )
            },
            Err(QueueError::InvalidTransition) => final(db).backlog() == old(db).backlog(),
        },
{
    proof {
        lemma_first_pending(old(db).backlog());
    }
    match db.get_pending() {
        Err(e) => Err(e),
        Ok(None) => Ok(WorkerStep::Idle),
        Ok(Some(entry)) => {
            let outcome = entry.get_base().to_whole_buildable().whole_build();
            match record_outcome(db, entry, outcome) {
                Ok(()) => Ok(WorkerStep::Recorded),
                Err(e) => Err(e),
            }
        },
    }
}

} // verus!
