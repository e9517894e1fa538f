//! The claim protocol for a store that answers over a connection.
//!
//! Selecting a candidate and claiming it are two requests, and another worker may
//! claim the candidate in between. The protocol says what to ask next after each
//! answer; whoever holds the connection sends the requests.

use vstd::prelude::*;
use crate::builds::Build;
use crate::database::{EntryStatus, QueueError};

verus! {

/// Where a claim attempt stands: the request to send next, or how the attempt ended.
#[derive(Debug, PartialEq, Eq)]
pub enum ClaimStep {
    /// Ask for the earliest pending entry.
    Select,
    /// Ask to move this candidate from pending to in progress, on condition that it is
    /// still pending.
    TryLock(Build),
    /// The attempt is over: this entry was claimed, or nothing was pending.
    Finished(Option<Build>),
    /// The attempt is over and nothing was claimed.
    Failed(QueueError),
}

/// What the store answered.
#[derive(Debug, PartialEq, Eq)]
pub enum BackendReply {
    /// The answer to a selection: a candidate, or none.
    Selected(Option<Build>),
    /// The answer to a conditional update: how many entries it changed.
    Updated(u64),
    /// The store could not be reached.
    Unavailable,
}

impl ClaimStep {
    /// Whether the attempt is over.
    pub open spec fn is_over(&self) -> bool {
        self is Finished || self is Failed
    }

    pub fn is_finished(&self) -> (over: bool)
        ensures
            over == self.is_over(),
    {
        match self {
            ClaimStep::Finished(_) => true,
            ClaimStep::Failed(_) => true,
            _ => false,
        }
    }
}

/// What a conditional update that changed `rows` entries means for a transition of one entry.
#[derive(Clone, Copy, Debug, PartialEq, Eq, Structural)]
pub enum UpdateOutcome {
    /// Exactly one entry changed: the transition took place.
    Applied,
    /// No entry changed: the entry was not in the status the transition starts from.
    Missed,
    /// Several entries changed: the store holds one id more than once.
    Corrupt,
}

pub open spec fn update_outcome_spec(rows: u64) -> UpdateOutcome {
    if rows == 1 {
        UpdateOutcome::Applied
    } else if rows == 0 {
        UpdateOutcome::Missed
    } else {
        UpdateOutcome::Corrupt
    }
}

/// Reads the number of entries that a conditional update changed.
pub fn update_outcome(rows: u64) -> (outcome: UpdateOutcome)
    ensures
        outcome == update_outcome_spec(rows),
{
    if rows == 1 {
        UpdateOutcome::Applied
    } else if rows == 0 {
        UpdateOutcome::Missed
    } else {
        UpdateOutcome::Corrupt
    }
}

/// The step that follows `step` once the store has answered `reply`.
///
/// A lost race leads back to selection and is never reported. An answer that does not
/// fit the request, a candidate that is not pending and an update that changed several
/// entries end the attempt with `InvalidTransition`.
pub open spec fn claim_next_spec(step: ClaimStep, reply: BackendReply) -> ClaimStep {
    match step {
        ClaimStep::Finished(_) | ClaimStep::Failed(_) => step,
        ClaimStep::Select => match reply {
            BackendReply::Unavailable => ClaimStep::Failed(QueueError::StoreUnavailable),
            BackendReply::Selected(None) => ClaimStep::Finished(None),
            BackendReply::Selected(Some(candidate)) => if candidate.status
                == EntryStatus::Pending {
                ClaimStep::TryLock(candidate)
            } else {
                ClaimStep::Failed(QueueError::InvalidTransition)
            },
            BackendReply::Updated(_) => ClaimStep::Failed(QueueError::InvalidTransition),
        },
        ClaimStep::TryLock(candidate) => match reply {
            BackendReply::Unavailable => ClaimStep::Failed(QueueError::StoreUnavailable),
            BackendReply::Updated(rows) => match update_outcome_spec(rows) {
                UpdateOutcome::Applied => ClaimStep::Finished(Some(candidate.claimed())),
                UpdateOutcome::Missed => ClaimStep::Select,
                UpdateOutcome::Corrupt => ClaimStep::Failed(QueueError::InvalidTransition),
            },
            BackendReply::Selected(_) => ClaimStep::Failed(QueueError::InvalidTransition),
        },
    }
}

/// The first step of every claim attempt.
pub fn claim_begin() -> (step: ClaimStep)
    ensures
        step == ClaimStep::Select,
{
    ClaimStep::Select
}

/// Advances a claim attempt by one answer of the store.
pub fn claim_next(step: ClaimStep, reply: BackendReply) -> (next: ClaimStep)
    ensures
        next == claim_next_spec(step, reply),
{
    match step {
        ClaimStep::Finished(found) => ClaimStep::Finished(found),
        ClaimStep::Failed(e) => ClaimStep::Failed(e),
        ClaimStep::Select => match reply {
            BackendReply::Unavailable => ClaimStep::Failed(QueueError::StoreUnavailable),
            BackendReply::Selected(None) => ClaimStep::Finished(None),
            BackendReply::Selected(Some(candidate)) => {
                match candidate.status {
                    EntryStatus::Pending => ClaimStep::TryLock(candidate),
                    _ => ClaimStep::Failed(QueueError::InvalidTransition),
                }
            },
            BackendReply::Updated(_) => ClaimStep::Failed(QueueError::InvalidTransition),
        },
        ClaimStep::TryLock(candidate) => match reply {
            BackendReply::Unavailable => ClaimStep::Failed(QueueError::StoreUnavailable),
            BackendReply::Updated(rows) => match update_outcome(rows) {
                UpdateOutcome::Applied => {
                    let mut claimed = candidate;
                    claimed.status = EntryStatus::InProgress;
                    ClaimStep::Finished(Some(claimed))
                },
                UpdateOutcome::Missed => ClaimStep::Select,
                UpdateOutcome::Corrupt => ClaimStep::Failed(QueueError::InvalidTransition),
            },
            BackendReply::Selected(_) => ClaimStep::Failed(QueueError::InvalidTransition),
        },
    }
}

/// What the answer to the conditional update that finishes an entry means for the worker
/// that reported the results.
pub open spec fn commit_result_spec(reply: BackendReply) -> Result<(), QueueError> {
    match reply {
        BackendReply::Unavailable => Err(QueueError::StoreUnavailable),
        BackendReply::Updated(rows) => match update_outcome_spec(rows) {
            UpdateOutcome::Applied => Ok(()),
            _ => Err(QueueError::InvalidTransition),
        },
        BackendReply::Selected(_) => Err(QueueError::InvalidTransition),
    }
}

/// Decides whether results were recorded, from the store's answer to the update.
pub fn commit_result(reply: BackendReply) -> (r: Result<(), QueueError>)
    ensures
        r == commit_result_spec(reply),
{
    match reply {
        BackendReply::Unavailable => Err(QueueError::StoreUnavailable),
        BackendReply::Updated(rows) => match update_outcome(rows) {
            UpdateOutcome::Applied => Ok(()),
            _ => Err(QueueError::InvalidTransition),
        },
        BackendReply::Selected(_) => Err(QueueError::InvalidTransition),
    }
}

} // verus!
