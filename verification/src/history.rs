//! What holds of every history of a store.
//!
//! A history is a sequence of steps, each of them one atomic operation of some producer
//! or worker. Since the store serves one operation at a time, every run of any number of
//! producers and workers is such a sequence, and what is proved here of all sequences
//! holds of all runs.

use vstd::prelude::*;
use crate::builder::BuildResult;
use crate::database::{
    add_pending_spec, backlog_wf, claim_spec, commit_spec, first_pending, has_pending,
    is_in_progress, is_pending, lemma_first_pending, lock_spec, slot_wf, EntryStatus, Slot,
};

verus! {

/// One operation on the store that took effect.
pub enum Step<A> {
    /// A producer submitted a request.
    AddPending(A),
    /// A worker asked for a pending entry.
    GetPending,
    /// A worker reported results for the entry with this id.
    AddTestResults(int, BuildResult),
}

/// The backlog after `step`.
pub open spec fn apply<A>(b: Seq<Slot<A>>, step: Step<A>) -> Seq<Slot<A>> {
    match step {
        Step::AddPending(request) => add_pending_spec(b, request),
        Step::GetPending => claim_spec(b),
        Step::AddTestResults(i, results) => commit_spec(b, i, results),
    }
}

/// The id of the entry that `step` hands to its caller, if it hands one out.
pub open spec fn handed_out<A>(b: Seq<Slot<A>>, step: Step<A>) -> Option<int> {
    match step {
        Step::GetPending => if has_pending(b) {
            Some(first_pending(b))
        } else {
            None
        },
        _ => None,
    }
}

/// The backlog after the first `k` steps of a history that starts from `b`.
pub open spec fn state_at<A>(b: Seq<Slot<A>>, steps: Seq<Step<A>>, k: int) -> Seq<Slot<A>>
    decreases k,
{
    if k <= 0 {
        b
    } else {
        apply(state_at(b, steps, k - 1), steps[k - 1])
    }
}

/// The id of the entry that step `k` of a history hands to its caller, if it hands one out.
pub open spec fn handed_out_at<A>(b: Seq<Slot<A>>, steps: Seq<Step<A>>, k: int) -> Option<int> {
    handed_out(state_at(b, steps, k), steps[k])
}

/// How many of the first `k` steps are claim attempts.
pub open spec fn claims_among<A>(steps: Seq<Step<A>>, k: int) -> nat
    decreases k,
{
    if k <= 0 {
        0
    } else {
        claims_among(steps, k - 1) + if steps[k - 1] is GetPending {
            1nat
        } else {
            0nat
        }
    }
}

/// How many entries before entry `n` are pending.
pub open spec fn pending_ahead<A>(b: Seq<Slot<A>>, n: int) -> nat
    decreases n,
{
    if n <= 0 {
        0
    } else {
        pending_ahead(b, n - 1) + if is_pending(b, n - 1) {
            1nat
        } else {
            0nat
        }
    }
}

/// One step keeps every entry in its place with its request, moves the status of no
/// entry anywhere but to the next status, leaves finished entries as they are, and
/// adds at most one entry, which is pending.
pub proof fn lemma_step_advances<A>(b: Seq<Slot<A>>, step: Step<A>)
    ensures
        b.len() <= apply(b, step).len() <= b.len() + 1,
        forall|i: int|
            0 <= i < b.len() ==> {
                let before = #[trigger] b[i];
                let after = apply(b, step)[i];
                &&& after.request == before.request
                &&& after.status == before.status || Some(after.status)
                    == before.status.successor()
                &&& before.status == EntryStatus::Done ==> after == before
            },
        forall|i: int|
            b.len() <= i < apply(b, step).len() ==> {
                &&& (#[trigger] apply(b, step)[i]).status == EntryStatus::Pending
                &&& apply(b, step)[i].results is None
            },
        backlog_wf(b) ==> backlog_wf(apply(b, step)),
{
    lemma_first_pending(b);
    if backlog_wf(b) {
        assert forall|i: int| 0 <= i < apply(b, step).len() implies slot_wf(
            #[trigger] apply(b, step)[i],
        ) by {
            if i < b.len() {
                assert(slot_wf(b[i]));
            }
        }
    }
}

/// Status monotonicity: over any history, an entry keeps its place and its request, and
/// its status only moves forward along pending, in progress, done. A finished entry
/// never changes again.
pub proof fn lemma_status_only_advances<A>(b: Seq<Slot<A>>, steps: Seq<Step<A>>, j: int, k: int)
    requires
        0 <= j <= k <= steps.len(),
    ensures
        state_at(b, steps, j).len() <= state_at(b, steps, k).len(),
        forall|i: int|
            0 <= i < state_at(b, steps, j).len() ==> {
                let before = #[trigger] state_at(b, steps, j)[i];
                let after = state_at(b, steps, k)[i];
                &&& after.request == before.request
                &&& before.status.reaches(after.status)
                &&& before.status == EntryStatus::Done ==> after == before
            },
        backlog_wf(b) ==> backlog_wf(state_at(b, steps, k)),
    decreases k,
{
    if j < k {
        lemma_status_only_advances(b, steps, j, k - 1);
        lemma_step_advances(state_at(b, steps, k - 1), steps[k - 1]);
        assert forall|i: int| 0 <= i < state_at(b, steps, j).len() implies ({
            let before = #[trigger] state_at(b, steps, j)[i];
            let after = state_at(b, steps, k)[i];
            &&& after.request == before.request
            &&& before.status.reaches(after.status)
            &&& before.status == EntryStatus::Done ==> after == before
        }) by {
            let middle = state_at(b, steps, k - 1)[i];
            assert(middle.request == state_at(b, steps, j)[i].request);
        }
    } else if k > 0 {
        lemma_status_only_advances(b, steps, 0, k - 1);
        lemma_step_advances(state_at(b, steps, k - 1), steps[k - 1]);
    }
}

/// Status monotonicity, step by step: in any history, what one step does to an entry is
/// nothing, or a move to the next status; an entry that the step adds is pending.
pub proof fn lemma_status_sequence<A>(b: Seq<Slot<A>>, steps: Seq<Step<A>>, k: int, i: int)
    requires
        0 <= k < steps.len(),
        0 <= i < state_at(b, steps, k + 1).len(),
    ensures
        i < state_at(b, steps, k).len() ==> {
            let before = state_at(b, steps, k)[i];
            let after = state_at(b, steps, k + 1)[i];
            after.status == before.status || Some(after.status) == before.status.successor()
        },
        i >= state_at(b, steps, k).len() ==> state_at(b, steps, k + 1)[i].status
            == EntryStatus::Pending,
{
    lemma_step_advances(state_at(b, steps, k), steps[k]);
}

/// At-most-once claim: in any history, no entry is handed out by two claims.
pub proof fn lemma_claimed_at_most_once<A>(b: Seq<Slot<A>>, steps: Seq<Step<A>>, j: int, k: int)
    requires
        0 <= j < k < steps.len(),
        handed_out_at(b, steps, j) is Some,
    ensures
        handed_out_at(b, steps, k) != handed_out_at(b, steps, j),
{
    let before = state_at(b, steps, j);
    let claimed = first_pending(before);
    lemma_first_pending(before);
    assert(state_at(b, steps, j + 1) == claim_spec(before));
    assert(state_at(b, steps, j + 1)[claimed].status == EntryStatus::InProgress);
    lemma_status_only_advances(b, steps, j + 1, k);
    let later = state_at(b, steps, k);
    assert(state_at(b, steps, j + 1)[claimed].status.reaches(later[claimed].status));
    lemma_first_pending(later);
}

/// Commit correctness: once results are recorded for an entry in progress, the entry is
/// done and holds exactly these results, whatever steps follow.
pub proof fn lemma_committed_results_stay<A>(
    b: Seq<Slot<A>>,
    i: int,
    results: BuildResult,
    steps: Seq<Step<A>>,
    k: int,
)
    requires
        is_in_progress(b, i),
        0 <= k <= steps.len(),
    ensures
        i < state_at(commit_spec(b, i, results), steps, k).len(),
        state_at(commit_spec(b, i, results), steps, k)[i] == (Slot {
            request: b[i].request,
            status: EntryStatus::Done,
            results: Some(results),
        }),
{
    let committed = commit_spec(b, i, results);
    assert(state_at(committed, steps, 0) == committed);
    lemma_status_only_advances(committed, steps, 0, k);
    assert(committed[i].status == EntryStatus::Done);
}

/// Idempotent empty poll: where nothing is pending, a claim hands out nothing and leaves
/// the store as it is, however often it is repeated.
pub proof fn lemma_empty_poll_changes_nothing<A>(b: Seq<Slot<A>>, steps: Seq<Step<A>>, k: int)
    requires
        !has_pending(b),
        0 <= k <= steps.len(),
        forall|j: int| 0 <= j < k ==> #[trigger] steps[j] is GetPending,
    ensures
        state_at(b, steps, k) == b,
        handed_out(b, Step::<A>::GetPending) is None,
    decreases k,
{
    if k > 0 {
        lemma_empty_poll_changes_nothing(b, steps, k - 1);
        lemma_first_pending(b);
        assert(steps[k - 1] is GetPending);
    }
}

/// Entries that agree on which of the first `n` are pending have as many pending ones
/// before entry `n`.
proof fn lemma_pending_ahead_same<A>(b1: Seq<Slot<A>>, b2: Seq<Slot<A>>, n: int)
    requires
        forall|j: int| 0 <= j < n ==> is_pending(b1, j) == is_pending(b2, j),
    ensures
        pending_ahead(b1, n) == pending_ahead(b2, n),
    decreases n,
{
    if n > 0 {
        lemma_pending_ahead_same(b1, b2, n - 1);
    }
}

/// Claiming a pending entry before entry `n` leaves one pending entry fewer before it.
proof fn lemma_pending_ahead_after_lock<A>(b: Seq<Slot<A>>, claimed: int, n: int)
    requires
        is_pending(b, claimed),
        claimed < n,
    ensures
        pending_ahead(lock_spec(b, claimed), n) + 1 == pending_ahead(b, n),
    decreases n,
{
    if n - 1 == claimed {
        lemma_pending_ahead_same(lock_spec(b, claimed), b, claimed);
    } else {
        lemma_pending_ahead_after_lock(b, claimed, n - 1);
    }
}

/// As long as a pending entry has not been handed out, it stays pending, and every claim
/// attempt has taken one of the pending entries before it.
proof fn lemma_waiting_entry<A>(b: Seq<Slot<A>>, steps: Seq<Step<A>>, n: int, k: int)
    requires
        is_pending(b, n),
        0 <= k <= steps.len(),
    ensures
        (exists|j: int| 0 <= j < k && handed_out_at(b, steps, j) == Some(n)) || (is_pending(
            state_at(b, steps, k),
            n,
        ) && pending_ahead(state_at(b, steps, k), n) + claims_among(steps, k) == pending_ahead(
            b,
            n,
        )),
    decreases k,
{
    if k > 0 {
        lemma_waiting_entry(b, steps, n, k - 1);
        if !(exists|j: int| 0 <= j < k - 1 && handed_out_at(b, steps, j) == Some(n)) {
            let before = state_at(b, steps, k - 1);
            let after = state_at(b, steps, k);
            lemma_first_pending(before);
            match steps[k - 1] {
                Step::GetPending => {
                    let claimed = first_pending(before);
                    if claimed == n {
                        assert(handed_out_at(b, steps, k - 1) == Some(n));
                    } else {
                        lemma_pending_ahead_after_lock(before, claimed, n);
                    }
                },
                Step::AddPending(_) => {
                    lemma_pending_ahead_same(before, after, n);
                },
                Step::AddTestResults(_, _) => {
                    lemma_pending_ahead_same(before, after, n);
                },
            }
        } else {
            let j = choose|j: int| 0 <= j < k - 1 && handed_out_at(b, steps, j) == Some(n);
            assert(0 <= j < k && handed_out_at(b, steps, j) == Some(n));
        }
    }
}

/// No pending entry is passed over: in any history with more claim attempts than there
/// are pending entries before entry `n`, one of the attempts hands out entry `n`.
pub proof fn lemma_pending_entry_is_reached<A>(
    b: Seq<Slot<A>>,
    n: int,
    steps: Seq<Step<A>>,
    k: int,
)
    requires
        is_pending(b, n),
        0 <= k <= steps.len(),
        claims_among(steps, k) > pending_ahead(b, n),
    ensures
        exists|j: int| 0 <= j < k && handed_out_at(b, steps, j) == Some(n),
{
    lemma_waiting_entry(b, steps, n, k);
}

/// No lost entries: a submitted request is in the backlog as a pending entry, and in any
/// history that follows with more claim attempts than entries were pending before it,
/// one of the attempts hands it out, with the request as it was submitted.
pub proof fn lemma_no_lost_entries<A>(b: Seq<Slot<A>>, request: A, steps: Seq<Step<A>>, k: int)
    requires
        0 <= k <= steps.len(),
        claims_among(steps, k) > pending_ahead(add_pending_spec(b, request), b.len() as int),
    ensures
        is_pending(add_pending_spec(b, request), b.len() as int),
        add_pending_spec(b, request)[b.len() as int].request == request,
        exists|j: int|
            0 <= j < k && handed_out_at(add_pending_spec(b, request), steps, j) == Some(
                b.len() as int,
            ) && state_at(add_pending_spec(b, request), steps, j)[b.len() as int].request
                == request,
{
    let submitted = add_pending_spec(b, request);
    let n = b.len() as int;
    lemma_pending_entry_is_reached(submitted, n, steps, k);
    let j = choose|j: int| 0 <= j < k && handed_out_at(submitted, steps, j) == Some(n);
    lemma_status_only_advances(submitted, steps, 0, j);
    assert(state_at(submitted, steps, 0) == submitted);
    assert(submitted[n].request == request);
    assert(state_at(submitted, steps, j)[n].request == request);
}

} // verus!
