//! Properties that relate several operations of the ledger.

use vstd::prelude::*;

use crate::platform::{
    fcfs, selected_by_author, total_due, Context, Platform, PlatformError, Transfer, STORAGE_COST,
};
use crate::rating::{rating_after, score_of};

verus! {

/// A task that `add_task` accepted is stored under the returned id with the
/// given title, description, type and reward, the caller as author, no
/// assignee and no completion time.
pub proof fn lemma_added_task_is_stored(
    before: Platform,
    after: Platform,
    ctx: &Context,
    title: Seq<char>,
    description: Seq<char>,
    task_type: Seq<char>,
    reward: u128,
    id: u64,
)
    requires
        before.add_task_effect(
            after,
            ctx,
            title,
            description,
            task_type,
            reward,
            Ok::<u64, PlatformError>(id),
        ),
    ensures
        after.tasks_view().contains_key(id),
        after.tasks_view()[id].title == title,
        after.tasks_view()[id].description == description,
        after.tasks_view()[id].task_type == task_type,
        after.tasks_view()[id].author == ctx.caller@,
        after.tasks_view()[id].reward == reward,
        after.tasks_view()[id].assignee is None,
        after.tasks_view()[id].completed_at is None,
{
}

/// `add_task` with an empty title or description is refused as invalid
/// input; no task is stored and the next id stays.
pub proof fn lemma_empty_text_refused(
    before: Platform,
    after: Platform,
    ctx: &Context,
    title: Seq<char>,
    description: Seq<char>,
    task_type: Seq<char>,
    reward: u128,
    r: Result<u64, PlatformError>,
)
    requires
        before.add_task_effect(after, ctx, title, description, task_type, reward, r),
        title.len() == 0 || description.len() == 0,
    ensures
        r == Err::<u64, PlatformError>(PlatformError::InvalidInput),
        after.tasks_view() == before.tasks_view(),
        after.next_id() == before.next_id(),
{
}

/// `add_task` is refused when the reward does not exceed `STORAGE_COST`, or
/// when the attached value is not the reward plus its fee; nothing changes.
pub proof fn lemma_bad_payment_refused(
    before: Platform,
    after: Platform,
    ctx: &Context,
    title: Seq<char>,
    description: Seq<char>,
    task_type: Seq<char>,
    reward: u128,
    r: Result<u64, PlatformError>,
)
    requires
        before.add_task_effect(after, ctx, title, description, task_type, reward, r),
        reward <= STORAGE_COST || ctx.deposit != total_due(reward, before.fee_percentage()),
    ensures
        r is Err,
        after.same_state(&before),
{
}

/// Applying for an `FCFS` task makes the caller its assignee, and a second
/// application for it, by anyone, is refused as invalid state.
pub proof fn lemma_fcfs_first_applicant_wins(
    s0: Platform,
    s1: Platform,
    s2: Platform,
    ctx1: &Context,
    ctx2: &Context,
    task_id: u64,
    r2: Result<(), PlatformError>,
)
    requires
        s0.apply_effect(s1, ctx1, task_id, Ok::<(), PlatformError>(())),
        s0.tasks_view()[task_id].task_type == fcfs(),
        s1.apply_effect(s2, ctx2, task_id, r2),
    ensures
        s1.tasks_view()[task_id].assignee == Some(ctx1.caller@),
        r2 == Err::<(), PlatformError>(PlatformError::InvalidState),
        s2.same_state(&s1),
{
}

/// Applying for a `SelectedByAuthor` task adds one candidate and leaves the
/// task unassigned.
pub proof fn lemma_selected_applicant_becomes_candidate(
    s0: Platform,
    s1: Platform,
    ctx: &Context,
    task_id: u64,
)
    requires
        s0.apply_effect(s1, ctx, task_id, Ok::<(), PlatformError>(())),
        s0.tasks_view()[task_id].task_type == selected_by_author(),
    ensures
        s1.tasks_view()[task_id].candidates.len() == s0.tasks_view()[task_id].candidates.len() + 1,
        s1.tasks_view()[task_id].assignee is None,
{
    assert(fcfs() != selected_by_author()) by {
        reveal_strlit("FCFS");
        reveal_strlit("SelectedByAuthor");
        assert(fcfs().len() != selected_by_author().len());
    }
}

/// `assign_task` on an existing task by anyone but its author is refused as
/// unauthorized.
pub proof fn lemma_assign_needs_author(
    before: Platform,
    after: Platform,
    ctx: &Context,
    task_id: u64,
    candidate: Seq<char>,
    r: Result<(), PlatformError>,
)
    requires
        before.assign_effect(after, ctx, task_id, candidate, r),
        before.tasks_view().contains_key(task_id),
        ctx.caller@ != before.tasks_view()[task_id].author,
    ensures
        r == Err::<(), PlatformError>(PlatformError::Unauthorized),
        after.same_state(&before),
{
}

/// `assign_task` with an account that is not among the candidates is refused.
pub proof fn lemma_assign_needs_candidate(
    before: Platform,
    after: Platform,
    ctx: &Context,
    task_id: u64,
    candidate: Seq<char>,
    r: Result<(), PlatformError>,
)
    requires
        before.assign_effect(after, ctx, task_id, candidate, r),
        before.tasks_view().contains_key(task_id),
        !before.tasks_view()[task_id].candidates.contains(candidate),
    ensures
        r is Err,
        after.same_state(&before),
{
}

/// Completing a task a second time, by the same caller, is refused as
/// invalid state and leaves every score as the first completion set it.
pub proof fn lemma_complete_only_once(
    s0: Platform,
    s1: Platform,
    s2: Platform,
    ctx1: &Context,
    ctx2: &Context,
    task_id: u64,
    rating1: u8,
    rating2: u8,
    t1: Transfer,
    r2: Result<Transfer, PlatformError>,
)
    requires
        s0.complete_effect(s1, ctx1, task_id, rating1, Ok::<Transfer, PlatformError>(t1)),
        s1.complete_effect(s2, ctx2, task_id, rating2, r2),
        ctx2.caller@ == ctx1.caller@,
    ensures
        r2 matches Err(e) && e == PlatformError::InvalidState,
        s2.ratings_view() == s1.ratings_view(),
        s2.same_state(&s1),
{
}

/// A worker's first rating becomes the score; a second one is averaged with
/// it, rounding down. This is how `complete_task` updates the scores. A first
/// rating of 0 leaves the worker reading as unrated, so the next rating is
/// again taken as it is: that case is left out.
pub proof fn lemma_rating_aggregation(
    scores: Map<Seq<char>, u8>,
    worker: Seq<char>,
    first: u8,
    second: u8,
)
    requires
        !scores.contains_key(worker),
        first > 0,
    ensures
        ({
            let once = scores.insert(worker, rating_after(score_of(scores, worker), first));
            let twice = once.insert(worker, rating_after(score_of(once, worker), second));
            &&& score_of(once, worker) == first
            &&& score_of(twice, worker) == (first as int + second as int) / 2
        }),
{
}

/// A task that has an assignee cannot be deleted, whoever asks.
pub proof fn lemma_assigned_task_not_deleted(
    before: Platform,
    after: Platform,
    ctx: &Context,
    task_id: u64,
    r: Result<Transfer, PlatformError>,
)
    requires
        before.delete_effect(after, ctx, task_id, r),
        before.tasks_view().contains_key(task_id),
        before.tasks_view()[task_id].assignee is Some,
    ensures
        r is Err,
        after.same_state(&before),
{
}

} // verus!
