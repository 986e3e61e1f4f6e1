//! The ledger: tasks, their lifecycle, the escrow of rewards, platform fees
//! and worker ratings.

use std::collections::HashMap;
use vstd::prelude::*;
use vstd::string::{StrSliceExecFns, StringExecFns};

use crate::rating::{calculate_rating, entries_view, rating_after, score_of, Ratings};
use crate::task::{strings_view, Task, TaskView};

verus! {

broadcast use vstd::std_specs::hash::group_hash_axioms;

/// The value kept back to pay for storing one record: a reward must exceed
/// it, and withdrawing fees always leaves it in place.
pub const STORAGE_COST: u128 = 1_000_000_000_000_000_000_000;

/// Why an operation was refused. A refused operation changes nothing.
#[derive(Clone, Copy, Debug, PartialEq, Eq, Structural)]
pub enum PlatformError {
    /// No task has the given id.
    NotFound,
    /// The caller is not the author, assignee or administrator the action needs.
    Unauthorized,
    /// The task or ledger is in a state that forbids the action.
    InvalidState,
    /// An empty text, a rating over 5, an unknown task type, a fee of 100 or
    /// more, or a candidate who did not apply.
    InvalidInput,
    /// The attached value is not the reward plus the platform fee.
    PaymentMismatch,
}

/// What the hosting environment reports for the current call.
pub struct Context {
    /// The identity that made the call.
    pub caller: String,
    /// The identity the ledger is deployed under.
    pub admin: String,
    /// The current time.
    pub now: u64,
    /// The value attached to the call.
    pub deposit: u128,
}

/// A payment that the environment is to make once the call succeeds.
pub struct Transfer {
    pub receiver: String,
    pub amount: u128,
}

/// The platform fee on a reward: a whole percentage of each full hundred units.
pub open spec fn fee_for(reward: u128, percentage: u8) -> int {
    (reward as int / 100) * percentage as int
}

/// The value that must be attached to post a task.
pub open spec fn total_due(reward: u128, percentage: u8) -> int {
    reward as int + fee_for(reward, percentage)
}

/// The task type whose first applicant is assigned.
pub open spec fn fcfs() -> Seq<char> {
    "FCFS"@
}

/// The task type whose applicants become candidates.
pub open spec fn selected_by_author() -> Seq<char> {
    "SelectedByAuthor"@
}

/// Stored tasks carry distinct ids, each below `tasks_index`.
pub open spec fn stored_ids_valid(tasks: Seq<Task>, tasks_index: u64) -> bool {
    &&& forall|i: int| 0 <= i < tasks.len() ==> #[trigger] tasks[i].id < tasks_index
    &&& forall|i: int, j: int| 0 <= i < j < tasks.len() ==> tasks[i].id != tasks[j].id
}

/// The ledger.
pub struct Platform {
    tasks: HashMap<u64, Task>,
    ratings: Ratings,
    platform_fee_percentage: u8,
    total_fees: u128,
    tasks_index: u64,
}

impl Platform {
    /// The tasks, by id.
    pub closed spec fn tasks_view(&self) -> Map<u64, TaskView> {
        self.tasks@.map_values(|t: Task| t@)
    }

    /// The score of each rated worker.
    pub closed spec fn ratings_view(&self) -> Map<Seq<char>, u8> {
        self.ratings@
    }

    /// The percentage taken as fee on new tasks.
    pub closed spec fn fee_percentage(&self) -> u8 {
        self.platform_fee_percentage
    }

    /// The fees collected and not yet withdrawn.
    pub closed spec fn fees(&self) -> u128 {
        self.total_fees
    }

    /// The id the next task will get.
    pub closed spec fn next_id(&self) -> u64 {
        self.tasks_index
    }

    /// The fee percentage is below 100 and every stored task carries its own
    /// id, which is below the next id.
    pub closed spec fn wf(&self) -> bool {
        &&& self.platform_fee_percentage < 100
        &&& forall|id: u64| #[trigger]
            self.tasks@.contains_key(id) ==> id < self.tasks_index && self.tasks@[id].id == id
    }

    /// Views of the two ledgers are alike in everything but the tasks.
    pub open spec fn same_but_tasks(&self, other: &Platform) -> bool {
        &&& self.ratings_view() == other.ratings_view()
        &&& self.fee_percentage() == other.fee_percentage()
        &&& self.fees() == other.fees()
        &&& self.next_id() == other.next_id()
    }

    /// Views of the two ledgers are alike.
    pub open spec fn same_state(&self, other: &Platform) -> bool {
        &&& self.same_but_tasks(other)
        &&& self.tasks_view() == other.tasks_view()
    }

    /// Why `add_task` refuses, if it does.
    pub open spec fn add_task_refusal(
        &self,
        ctx: &Context,
        title: Seq<char>,
        description: Seq<char>,
        reward: u128,
    ) -> Option<PlatformError> {
        if title.len() == 0 || description.len() == 0 || reward <= STORAGE_COST {
            Some(PlatformError::InvalidInput)
        } else if total_due(reward, self.fee_percentage()) != ctx.deposit {
            Some(PlatformError::PaymentMismatch)
        } else if self.next_id() == u64::MAX || self.fees() + fee_for(
            reward,
            self.fee_percentage(),
        ) > u128::MAX {
            Some(PlatformError::InvalidState)
        } else {
            None
        }
    }

    /// What `add_task` does to the ledger and returns.
    pub open spec fn add_task_effect(
        &self,
        after: Platform,
        ctx: &Context,
        title: Seq<char>,
        description: Seq<char>,
        task_type: Seq<char>,
        reward: u128,
        r: Result<u64, PlatformError>,
    ) -> bool {
        match self.add_task_refusal(ctx, title, description, reward) {
            Some(e) => r == Err::<u64, PlatformError>(e) && after.same_state(self),
            None => {
                &&& r == Ok::<u64, PlatformError>(self.next_id())
                &&& after.next_id() == self.next_id() + 1
                &&& after.fees() == self.fees() + fee_for(reward, self.fee_percentage())
                &&& after.ratings_view() == self.ratings_view()
                &&& after.fee_percentage() == self.fee_percentage()
                &&& after.tasks_view() == self.tasks_view().insert(
                    self.next_id(),
                    (TaskView {
                        id: self.next_id(),
                        title: title,
                        description: description,
                        task_type: task_type,
                        author: ctx.caller@,
                        assignee: None,
                        candidates: Seq::empty(),
                        created_at: ctx.now,
                        completed_at: None,
                        reward: reward,
                        result: None,
                    }),
                )
            },
        }
    }

    /// What `apply_for_task` does to the ledger and returns.
    pub open spec fn apply_effect(
        &self,
        after: Platform,
        ctx: &Context,
        task_id: u64,
        r: Result<(), PlatformError>,
    ) -> bool {
        match self.apply_refusal(task_id) {
            Some(e) => r == Err::<(), PlatformError>(e) && after.same_state(self),
            None => ({
                let t = self.tasks_view()[task_id];
                &&& r is Ok
                &&& after.same_but_tasks(self)
                &&& after.tasks_view() == self.tasks_view().insert(
                    task_id,
                    if t.task_type == fcfs() {
                        TaskView { assignee: Some(ctx.caller@), ..t }
                    } else {
                        TaskView { candidates: t.candidates.push(ctx.caller@), ..t }
                    },
                )
            }),
        }
    }

    /// What `assign_task` does to the ledger and returns.
    pub open spec fn assign_effect(
        &self,
        after: Platform,
        ctx: &Context,
        task_id: u64,
        candidate_account: Seq<char>,
        r: Result<(), PlatformError>,
    ) -> bool {
        match self.assign_refusal(ctx, task_id, candidate_account) {
            Some(e) => r == Err::<(), PlatformError>(e) && after.same_state(self),
            None => ({
                let t = self.tasks_view()[task_id];
                &&& r is Ok
                &&& after.same_but_tasks(self)
                &&& after.tasks_view() == self.tasks_view().insert(
                    task_id,
                    TaskView { assignee: Some(candidate_account), ..t },
                )
            }),
        }
    }

    /// What `unassign_task` does to the ledger and returns.
    pub open spec fn unassign_effect(
        &self,
        after: Platform,
        ctx: &Context,
        task_id: u64,
        r: Result<(), PlatformError>,
    ) -> bool {
        match self.unassign_refusal(ctx, task_id) {
            Some(e) => r == Err::<(), PlatformError>(e) && after.same_state(self),
            None => ({
                let t = self.tasks_view()[task_id];
                &&& r is Ok
                &&& after.same_but_tasks(self)
                &&& after.tasks_view() == self.tasks_view().insert(
                    task_id,
                    TaskView { assignee: None, ..t },
                )
            }),
        }
    }

    /// What `submit_result` does to the ledger and returns.
    pub open spec fn submit_effect(
        &self,
        after: Platform,
        ctx: &Context,
        task_id: u64,
        result: Seq<char>,
        r: Result<(), PlatformError>,
    ) -> bool {
        match self.submit_refusal(ctx, task_id, result) {
            Some(e) => r == Err::<(), PlatformError>(e) && after.same_state(self),
            None => ({
                let t = self.tasks_view()[task_id];
                &&& r is Ok
                &&& after.same_but_tasks(self)
                &&& after.tasks_view() == self.tasks_view().insert(
                    task_id,
                    TaskView { result: Some(result), ..t },
                )
            }),
        }
    }

    /// What `complete_task` does to the ledger and returns.
    pub open spec fn complete_effect(
        &self,
        after: Platform,
        ctx: &Context,
        task_id: u64,
        rating: u8,
        r: Result<Transfer, PlatformError>,
    ) -> bool {
        match self.complete_refusal(ctx, task_id, rating) {
            Some(e) => r matches Err(e2) && e2 == e && after.same_state(self),
            None => ({
                let t = self.tasks_view()[task_id];
                let worker = t.assignee->Some_0;
                &&& r matches Ok(tr) && tr.receiver@ == worker && tr.amount == t.reward
                &&& after.fee_percentage() == self.fee_percentage()
                &&& after.fees() == self.fees()
                &&& after.next_id() == self.next_id()
                &&& after.ratings_view() == self.ratings_view().insert(
                    worker,
                    rating_after(score_of(self.ratings_view(), worker), rating),
                )
                &&& after.tasks_view() == self.tasks_view().insert(
                    task_id,
                    TaskView { completed_at: Some(ctx.now), ..t },
                )
            }),
        }
    }

    /// What `delete_task` does to the ledger and returns.
    pub open spec fn delete_effect(
        &self,
        after: Platform,
        ctx: &Context,
        task_id: u64,
        r: Result<Transfer, PlatformError>,
    ) -> bool {
        match self.delete_refusal(ctx, task_id) {
            Some(e) => r matches Err(e2) && e2 == e && after.same_state(self),
            None => ({
                let t = self.tasks_view()[task_id];
                &&& r matches Ok(tr) && tr.receiver@ == t.author && tr.amount == t.reward
                &&& after.same_but_tasks(self)
                &&& after.tasks_view() == self.tasks_view().remove(task_id)
            }),
        }
    }

    /// A ledger with no tasks, no ratings, no fees and a fee of 1%.
    pub fn new() -> (r: Platform)
        ensures
            r.wf(),
            r.tasks_view() == Map::<u64, TaskView>::empty(),
            r.ratings_view() == Map::<Seq<char>, u8>::empty(),
            r.fee_percentage() == 1,
            r.fees() == 0,
            r.next_id() == 0,
    {
        let r = Platform {
            tasks: HashMap::new(),
            ratings: Ratings::new(),
            platform_fee_percentage: 1,
            total_fees: 0,
            tasks_index: 0,
        };
        assert(r.tasks_view() =~= Map::<u64, TaskView>::empty());
        r
    }

    /// The id the next task will get.
    pub fn next_task_id(&self) -> (r: u64)
        ensures
            r == self.next_id(),
    {
        self.tasks_index
    }

    /// The scores as (worker, score) entries, for storing.
    pub fn into_ratings(self) -> (r: Vec<(String, u8)>)
        ensures
            entries_view(r@) == self.ratings_view(),
    {
        self.ratings.into_entries()
    }

    /// Rebuilds a ledger from stored parts. Refused where the fee percentage
    /// is 100 or more, or the tasks do not carry distinct ids below
    /// `tasks_index`.
    pub fn restore(
        tasks: Vec<Task>,
        ratings: Vec<(String, u8)>,
        platform_fee_percentage: u8,
        total_fees: u128,
        tasks_index: u64,
    ) -> (r: Option<Platform>)
        ensures
            r is Some <==> platform_fee_percentage < 100 && stored_ids_valid(tasks@, tasks_index),
            r matches Some(p) ==> {
                &&& p.wf()
                &&& p.fee_percentage() == platform_fee_percentage
                &&& p.fees() == total_fees
                &&& p.next_id() == tasks_index
                &&& p.ratings_view() == entries_view(ratings@)
                &&& forall|id: u64| #[trigger]
                    p.tasks_view().contains_key(id) <==> exists|i: int|
                        0 <= i < tasks@.len() && tasks@[i].id == id
                &&& forall|i: int|
                    0 <= i < tasks@.len() ==> #[trigger] p.tasks_view()[tasks@[i].id]
                        == tasks@[i]@
            },
    {
        if platform_fee_percentage >= 100 {
            return None;
        }
        let ghost all = tasks@;
        let mut rest = tasks;
        assert(all == tasks@);
        let mut map: HashMap<u64, Task> = HashMap::new();
        while rest.len() > 0
            invariant
                all == tasks@,
                rest@.len() <= all.len(),
                rest@ == all.subrange(0, rest@.len() as int),
                forall|k: u64| #[trigger]
                    map@.contains_key(k) <==> exists|j: int|
                        rest@.len() <= j < all.len() && all[j].id == k,
                forall|k: u64| #[trigger]
                    map@.contains_key(k) ==> map@[k].id == k && k < tasks_index,
                forall|j: int|
                    rest@.len() <= j < all.len() ==> #[trigger] map@[all[j].id]@ == all[j]@,
                forall|j1: int, j2: int|
                    rest@.len() <= j1 < j2 < all.len() ==> all[j1].id != all[j2].id,
            decreases rest@.len(),
        {
            let t = rest.pop().unwrap();
            let ghost n = rest@.len() as int;
            assert(all[n] == t);
            if t.id >= tasks_index || map.contains_key(&t.id) {
                proof {
                    if t.id < tasks_index {
                        assert(map@.contains_key(t.id));
                        let j = choose|j: int| n < j < all.len() && all[j].id == t.id;
                        assert(all[n].id == all[j].id);
                    } else {
                        assert(all[n].id >= tasks_index);
                    }
                    assert(!stored_ids_valid(all, tasks_index));
                }
                return None;
            }
            let ghost before = map@;
            let id = t.id;
            map.insert(id, t);
            assert forall|j: int| n <= j < all.len() implies #[trigger] map@[all[j].id]@
                == all[j]@ by {
                if j > n {
                    assert(before.contains_key(all[j].id));
                }
            }
            assert forall|k: u64| #[trigger]
                map@.contains_key(k) implies exists|j: int| n <= j < all.len() && all[j].id == k by {
                if k != id {
                    assert(before.contains_key(k));
                }
            }
        }
        assert forall|i: int| 0 <= i < all.len() implies #[trigger] all[i].id < tasks_index by {
            assert(map@.contains_key(all[i].id));
        }
        let p = Platform {
            tasks: map,
            ratings: Ratings::from_entries(ratings),
            platform_fee_percentage,
            total_fees,
            tasks_index,
        };
        Some(p)
    }

    /// Stores `t` under its id in place of the task there.
    fn put(&mut self, t: Task)
        requires
            old(self).wf(),
            old(self).tasks@.contains_key(t.id),
        ensures
            final(self).wf(),
            final(self).same_but_tasks(old(self)),
            final(self).tasks_view() == old(self).tasks_view().insert(t.id, t@),
    {
        let ghost tv = t@;
        let id = t.id;
        self.tasks.insert(id, t);
        assert(self.tasks_view() =~= old(self).tasks_view().insert(id, tv));
    }

    /// Why `apply_for_task` refuses, if it does.
    pub open spec fn apply_refusal(&self, task_id: u64) -> Option<PlatformError> {
        if !self.tasks_view().contains_key(task_id) {
            Some(PlatformError::NotFound)
        } else if self.tasks_view()[task_id].assignee is Some {
            Some(PlatformError::InvalidState)
        } else if self.tasks_view()[task_id].task_type != fcfs()
            && self.tasks_view()[task_id].task_type != selected_by_author() {
            Some(PlatformError::InvalidInput)
        } else {
            None
        }
    }

    /// The caller applies for an unassigned task: on an `FCFS` task the caller
    /// becomes its assignee, on a `SelectedByAuthor` task one of its candidates.
    pub fn apply_for_task(&mut self, ctx: &Context, task_id: u64) -> (r: Result<(), PlatformError>)
        requires
            old(self).wf(),
        ensures
            final(self).wf(),
            old(self).apply_effect(*final(self), ctx, task_id, r),

    {
        let t = match self.tasks.get(&task_id) {
            Some(t) => t,
            None => return Err(PlatformError::NotFound),
        };
        if t.assignee.is_some() {
            return Err(PlatformError::InvalidState);
        }
        let mut updated = t.copy();
        if t.task_type == String::from_str("FCFS") {
            updated.assignee = Some(ctx.caller.clone());
        } else if t.task_type == String::from_str("SelectedByAuthor") {
            let ghost before = updated.candidates@;
            updated.candidates.push(ctx.caller.clone());
            assert(strings_view(updated.candidates@) =~= strings_view(before).push(ctx.caller@));
        } else {
            return Err(PlatformError::InvalidInput);
        }
        self.put(updated);
        Ok(())
    }

    /// Why `assign_task` refuses, if it does.
    pub open spec fn assign_refusal(
        &self,
        ctx: &Context,
        task_id: u64,
        candidate: Seq<char>,
    ) -> Option<PlatformError> {
        if !self.tasks_view().contains_key(task_id) {
            Some(PlatformError::NotFound)
        } else if ctx.caller@ != self.tasks_view()[task_id].author {
            Some(PlatformError::Unauthorized)
        } else if self.tasks_view()[task_id].assignee is Some {
            Some(PlatformError::InvalidState)
        } else if !self.tasks_view()[task_id].candidates.contains(candidate) {
            Some(PlatformError::InvalidInput)
        } else {
            None
        }
    }

    /// The author assigns an unassigned task to one of its candidates.
    pub fn assign_task(&mut self, ctx: &Context, task_id: u64, candidate_account: String) -> (r:
        Result<(), PlatformError>)
        requires
            old(self).wf(),
        ensures
            final(self).wf(),
            old(self).assign_effect(*final(self), ctx, task_id, candidate_account@, r),

    {
        let t = match self.tasks.get(&task_id) {
            Some(t) => t,
            None => return Err(PlatformError::NotFound),
        };
        if ctx.caller != t.author {
            return Err(PlatformError::Unauthorized);
        }
        if t.assignee.is_some() {
            return Err(PlatformError::InvalidState);
        }
        let mut applied = false;
        let mut i: usize = 0;
        while i < t.candidates.len()
            invariant
                i <= t.candidates@.len(),
                applied <==> exists|j: int| 0 <= j < i && t.candidates@[j]@ == candidate_account@,
            decreases t.candidates@.len() - i,
        {
            if t.candidates[i] == candidate_account {
                applied = true;
            }
            i = i + 1;
        }
        proof {
            let cs = strings_view(t.candidates@);
            if applied {
                let j = choose|j: int| 0 <= j < i && t.candidates@[j]@ == candidate_account@;
                assert(cs[j] == candidate_account@);
            } else {
                assert forall|j: int| 0 <= j < cs.len() implies cs[j] != candidate_account@ by {
                    assert(cs[j] == t.candidates@[j]@);
                }
            }
        }
        if !applied {
            return Err(PlatformError::InvalidInput);
        }
        let mut updated = t.copy();
        updated.assignee = Some(candidate_account);
        self.put(updated);
        Ok(())
    }

    /// Why `unassign_task` refuses, if it does.
    pub open spec fn unassign_refusal(&self, ctx: &Context, task_id: u64) -> Option<PlatformError> {
        if !self.tasks_view().contains_key(task_id) {
            Some(PlatformError::NotFound)
        } else if ctx.caller@ != self.tasks_view()[task_id].author {
            Some(PlatformError::Unauthorized)
        } else if self.tasks_view()[task_id].assignee is None {
            Some(PlatformError::InvalidState)
        } else {
            None
        }
    }

    /// The author takes an assigned task back from its assignee; candidates
    /// and any submitted result stay.
    pub fn unassign_task(&mut self, ctx: &Context, task_id: u64) -> (r: Result<(), PlatformError>)
        requires
            old(self).wf(),
        ensures
            final(self).wf(),
            old(self).unassign_effect(*final(self), ctx, task_id, r),

    {
        let t = match self.tasks.get(&task_id) {
            Some(t) => t,
            None => return Err(PlatformError::NotFound),
        };
        if ctx.caller != t.author {
            return Err(PlatformError::Unauthorized);
        }
        if t.assignee.is_none() {
            return Err(PlatformError::InvalidState);
        }
        let mut updated = t.copy();
        updated.assignee = None;
        self.put(updated);
        Ok(())
    }

    /// Why `submit_result` refuses, if it does.
    pub open spec fn submit_refusal(&self, ctx: &Context, task_id: u64, result: Seq<char>) -> Option<
        PlatformError,
    > {
        if !self.tasks_view().contains_key(task_id) {
            Some(PlatformError::NotFound)
        } else if self.tasks_view()[task_id].assignee != Some(ctx.caller@) {
            Some(PlatformError::Unauthorized)
        } else if self.tasks_view()[task_id].result is Some {
            Some(PlatformError::InvalidState)
        } else if result.len() == 0 {
            Some(PlatformError::InvalidInput)
        } else {
            None
        }
    }

    /// The assignee hands in the result of a task, once.
    pub fn submit_result(&mut self, ctx: &Context, task_id: u64, result: String) -> (r: Result<
        (),
        PlatformError,
    >)
        requires
            old(self).wf(),
        ensures
            final(self).wf(),
            old(self).submit_effect(*final(self), ctx, task_id, result@, r),

    {
        let t = match self.tasks.get(&task_id) {
            Some(t) => t,
            None => return Err(PlatformError::NotFound),
        };
        let is_assignee = match &t.assignee {
            Some(a) => *a == ctx.caller,
            None => false,
        };
        if !is_assignee {
            return Err(PlatformError::Unauthorized);
        }
        if t.result.is_some() {
            return Err(PlatformError::InvalidState);
        }
        if result.as_str().unicode_len() == 0 {
            return Err(PlatformError::InvalidInput);
        }
        let mut updated = t.copy();
        updated.result = Some(result);
        self.put(updated);
        Ok(())
    }

    /// Posts a task with `reward` escrowed; the caller is its author. The
    /// attached value must be the reward plus the platform fee.
    pub fn add_task(
        &mut self,
        ctx: &Context,
        title: String,
        description: String,
        task_type: String,
        reward: u128,
    ) -> (r: Result<u64, PlatformError>)
        requires
            old(self).wf(),
        ensures
            final(self).wf(),
            old(self).add_task_effect(
                *final(self),
                ctx,
                title@,
                description@,
                task_type@,
                reward,
                r,
            ),

    {
        if title.as_str().unicode_len() == 0 || description.as_str().unicode_len() == 0
            || reward <= STORAGE_COST {
            return Err(PlatformError::InvalidInput);
        }
        let hundreds = reward / 100;
        assert(hundreds * (self.platform_fee_percentage as u128) <= hundreds * 100)
            by (nonlinear_arith)
            requires
                self.platform_fee_percentage < 100,
        ;
        let platform_fee = hundreds * (self.platform_fee_percentage as u128);
        if reward > u128::MAX - platform_fee || reward + platform_fee != ctx.deposit {
            return Err(PlatformError::PaymentMismatch);
        }
        if self.tasks_index == u64::MAX || self.total_fees > u128::MAX - platform_fee {
            return Err(PlatformError::InvalidState);
        }
        let id = self.tasks_index;
        let new_task = Task {
            id: id,
            title: title,
            description: description,
            task_type: task_type,
            author: ctx.caller.clone(),
            assignee: None,
            candidates: Vec::new(),
            created_at: ctx.now,
            completed_at: None,
            reward: reward,
            result: None,
        };
        let ghost tv = new_task@;
        assert(tv.candidates =~= Seq::<Seq<char>>::empty());
        self.tasks.insert(id, new_task);
        self.tasks_index = id + 1;
        self.total_fees = self.total_fees + platform_fee;
        assert(self.tasks_view() =~= old(self).tasks_view().insert(id, tv));
        Ok(id)
    }

    /// Why `complete_task` refuses, if it does.
    pub open spec fn complete_refusal(&self, ctx: &Context, task_id: u64, rating: u8) -> Option<
        PlatformError,
    > {
        if !self.tasks_view().contains_key(task_id) {
            Some(PlatformError::NotFound)
        } else if ctx.caller@ != self.tasks_view()[task_id].author {
            Some(PlatformError::Unauthorized)
        } else if self.tasks_view()[task_id].result is None {
            Some(PlatformError::InvalidState)
        } else if self.tasks_view()[task_id].completed_at is Some {
            Some(PlatformError::InvalidState)
        } else if rating > 5 {
            Some(PlatformError::InvalidInput)
        } else if self.tasks_view()[task_id].assignee is None {
            Some(PlatformError::InvalidState)
        } else {
            None
        }
    }

    /// The author accepts the submitted result: the task is marked complete,
    /// the assignee's score takes in `rating`, and the reward is paid to the
    /// assignee.
    pub fn complete_task(&mut self, ctx: &Context, task_id: u64, rating: u8) -> (r: Result<
        Transfer,
        PlatformError,
    >)
        requires
            old(self).wf(),
        ensures
            final(self).wf(),
            old(self).complete_effect(*final(self), ctx, task_id, rating, r),

    {
        let t = match self.tasks.get(&task_id) {
            Some(t) => t,
            None => return Err(PlatformError::NotFound),
        };
        if ctx.caller != t.author {
            return Err(PlatformError::Unauthorized);
        }
        if t.result.is_none() || t.completed_at.is_some() {
            return Err(PlatformError::InvalidState);
        }
        if rating > 5 {
            return Err(PlatformError::InvalidInput);
        }
        let worker = match &t.assignee {
            Some(a) => a.clone(),
            None => return Err(PlatformError::InvalidState),
        };
        let reward = t.reward;
        let mut updated = t.copy();
        updated.completed_at = Some(ctx.now);
        self.put(updated);
        let new_rating = calculate_rating(self.ratings.get(&worker), rating);
        self.ratings.set(worker.clone(), new_rating);
        Ok(Transfer { receiver: worker, amount: reward })
    }

    /// Why `delete_task` refuses, if it does.
    pub open spec fn delete_refusal(&self, ctx: &Context, task_id: u64) -> Option<PlatformError> {
        if !self.tasks_view().contains_key(task_id) {
            Some(PlatformError::NotFound)
        } else if ctx.caller@ != self.tasks_view()[task_id].author {
            Some(PlatformError::Unauthorized)
        } else if self.tasks_view()[task_id].assignee is Some {
            Some(PlatformError::InvalidState)
        } else {
            None
        }
    }

    /// The author withdraws an unassigned task; its reward goes back to the
    /// author. The id is not given out again.
    pub fn delete_task(&mut self, ctx: &Context, task_id: u64) -> (r: Result<Transfer, PlatformError>)
        requires
            old(self).wf(),
        ensures
            final(self).wf(),
            old(self).delete_effect(*final(self), ctx, task_id, r),

    {
        let t = match self.tasks.get(&task_id) {
            Some(t) => t,
            None => return Err(PlatformError::NotFound),
        };
        if ctx.caller != t.author {
            return Err(PlatformError::Unauthorized);
        }
        if t.assignee.is_some() {
            return Err(PlatformError::InvalidState);
        }
        let refund = Transfer { receiver: t.author.clone(), amount: t.reward };
        self.tasks.remove(&task_id);
        assert(self.tasks_view() =~= old(self).tasks_view().remove(task_id));
        Ok(refund)
    }

    /// The administrator sets the fee percentage for tasks posted from now on.
    pub fn set_platform_fee_percentage(&mut self, ctx: &Context, fee: u8) -> (r: Result<
        (),
        PlatformError,
    >)
        requires
            old(self).wf(),
        ensures
            final(self).wf(),
            ctx.caller@ != ctx.admin@ ==> r == Err::<(), PlatformError>(PlatformError::Unauthorized),
            ctx.caller@ == ctx.admin@ && fee >= 100 ==> r == Err::<(), PlatformError>(
                PlatformError::InvalidInput,
            ),
            ctx.caller@ == ctx.admin@ && fee < 100 ==> r is Ok,
            r is Err ==> final(self).same_state(old(self)),
            r is Ok ==> {
                &&& ctx.caller@ == ctx.admin@ && fee < 100
                &&& final(self).fee_percentage() == fee
                &&& final(self).tasks_view() == old(self).tasks_view()
                &&& final(self).ratings_view() == old(self).ratings_view()
                &&& final(self).fees() == old(self).fees()
                &&& final(self).next_id() == old(self).next_id()
            },
    {
        if ctx.caller != ctx.admin {
            return Err(PlatformError::Unauthorized);
        }
        if fee >= 100 {
            return Err(PlatformError::InvalidInput);
        }
        self.platform_fee_percentage = fee;
        Ok(())
    }

    /// The administrator withdraws the collected fees above `STORAGE_COST`
    /// to `receiver`; `STORAGE_COST` stays behind.
    pub fn withdraw_fees(&mut self, ctx: &Context, receiver: String) -> (r: Result<
        Transfer,
        PlatformError,
    >)
        requires
            old(self).wf(),
        ensures
            final(self).wf(),
            ctx.caller@ != ctx.admin@ ==> (r matches Err(e) && e == PlatformError::Unauthorized),
            ctx.caller@ == ctx.admin@ && old(self).fees() <= STORAGE_COST ==> (r matches Err(e) && e
                == PlatformError::InvalidState),
            ctx.caller@ == ctx.admin@ && old(self).fees() > STORAGE_COST ==> r is Ok,
            r is Err ==> final(self).same_state(old(self)),
            r matches Ok(tr) ==> {
                &&& ctx.caller@ == ctx.admin@ && old(self).fees() > STORAGE_COST
                &&& tr.receiver@ == receiver@
                &&& tr.amount == old(self).fees() - STORAGE_COST
                &&& final(self).fees() == STORAGE_COST
                &&& final(self).tasks_view() == old(self).tasks_view()
                &&& final(self).ratings_view() == old(self).ratings_view()
                &&& final(self).fee_percentage() == old(self).fee_percentage()
                &&& final(self).next_id() == old(self).next_id()
            },
    {
        if ctx.caller != ctx.admin {
            return Err(PlatformError::Unauthorized);
        }
        if self.total_fees <= STORAGE_COST {
            return Err(PlatformError::InvalidState);
        }
        let amount = self.total_fees - STORAGE_COST;
        self.total_fees = self.total_fees - amount;
        Ok(Transfer { receiver: receiver, amount: amount })
    }

    /// All tasks with their ids, in order of id.
    pub fn get_tasks(&self) -> (r: Vec<(u64, Task)>)
        requires
            self.wf(),
        ensures
            forall|i: int| #![trigger r@[i]]
                0 <= i < r@.len() ==> self.tasks_view().contains_key(r@[i].0) && r@[i].1@
                    == self.tasks_view()[r@[i].0],
            forall|i: int, j: int| 0 <= i < j < r@.len() ==> r@[i].0 < r@[j].0,
            forall|id: u64| #[trigger]
                self.tasks_view().contains_key(id) ==> exists|i: int|
                    0 <= i < r@.len() && r@[i].0 == id,
    {
        let mut r: Vec<(u64, Task)> = Vec::new();
        let mut id: u64 = 0;
        while id < self.tasks_index
            invariant
                self.wf(),
                id <= self.tasks_index,
                forall|i: int| #![trigger r@[i]]
                    0 <= i < r@.len() ==> r@[i].0 < id && self.tasks_view().contains_key(r@[i].0)
                        && r@[i].1@ == self.tasks_view()[r@[i].0],
                forall|i: int, j: int| 0 <= i < j < r@.len() ==> r@[i].0 < r@[j].0,
                forall|k: u64| #[trigger]
                    self.tasks_view().contains_key(k) && k < id ==> exists|i: int|
                        0 <= i < r@.len() && r@[i].0 == k,
            decreases self.tasks_index - id,
        {
            let ghost before = r@;
            match self.tasks.get(&id) {
                Some(t) => {
                    r.push((id, t.copy()));
                },
                None => {},
            }
            proof {
                assert forall|k: u64| #[trigger]
                    self.tasks_view().contains_key(k) && k < id + 1 implies exists|i: int|
                        0 <= i < r@.len() && r@[i].0 == k by {
                    if k < id {
                        let i = choose|i: int| 0 <= i < before.len() && before[i].0 == k;
                        assert(r@[i] == before[i]);
                    } else {
                        assert(r@[r@.len() - 1].0 == k);
                    }
                }
            }
            id = id + 1;
        }
        r
    }

    /// The task with the given id.
    pub fn get_task(&self, task_id: u64) -> (r: Result<Task, PlatformError>)
        ensures
            self.tasks_view().contains_key(task_id) ==> (r matches Ok(t) && t@
                == self.tasks_view()[task_id]),
            !self.tasks_view().contains_key(task_id) ==> (r matches Err(e) && e
                == PlatformError::NotFound),
    {
        match self.tasks.get(&task_id) {
            Some(t) => Ok(t.copy()),
            None => Err(PlatformError::NotFound),
        }
    }

    /// The percentage taken as fee on new tasks.
    pub fn get_platform_fee_percentage(&self) -> (r: u8)
        ensures
            r == self.fee_percentage(),
    {
        self.platform_fee_percentage
    }

    /// The fees collected and not yet withdrawn.
    pub fn total_fees(&self) -> (r: u128)
        ensures
            r == self.fees(),
    {
        self.total_fees
    }

    /// The score of `account_id`, 0 where it was never rated.
    pub fn get_rating(&self, account_id: String) -> (r: u8)
        ensures
            r == score_of(self.ratings_view(), account_id@),
    {
        self.ratings.get(&account_id)
    }
}

impl Default for Platform {
    fn default() -> (r: Platform)
        ensures
            r.wf(),
            r.tasks_view() == Map::<u64, TaskView>::empty(),
            r.ratings_view() == Map::<Seq<char>, u8>::empty(),
            r.fee_percentage() == 1,
            r.fees() == 0,
            r.next_id() == 0,
    {
        Platform::new()
    }
}

} // verus!
