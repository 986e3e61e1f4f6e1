//! The task record.

use vstd::prelude::*;

verus! {

/// One posted task.
pub struct Task {
    pub id: u64,
    pub title: String,
    pub description: String,
    /// `FCFS` (the first applicant is assigned) or `SelectedByAuthor`
    /// (applicants become candidates and the author picks one).
    pub task_type: String,
    pub author: String,
    pub assignee: Option<String>,
    pub candidates: Vec<String>,
    pub created_at: u64,
    pub completed_at: Option<u64>,
    pub reward: u128,
    pub result: Option<String>,
}

/// A task as plain values.
pub struct TaskView {
    pub id: u64,
    pub title: Seq<char>,
    pub description: Seq<char>,
    pub task_type: Seq<char>,
    pub author: Seq<char>,
    pub assignee: Option<Seq<char>>,
    pub candidates: Seq<Seq<char>>,
    pub created_at: u64,
    pub completed_at: Option<u64>,
    pub reward: u128,
    pub result: Option<Seq<char>>,
}

/// The text held by an optional string.
pub open spec fn opt_view(o: Option<String>) -> Option<Seq<char>> {
    match o {
        Some(s) => Some(s@),
        None => None,
    }
}

/// The texts of a list of strings.
pub open spec fn strings_view(v: Seq<String>) -> Seq<Seq<char>> {
    v.map_values(|s: String| s@)
}

impl View for Task {
    type V = TaskView;

    open spec fn view(&self) -> TaskView {
        TaskView {
            id: self.id,
            title: self.title@,
            description: self.description@,
            task_type: self.task_type@,
            author: self.author@,
            assignee: opt_view(self.assignee),
            candidates: strings_view(self.candidates@),
            created_at: self.created_at,
            completed_at: self.completed_at,
            reward: self.reward,
            result: opt_view(self.result),
        }
    }
}

/// A copy of an optional string.
pub fn copy_opt(o: &Option<String>) -> (r: Option<String>)
    ensures
        opt_view(r) == opt_view(*o),
{
    match o {
        Some(s) => Some(s.clone()),
        None => None,
    }
}

/// A copy of a list of strings.
pub fn copy_strings(v: &Vec<String>) -> (r: Vec<String>)
    ensures
        strings_view(r@) == strings_view(v@),
{
    let mut r: Vec<String> = Vec::new();
    let mut i: usize = 0;
    while i < v.len()
        invariant
            i <= v@.len(),
            r@.len() == i,
            forall|j: int| 0 <= j < i ==> r@[j]@ == v@[j]@,
        decreases v@.len() - i,
    {
        r.push(v[i].clone());
        i = i + 1;
    }
    assert(strings_view(r@) =~= strings_view(v@));
    r
}

impl Task {
    /// A copy of the task.
    pub fn copy(&self) -> (r: Task)
        ensures
            r@ == self@,
    {
        Task {
            id: self.id,
            title: self.title.clone(),
            description: self.description.clone(),
            task_type: self.task_type.clone(),
            author: self.author.clone(),
            assignee: copy_opt(&self.assignee),
            candidates: copy_strings(&self.candidates),
            created_at: self.created_at,
            completed_at: self.completed_at,
            reward: self.reward,
            result: copy_opt(&self.result),
        }
    }
}

} // verus!
