//! Reputation scores of workers.

use vstd::prelude::*;

verus! {

/// The score of a worker after a new rating: a first rating (no score yet,
/// which reads as 0) is taken as it is, a later one is averaged with the
/// previous score, rounding down.
pub open spec fn rating_after(prev: u8, new_rating: u8) -> u8 {
    if prev == 0 {
        new_rating
    } else {
        ((prev as int + new_rating as int) / 2) as u8
    }
}

/// Combines the previous score of a worker with a new rating.
pub fn calculate_rating(prev_rating: u8, new_rating: u8) -> (r: u8)
    ensures
        r == rating_after(prev_rating, new_rating),
{
    if prev_rating == 0 {
        return new_rating;
    }
    ((prev_rating as u16 + new_rating as u16) / 2) as u8
}

/// What a sequence of (worker, score) entries records: a later entry for a
/// worker overrides an earlier one.
pub open spec fn entries_view(s: Seq<(String, u8)>) -> Map<Seq<char>, u8>
    decreases s.len(),
{
    if s.len() == 0 {
        Map::empty()
    } else {
        entries_view(s.drop_last()).insert(s.last().0@, s.last().1)
    }
}

/// Index `i` holds the last entry for `who`.
pub open spec fn is_last_entry(s: Seq<(String, u8)>, i: int, who: Seq<char>) -> bool {
    &&& 0 <= i < s.len()
    &&& s[i].0@ == who
    &&& forall|j: int| i < j < s.len() ==> s[j].0@ != who
}

proof fn lemma_last_entry_recorded(s: Seq<(String, u8)>, i: int, who: Seq<char>)
    requires
        is_last_entry(s, i, who),
    ensures
        entries_view(s).contains_key(who),
        entries_view(s)[who] == s[i].1,
    decreases s.len(),
{
    if i < s.len() - 1 {
        assert(s.last().0@ != who);
        lemma_last_entry_recorded(s.drop_last(), i, who);
    }
}

proof fn lemma_absent_not_recorded(s: Seq<(String, u8)>, who: Seq<char>)
    requires
        forall|j: int| 0 <= j < s.len() ==> s[j].0@ != who,
    ensures
        !entries_view(s).contains_key(who),
    decreases s.len(),
{
    if s.len() > 0 {
        assert(s.last().0@ != who);
        lemma_absent_not_recorded(s.drop_last(), who);
    }
}

proof fn lemma_update_last_entry(s: Seq<(String, u8)>, i: int, e: (String, u8))
    requires
        is_last_entry(s, i, e.0@),
    ensures
        entries_view(s.update(i, e)) == entries_view(s).insert(e.0@, e.1),
    decreases s.len(),
{
    let t = s.update(i, e);
    if i == s.len() - 1 {
        assert(t.drop_last() =~= s.drop_last());
        assert(entries_view(t) =~= entries_view(s).insert(e.0@, e.1));
    } else {
        assert(t.drop_last() =~= s.drop_last().update(i, e));
        assert(s.last().0@ != e.0@);
        lemma_update_last_entry(s.drop_last(), i, e);
        assert(entries_view(t) =~= entries_view(s).insert(e.0@, e.1));
    }
}

/// The current score of each worker who has been rated.
pub struct Ratings {
    entries: Vec<(String, u8)>,
}

impl View for Ratings {
    type V = Map<Seq<char>, u8>;

    closed spec fn view(&self) -> Map<Seq<char>, u8> {
        entries_view(self.entries@)
    }
}

/// The score of `who` in `m`, 0 where `who` was never rated.
pub open spec fn score_of(m: Map<Seq<char>, u8>, who: Seq<char>) -> u8 {
    if m.contains_key(who) {
        m[who]
    } else {
        0
    }
}

impl Ratings {
    /// No worker rated.
    pub fn new() -> (r: Ratings)
        ensures
            r@ == Map::<Seq<char>, u8>::empty(),
    {
        Ratings { entries: Vec::new() }
    }

    fn find_last(&self, who: &String) -> (r: Option<usize>)
        ensures
            match r {
                Some(i) => is_last_entry(self.entries@, i as int, who@),
                None => forall|j: int| 0 <= j < self.entries@.len() ==> self.entries@[j].0@ != who@,
            },
    {
        let mut i: usize = self.entries.len();
        while i > 0
            invariant
                i <= self.entries@.len(),
                forall|j: int| i <= j < self.entries@.len() ==> self.entries@[j].0@ != who@,
            decreases i,
        {
            i = i - 1;
            if self.entries[i].0 == *who {
                return Some(i);
            }
        }
        None
    }

    /// Scores taken from stored (worker, score) entries, a later entry for a
    /// worker overriding an earlier one.
    pub fn from_entries(entries: Vec<(String, u8)>) -> (r: Ratings)
        ensures
            r@ == entries_view(entries@),
    {
        Ratings { entries }
    }

    /// The scores as (worker, score) entries, for storing.
    pub fn into_entries(self) -> (r: Vec<(String, u8)>)
        ensures
            entries_view(r@) == self@,
    {
        self.entries
    }

    /// The score of `who`, 0 where `who` was never rated.
    pub fn get(&self, who: &String) -> (r: u8)
        ensures
            r == score_of(self@, who@),
    {
        match self.find_last(who) {
            Some(i) => {
                proof {
                    lemma_last_entry_recorded(self.entries@, i as int, who@);
                }
                self.entries[i].1
            },
            None => {
                proof {
                    lemma_absent_not_recorded(self.entries@, who@);
                }
                0
            },
        }
    }

    /// Records `score` as the score of `who`.
    pub fn set(&mut self, who: String, score: u8)
        ensures
            final(self)@ == old(self)@.insert(who@, score),
    {
        match self.find_last(&who) {
            Some(i) => {
                proof {
                    lemma_update_last_entry(self.entries@, i as int, (who, score));
                }
                self.entries.set(i, (who, score));
            },
            None => {
                let ghost before = self.entries@;
                self.entries.push((who, score));
                proof {
                    assert(self.entries@.drop_last() =~= before);
                }
            },
        }
    }
}

} // verus!
