//! The high-score table: one score per name, and no name twice.

use vstd::prelude::*;

verus! {

/// A score was offered under a name that the table already holds.
#[derive(Clone, Copy, Debug, PartialEq, Eq, Structural)]
pub struct DuplicateNameError;

/// Names with their scores, in the order they were recorded.
pub struct Scores {
    pub entries: Vec<(String, u16)>,
}

impl Scores {
    /// No name occurs twice.
    pub open spec fn wf(self) -> bool {
        forall|i: int, j: int|
            0 <= i < j < self.entries@.len()
                ==> (#[trigger] self.entries@[i]).0@ != (#[trigger] self.entries@[j]).0@
    }

    /// Whether the table holds a score under `name`.
    pub open spec fn has(self, name: Seq<char>) -> bool {
        exists|i: int| 0 <= i < self.entries@.len() && (#[trigger] self.entries@[i]).0@ == name
    }

    /// The score recorded under `name`, for a name that the table holds.
    pub open spec fn score_of(self, name: Seq<char>) -> u16 {
        let i = choose|i: int|
            0 <= i < self.entries@.len() && (#[trigger] self.entries@[i]).0@ == name;
        self.entries@[i].1
    }

    /// The table as a map from names to scores.
    pub open spec fn view(self) -> Map<Seq<char>, u16> {
        Map::new(|name: Seq<char>| self.has(name), |name: Seq<char>| self.score_of(name))
    }

    /// An empty table.
    pub fn new() -> (table: Scores)
        ensures
            table.wf(),
            table@ == Map::<Seq<char>, u16>::empty(),
    {
        let table = Scores { entries: Vec::new() };
        assert(table@ =~= Map::<Seq<char>, u16>::empty());
        table
    }

    /// Position of the entry under `name`, if the table holds one.
    fn find(&self, name: &str) -> (at: Option<usize>)
        ensures
            match at {
                Some(i) => i < self.entries@.len() && self.entries@[i as int].0@ == name@,
                None => !self.has(name@),
            },
    {
        let wanted: String = name.to_owned();
        let mut i: usize = 0;
        while i < self.entries.len()
            invariant
                i <= self.entries@.len(),
                wanted@ == name@,
                forall|k: int| 0 <= k < i ==> (#[trigger] self.entries@[k]).0@ != name@,
            decreases self.entries@.len() - i,
        {
            if self.entries[i].0 == wanted {
                return Some(i);
            }
            i += 1;
        }
        None
    }

    /// The score recorded under `name`.
    pub fn score_for(&self, name: &str) -> (score: Option<u16>)
        requires
            self.wf(),
        ensures
            score == if self@.contains_key(name@) { Some(self@[name@]) } else { None::<u16> },
    {
        match self.find(name) {
            Some(i) => {
                proof {
                    let k = choose|k: int|
                        0 <= k < self.entries@.len() && (#[trigger] self.entries@[k]).0@ == name@;
                    assert(k == i);
                }
                Some(self.entries[i].1)
            },
            None => None,
        }
    }

    /// Records `score` under `name`. A name that the table already holds
    /// is rejected and its score stays as it was.
    pub fn new_score(&mut self, name: &str, score: u16) -> (done: Result<(), DuplicateNameError>)
        requires
            old(self).wf(),
        ensures
            final(self).wf(),
            done is Err <==> old(self)@.contains_key(name@),
            done is Err ==> final(self).entries@ == old(self).entries@,
            done is Err ==> final(self)@ == old(self)@,
            done is Ok ==> final(self)@ == old(self)@.insert(name@, score),
            done is Ok ==> {
                &&& final(self).entries@.len() == old(self).entries@.len() + 1
                &&& final(self).entries@.drop_last() == old(self).entries@
                &&& final(self).entries@.last().0@ == name@
                &&& final(self).entries@.last().1 == score
            },
    {
        match self.find(name) {
            Some(_) => Err(DuplicateNameError),
            None => {
                self.entries.push((name.to_owned(), score));
                proof {
                    let pre = *old(self);
                    let post = *self;
                    let n = pre.entries@.len() as int;
                    assert(post.entries@[n].0@ == name@);
                    assert(forall|i: int| 0 <= i < n ==> post.entries@[i] == pre.entries@[i]);
                    assert forall|key: Seq<char>|
                        post.has(key) <==> (pre.has(key) || key == name@) by {
                        if pre.has(key) {
                            let i = choose|i: int|
                                0 <= i < n && (#[trigger] pre.entries@[i]).0@ == key;
                            assert(post.entries@[i].0@ == key);
                        }
                        if post.has(key) && key != name@ {
                            let i = choose|i: int|
                                0 <= i < n + 1 && (#[trigger] post.entries@[i]).0@ == key;
                            assert(pre.entries@[i].0@ == key);
                        }
                    }
                    assert forall|key: Seq<char>| post.has(key) implies post.score_of(key)
                        == (if key == name@ { score } else { pre.score_of(key) }) by {
                        let i = choose|i: int|
                            0 <= i < n + 1 && (#[trigger] post.entries@[i]).0@ == key;
                        if key == name@ {
                            assert(i == n);
                        } else {
                            assert(pre.entries@[i].0@ == key);
                            let k = choose|k: int|
                                0 <= k < n && (#[trigger] pre.entries@[k]).0@ == key;
                            assert(k == i);
                        }
                    }
                    assert(post@ =~= pre@.insert(name@, score));
                    assert(post.entries@.drop_last() =~= pre.entries@);
                }
                Ok(())
            },
        }
    }
}

} // verus!
