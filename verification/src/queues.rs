use std::collections::VecDeque;
use vstd::prelude::*;

verus! {

/// First-in first-out queues kept per name.
///
/// A name is present exactly when its queue holds at least one item: the
/// queue of a name is dropped as soon as its last item is taken.
pub struct NamedQueues<T> {
    entries: Vec<(String, VecDeque<T>)>,
    contents: Ghost<Map<Seq<char>, Seq<T>>>,
}

impl<T> NamedQueues<T> {
    /// The queues by name.
    pub closed spec fn view(&self) -> Map<Seq<char>, Seq<T>> {
        self.contents@
    }

    /// Names are distinct, every stored queue is non-empty, and the ghost map
    /// records exactly the stored queues.
    pub closed spec fn wf(&self) -> bool {
        &&& forall|i: int, j: int|
            0 <= i < j < self.entries@.len() ==> #[trigger] self.entries@[i].0@
                != #[trigger] self.entries@[j].0@
        &&& forall|i: int|
            0 <= i < self.entries@.len() ==> {
                &&& self.contents@.contains_key(#[trigger] self.entries@[i].0@)
                &&& self.contents@[self.entries@[i].0@] == self.entries@[i].1@
                &&& self.entries@[i].1@.len() > 0
            }
        &&& forall|k: Seq<char>|
            #[trigger] self.contents@.contains_key(k) ==> exists|i: int|
                0 <= i < self.entries@.len() && #[trigger] self.entries@[i].0@ == k
    }

    /// No queue held under any name.
    pub fn new() -> (res: Self)
        ensures
            res.wf(),
            res.view() == Map::<Seq<char>, Seq<T>>::empty(),
    {
        NamedQueues { entries: Vec::new(), contents: Ghost(Map::empty()) }
    }

    fn find(&self, key: &String) -> (res: Option<usize>)
        requires
            self.wf(),
        ensures
            match res {
                Some(i) => i < self.entries@.len() && self.entries@[i as int].0@ == key@,
                None => !self.view().contains_key(key@),
            },
    {
        let mut i: usize = 0;
        while i < self.entries.len()
            invariant
                self.wf(),
                i <= self.entries@.len(),
                forall|j: int| 0 <= j < i ==> self.entries@[j].0@ != key@,
            decreases self.entries@.len() - i,
        {
            if self.entries[i].0 == *key {
                return Some(i);
            }
            i = i + 1;
        }
        None
    }

    /// Whether a queue is held under `key`.
    pub fn contains_key(&self, key: &String) -> (res: bool)
        requires
            self.wf(),
        ensures
            res == self.view().contains_key(key@),
    {
        self.find(key).is_some()
    }

    /// The front item of the queue of `key`, if any.
    pub fn front(&self, key: &String) -> (res: Option<&T>)
        requires
            self.wf(),
        ensures
            self.view().contains_key(key@) ==> res == Some(&self.view()[key@][0]),
            !self.view().contains_key(key@) ==> res is None,
    {
        match self.find(key) {
            Some(i) => Some(&self.entries[i].1[0]),
            None => None,
        }
    }

    /// Appends `value` at the back of the queue of `key`, creating it if needed.
    pub fn push_back(&mut self, key: String, value: T)
        requires
            old(self).wf(),
        ensures
            final(self).wf(),
            final(self).view() == old(self).view().insert(
                key@,
                queue_of(old(self).view(), key@).push(value),
            ),
    {
        let ghost old_contents = self.contents@;
        match self.find(&key) {
            Some(i) => {
                let ghost k = key@;
                self.entries[i].1.push_back(value);
                proof {
                    self.contents@ = old_contents.insert(k, old_contents[k].push(value));
                }
            },
            None => {
                let ghost k = key@;
                let mut q: VecDeque<T> = VecDeque::new();
                q.push_back(value);
                self.entries.push((key, q));
                proof {
                    self.contents@ = old_contents.insert(k, seq![value]);
                    assert(queue_of(old_contents, k) == Seq::<T>::empty());
                    assert(Seq::<T>::empty().push(value) == seq![value]);
                }
            },
        }
        proof {
            let n = self.entries@.len();
            assert forall|kk: Seq<char>| #[trigger] self.contents@.contains_key(kk) implies
                exists|i: int| 0 <= i < self.entries@.len() && #[trigger] self.entries@[i].0@ == kk
            by {
                if kk == key@ {
                    let j = if old_contents.contains_key(kk) {
                        choose|i: int| 0 <= i < self.entries@.len() && self.entries@[i].0@ == kk
                    } else {
                        n - 1
                    };
                    assert(self.entries@[j].0@ == kk);
                } else {
                    assert(old_contents.contains_key(kk));
                    let j = choose|i: int| 0 <= i < old(self).entries@.len() && old(self).entries@[i].0@ == kk;
                    assert(self.entries@[j].0@ == kk);
                }
            }
        }
    }

    /// Takes the front item of the queue of `key`; the name is dropped when
    /// its queue becomes empty.
    pub fn pop_front(&mut self, key: &String) -> (res: Option<T>)
        requires
            old(self).wf(),
        ensures
            final(self).wf(),
            old(self).view().contains_key(key@) ==> {
                let q = old(self).view()[key@];
                &&& res == Some(q[0])
                &&& final(self).view() == (if q.len() == 1 {
                    old(self).view().remove(key@)
                } else {
                    old(self).view().insert(key@, q.drop_first())
                })
            },
            !old(self).view().contains_key(key@) ==> res is None && final(self).view() == old(self).view(),
    {
        let ghost old_contents = self.contents@;
        match self.find(key) {
            None => None,
            Some(i) => {
                let ghost k = key@;
                let ghost q = self.entries@[i as int].1@;
                let front = self.entries[i].1.pop_front();
                if self.entries[i].1.len() == 0 {
                    let _ = self.entries.remove(i);
                    proof {
                        self.contents@ = old_contents.remove(k);
                        assert forall|kk: Seq<char>| #[trigger] self.contents@.contains_key(kk) implies
                            exists|j: int| 0 <= j < self.entries@.len() && #[trigger] self.entries@[j].0@ == kk
                        by {
                            let j = choose|j: int| 0 <= j < old(self).entries@.len() && old(self).entries@[j].0@ == kk;
                            if j < i {
                                assert(self.entries@[j].0@ == kk);
                            } else {
                                assert(self.entries@[j - 1].0@ == kk);
                            }
                        }
                    }
                } else {
                    proof {
                        self.contents@ = old_contents.insert(k, q.drop_first());
                        assert forall|kk: Seq<char>| #[trigger] self.contents@.contains_key(kk) implies
                            exists|j: int| 0 <= j < self.entries@.len() && #[trigger] self.entries@[j].0@ == kk
                        by {
                            let j = choose|j: int| 0 <= j < old(self).entries@.len() && old(self).entries@[j].0@ == kk;
                            assert(self.entries@[j].0@ == kk);
                        }
                    }
                }
                front
            },
        }
    }
}

/// The queue held under `key`, empty when there is none.
pub open spec fn queue_of<T>(m: Map<Seq<char>, Seq<T>>, key: Seq<char>) -> Seq<T> {
    if m.contains_key(key) {
        m[key]
    } else {
        Seq::empty()
    }
}

} // verus!
