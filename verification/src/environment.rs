//! The name table: one flat mapping from identifiers to their values.
use vstd::prelude::*;
use crate::value::{MplValue, ValueView};

verus! {

/// The name table of one run. Each name stands once in `names`, with its
/// value at the same index of `values`.
pub struct Environment {
    names: Vec<String>,
    values: Vec<MplValue>,
    bindings: Ghost<Map<Seq<char>, ValueView>>,
}

impl View for Environment {
    type V = Map<Seq<char>, ValueView>;

    closed spec fn view(&self) -> Map<Seq<char>, ValueView> {
        self.bindings@
    }
}

impl Environment {
    /// The table holds each bound name once, and nothing else.
    pub closed spec fn wf(&self) -> bool {
        &&& self.names@.len() == self.values@.len()
        &&& forall|i: int|
            0 <= i < self.names@.len() ==> self.bindings@.contains_key(#[trigger] self.names@[i]@)
                && self.bindings@[self.names@[i]@] == self.values@[i]@
        &&& forall|i: int, j: int|
            0 <= i < j < self.names@.len() ==> #[trigger] self.names@[i]@ != #[trigger] self.names@[j]@
        &&& forall|name: Seq<char>| #[trigger]
            self.bindings@.contains_key(name) ==> exists|i: int|
                0 <= i < self.names@.len() && #[trigger] self.names@[i]@ == name
    }

    /// The empty table.
    pub fn new() -> (table: Environment)
        ensures
            table.wf(),
            table@ == Map::<Seq<char>, ValueView>::empty(),
    {
        Environment { names: Vec::new(), values: Vec::new(), bindings: Ghost(Map::empty()) }
    }

    /// Where `name` stands in the table.
    fn find(&self, name: &String) -> (index: Option<usize>)
        requires
            self.wf(),
        ensures
            match index {
                Some(i) => i < self.names@.len() && self.names@[i as int]@ == name@,
                None => !self@.contains_key(name@),
            },
    {
        let mut i: usize = 0;
        while i < self.names.len()
            invariant
                self.wf(),
                i <= self.names@.len(),
                forall|j: int| 0 <= j < i ==> self.names@[j]@ != name@,
            decreases self.names@.len() - i,
        {
            if self.names[i] == *name {
                return Some(i);
            }
            i += 1;
        }
        None
    }

    /// The value bound to `name`, if there is one.
    pub fn get(&self, name: &String) -> (value: Option<MplValue>)
        requires
            self.wf(),
        ensures
            match value {
                Some(v) => self@.contains_key(name@) && v@ == self@[name@],
                None => !self@.contains_key(name@),
            },
    {
        match self.find(name) {
            Some(i) => Some(self.values[i].clone()),
            None => None,
        }
    }

    /// Binds `name` to `value`, in place of what it was bound to.
    pub fn set(&mut self, name: &String, value: MplValue)
        requires
            old(self).wf(),
        ensures
            final(self).wf(),
            final(self)@ == old(self)@.insert(name@, value@),
    {
        match self.find(name) {
            Some(i) => {
                self.values.set(i, value);
                self.bindings = Ghost(self.bindings@.insert(name@, value@));
                assert forall|k: Seq<char>| #[trigger]
                    self.bindings@.contains_key(k) implies exists|j: int|
                    0 <= j < self.names@.len() && #[trigger] self.names@[j]@ == k by {
                    if k == name@ {
                        assert(self.names@[i as int]@ == k);
                    } else {
                        assert(old(self).bindings@.contains_key(k));
                        let j = choose|j: int|
                            0 <= j < old(self).names@.len() && #[trigger] old(self).names@[j]@ == k;
                        assert(self.names@[j]@ == k);
                    }
                }
            },
            None => {
                self.names.push(name.clone());
                self.values.push(value);
                self.bindings = Ghost(self.bindings@.insert(name@, value@));
                assert forall|k: Seq<char>| #[trigger]
                    self.bindings@.contains_key(k) implies exists|j: int|
                    0 <= j < self.names@.len() && #[trigger] self.names@[j]@ == k by {
                    if k == name@ {
                        assert(self.names@[self.names@.len() - 1]@ == k);
                    } else {
                        assert(old(self).bindings@.contains_key(k));
                        let j = choose|j: int|
                            0 <= j < old(self).names@.len() && #[trigger] old(self).names@[j]@ == k;
                        assert(self.names@[j]@ == k);
                    }
                }
            },
        }
    }
}

} // verus!
