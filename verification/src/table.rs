//! A finite map kept as a list of rows, one row to a key.
use crate::address::Address;
use vstd::prelude::*;

verus! {

/// What the key of a [`Table`] can do: tell whether it is another key.
pub trait TableKey: View + Sized {
    /// Whether the two keys are the same.
    fn same(&self, other: &Self) -> (r: bool)
        ensures
            r == (self@ == other@),
    ;
}

impl TableKey for Address {
    fn same(&self, other: &Address) -> (r: bool) {
        *self == *other
    }
}

impl TableKey for [u8; 32] {
    fn same(&self, other: &[u8; 32]) -> (r: bool) {
        let mut i: usize = 0;
        while i < 32
            invariant
                i <= 32,
                forall|j: int| 0 <= j < i ==> self@[j] == other@[j],
            decreases 32 - i,
        {
            if self[i] != other[i] {
                return false;
            }
            i += 1;
        }
        assert(self@ =~= other@);
        true
    }
}

/// A finite map from keys to plain values.
#[derive(Debug)]
pub struct Table<K, V> {
    rows: Vec<(K, V)>,
}

impl<K: TableKey, V: Copy> Table<K, V> {
    /// The rows, in the order they were added.
    pub closed spec fn rows(&self) -> Seq<(K, V)> {
        self.rows@
    }

    /// Whether row `i` is the row of `key`.
    pub open spec fn row_is(&self, i: int, key: K::V) -> bool {
        0 <= i < self.rows().len() && self.rows()[i].0@ == key
    }

    /// No key has two rows.
    pub open spec fn wf(&self) -> bool {
        forall|i: int, j: int|
            0 <= i < j < self.rows().len() ==> (#[trigger] self.rows()[i]).0@ != (
            #[trigger] self.rows()[j]).0@
    }

    /// The empty table.
    pub fn new() -> (r: Table<K, V>)
        ensures
            r.wf(),
            r@ == Map::<K::V, V>::empty(),
    {
        let r = Table { rows: Vec::new() };
        assert(r@ =~= Map::<K::V, V>::empty()) by {
            assert forall|key: K::V| !r@.dom().contains(key) by {
                if exists|i: int| r.row_is(i, key) {
                    let i = choose|i: int| r.row_is(i, key);
                }
            }
        }
        r
    }

    /// Relates the row of a key to the map the table stands for.
    proof fn lemma_row(&self, i: int)
        requires
            self.wf(),
            0 <= i < self.rows().len(),
        ensures
            self@.contains_key(self.rows()[i].0@),
            self@[self.rows()[i].0@] == self.rows()[i].1,
    {
        let key = self.rows()[i].0@;
        assert(self.row_is(i, key));
        let j = choose|j: int| self.row_is(j, key);
        assert(self.row_is(j, key));
        assert(i == j);
    }

    /// A map with the same rows is the map the table stands for.
    proof fn lemma_stands_for(&self, m: Map<K::V, V>)
        requires
            self.wf(),
            forall|i: int|
                0 <= i < self.rows().len() ==> m.contains_key((#[trigger] self.rows()[i]).0@)
                    && m[self.rows()[i].0@] == self.rows()[i].1,
            forall|key: K::V| #[trigger]
                m.contains_key(key) ==> exists|i: int| self.row_is(i, key),
        ensures
            self@ == m,
    {
        assert forall|key: K::V| #[trigger] self@.contains_key(key) implies m.contains_key(key)
            && self@[key] == m[key] by {
            let i = choose|i: int| self.row_is(i, key);
            assert(self.row_is(i, key));
            self.lemma_row(i);
        }
        assert(self@ =~= m);
    }

    fn find(&self, key: &K) -> (r: Option<usize>)
        requires
            self.wf(),
        ensures
            match r {
                Some(i) => self.row_is(i as int, key@) && self@.contains_key(key@)
                    && self@[key@] == self.rows()[i as int].1,
                None => !self@.contains_key(key@) && forall|i: int|
                    0 <= i < self.rows().len() ==> (#[trigger] self.rows()[i]).0@ != key@,
            },
    {
        let mut i: usize = 0;
        while i < self.rows.len()
            invariant
                self.wf(),
                i <= self.rows().len(),
                forall|j: int| 0 <= j < i ==> (#[trigger] self.rows()[j]).0@ != key@,
            decreases self.rows().len() - i,
        {
            if self.rows[i].0.same(key) {
                proof {
                    self.lemma_row(i as int);
                }
                return Some(i);
            }
            i += 1;
        }
        assert(!self@.contains_key(key@)) by {
            if exists|j: int| self.row_is(j, key@) {
                let j = choose|j: int| self.row_is(j, key@);
                assert(self.rows()[j].0@ == key@);
            }
        }
        None
    }

    /// The value under `key`, if there is one.
    pub fn get(&self, key: &K) -> (r: Option<V>)
        requires
            self.wf(),
        ensures
            match r {
                Some(v) => self@.contains_key(key@) && v == self@[key@],
                None => !self@.contains_key(key@),
            },
    {
        match self.find(key) {
            Some(i) => Some(self.rows[i].1),
            None => None,
        }
    }

    /// Puts `value` under `key`, in place of what was there.
    pub fn set(&mut self, key: K, value: V)
        requires
            old(self).wf(),
        ensures
            final(self).wf(),
            final(self)@ == old(self)@.insert(key@, value),
    {
        let ghost m = self@.insert(key@, value);
        let ghost before = *self;
        match self.find(&key) {
            Some(i) => {
                self.rows.set(i, (key, value));
                proof {
                    assert(self.rows() == before.rows().update(i as int, (key, value)));
                    assert forall|j: int| 0 <= j < self.rows().len() implies m.contains_key(
                        (#[trigger] self.rows()[j]).0@,
                    ) && m[self.rows()[j].0@] == self.rows()[j].1 by {
                        assert(before.rows()[i as int].0@ == key@);
                        before.lemma_row(j);
                    }
                    assert forall|k: K::V| #[trigger] m.contains_key(k) implies exists|j: int|
                        self.row_is(j, k) by {
                        let j = choose|j: int| before.row_is(j, k);
                        if k == key@ {
                            assert(self.row_is(i as int, k));
                        } else {
                            assert(before.row_is(j, k));
                            assert(self.row_is(j, k));
                        }
                    }
                }
            },
            None => {
                self.rows.push((key, value));
                proof {
                    let n = before.rows().len() as int;
                    assert(self.rows() == before.rows().push((key, value)));
                    assert forall|j: int| 0 <= j < self.rows().len() implies m.contains_key(
                        (#[trigger] self.rows()[j]).0@,
                    ) && m[self.rows()[j].0@] == self.rows()[j].1 by {
                        if j < n {
                            assert(self.rows()[j] == before.rows()[j]);
                            before.lemma_row(j);
                        }
                    }
                    assert forall|k: K::V| #[trigger] m.contains_key(k) implies exists|j: int|
                        self.row_is(j, k) by {
                        let j = choose|j: int| before.row_is(j, k);
                        if k == key@ {
                            assert(self.row_is(n, k));
                        } else {
                            assert(before.row_is(j, k));
                            assert(self.row_is(j, k));
                        }
                    }
                }
            },
        }
        proof {
            self.lemma_stands_for(m);
        }
    }

    /// Takes `key` out, if it is there.
    pub fn remove(&mut self, key: &K)
        requires
            old(self).wf(),
        ensures
            final(self).wf(),
            final(self)@ == old(self)@.remove(key@),
    {
        let ghost m = self@.remove(key@);
        let ghost before = *self;
        match self.find(key) {
            Some(i) => {
                self.rows.remove(i);
                proof {
                    assert(self.rows() == before.rows().remove(i as int));
                    assert forall|j: int| 0 <= j < self.rows().len() implies m.contains_key(
                        (#[trigger] self.rows()[j]).0@,
                    ) && m[self.rows()[j].0@] == self.rows()[j].1 by {
                        let source = if j < i { j } else { j + 1 };
                        assert(self.rows()[j] == before.rows()[source]);
                        assert(before.rows()[i as int].0@ == key@);
                        before.lemma_row(source);
                    }
                    assert forall|k: K::V| #[trigger] m.contains_key(k) implies exists|j: int|
                        self.row_is(j, k) by {
                        let j = choose|j: int| before.row_is(j, k);
                        assert(before.row_is(j, k));
                        if j < i {
                            assert(self.row_is(j, k));
                        } else {
                            assert(self.row_is(j - 1, k));
                        }
                    }
                    self.lemma_stands_for(m);
                }
            },
            None => {
                assert(self@ =~= m);
            },
        }
    }
}

impl<K: TableKey, V: Copy> View for Table<K, V> {
    type V = Map<K::V, V>;

    open spec fn view(&self) -> Map<K::V, V> {
        Map::new(
            |key: K::V| exists|i: int| self.row_is(i, key),
            |key: K::V| self.rows()[choose|i: int| self.row_is(i, key)].1,
        )
    }
}

} // verus!
