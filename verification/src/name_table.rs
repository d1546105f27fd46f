//! A table from names to values, kept as parallel lists with no name twice.
use vstd::prelude::*;

verus! {

/// The map that a list of names and a list of values, read in order with
/// later entries winning, describe.
pub open spec fn table_map<V>(ks: Seq<Seq<char>>, vs: Seq<V>) -> Map<Seq<char>, V>
    decreases ks.len(),
{
    if ks.len() == 0 || vs.len() == 0 {
        Map::empty()
    } else {
        table_map(ks.drop_last(), vs.drop_last()).insert(ks.last(), vs.last())
    }
}

/// No name occurs twice.
pub open spec fn unique_names(ks: Seq<Seq<char>>) -> bool {
    forall|i: int, j: int| 0 <= i < ks.len() && 0 <= j < ks.len() && i != j ==> ks[i] != ks[j]
}

proof fn lemma_table_map_lookup<V>(ks: Seq<Seq<char>>, vs: Seq<V>, k: Seq<char>)
    requires
        ks.len() == vs.len(),
        unique_names(ks),
    ensures
        table_map(ks, vs).dom().contains(k) <==> exists|i: int| 0 <= i < ks.len() && ks[i] == k,
        forall|i: int| 0 <= i < ks.len() && ks[i] == k ==> table_map(ks, vs)[k] == vs[i],
    decreases ks.len(),
{
    if ks.len() > 0 {
        let ks0 = ks.drop_last();
        let vs0 = vs.drop_last();
        assert(unique_names(ks0)) by {
            assert forall|i: int, j: int| 0 <= i < ks0.len() && 0 <= j < ks0.len() && i != j implies ks0[i]
                != ks0[j] by {
                assert(ks0[i] == ks[i] && ks0[j] == ks[j]);
            }
        }
        lemma_table_map_lookup(ks0, vs0, k);
        if k != ks.last() {
            assert((exists|i: int| 0 <= i < ks.len() && ks[i] == k) ==> exists|i: int|
                0 <= i < ks0.len() && ks0[i] == k) by {
                if exists|i: int| 0 <= i < ks.len() && ks[i] == k {
                    let i = choose|i: int| 0 <= i < ks.len() && ks[i] == k;
                    assert(ks0[i] == k);
                }
            }
            assert forall|i: int| 0 <= i < ks.len() && ks[i] == k implies table_map(ks, vs)[k] == vs[i] by {
                assert(ks0[i] == k && vs0[i] == vs[i]);
            }
        } else {
            assert(ks[ks.len() - 1] == k);
            assert forall|i: int| 0 <= i < ks.len() && ks[i] == k implies table_map(ks, vs)[k] == vs[i] by {
                assert(i == ks.len() - 1);
            }
        }
    }
}

proof fn lemma_table_map_update<V>(ks: Seq<Seq<char>>, vs: Seq<V>, i: int, v: V)
    requires
        ks.len() == vs.len(),
        unique_names(ks),
        0 <= i < ks.len(),
    ensures
        table_map(ks, vs.update(i, v)) == table_map(ks, vs).insert(ks[i], v),
{
    let vs2 = vs.update(i, v);
    assert forall|k: Seq<char>| #![auto] table_map(ks, vs2).dom().contains(k) == table_map(ks, vs).insert(ks[i], v).dom().contains(k) by {
        lemma_table_map_lookup(ks, vs, k);
        lemma_table_map_lookup(ks, vs2, k);
    }
    assert forall|k: Seq<char>| #![auto] table_map(ks, vs2).dom().contains(k) implies table_map(ks, vs2)[k] == table_map(ks, vs).insert(ks[i], v)[k] by {
        lemma_table_map_lookup(ks, vs, k);
        lemma_table_map_lookup(ks, vs2, k);
        let j = choose|j: int| 0 <= j < ks.len() && ks[j] == k;
        assert(table_map(ks, vs2)[k] == vs2[j]);
    }
    assert(table_map(ks, vs2) =~= table_map(ks, vs).insert(ks[i], v));
}

proof fn lemma_table_map_push<V>(ks: Seq<Seq<char>>, vs: Seq<V>, k: Seq<char>, v: V)
    requires
        ks.len() == vs.len(),
    ensures
        table_map(ks.push(k), vs.push(v)) == table_map(ks, vs).insert(k, v),
{
    assert(ks.push(k).drop_last() =~= ks);
    assert(vs.push(v).drop_last() =~= vs);
}

/// A name-keyed table: parallel lists of names and values, no name twice.
pub(crate) struct NameTable<V> {
    keys: Vec<String>,
    values: Vec<V>,
}

impl<V: Copy> NameTable<V> {
    pub(crate) closed spec fn names(&self) -> Seq<Seq<char>> {
        self.keys@.map_values(|s: String| s@)
    }

    pub(crate) closed spec fn view(&self) -> Map<Seq<char>, V> {
        table_map(self.names(), self.values@)
    }

    pub(crate) closed spec fn wf(&self) -> bool {
        &&& self.keys@.len() == self.values@.len()
        &&& unique_names(self.names())
    }

    pub(crate) fn new() -> (r: Self)
        ensures
            r.wf(),
            r.view() == Map::<Seq<char>, V>::empty(),
    {
        NameTable { keys: Vec::new(), values: Vec::new() }
    }

    /// Position of `key` among the names, if present.
    fn position(&self, key: &String) -> (r: Option<usize>)
        requires
            self.wf(),
        ensures
            match r {
                Some(i) => i < self.keys@.len() && self.names()[i as int] == key@,
                None => forall|i: int| 0 <= i < self.keys@.len() ==> self.names()[i] != key@,
            },
    {
        let mut i: usize = 0;
        while i < self.keys.len()
            invariant
                self.wf(),
                i <= self.keys@.len(),
                forall|j: int| 0 <= j < i ==> self.names()[j] != key@,
            decreases self.keys@.len() - i,
        {
            if self.keys[i] == *key {
                return Some(i);
            }
            i = i + 1;
        }
        None
    }

    pub(crate) fn get(&self, key: &String) -> (r: Option<V>)
        requires
            self.wf(),
        ensures
            r == (if self.view().dom().contains(key@) {
                Some(self.view()[key@])
            } else {
                None::<V>
            }),
    {
        proof {
            lemma_table_map_lookup(self.names(), self.values@, key@);
        }
        match self.position(key) {
            Some(i) => Some(self.values[i]),
            None => None,
        }
    }

    pub(crate) fn insert(&mut self, key: String, value: V)
        requires
            old(self).wf(),
        ensures
            final(self).wf(),
            final(self).view() == old(self).view().insert(key@, value),
    {
        match self.position(&key) {
            Some(i) => {
                proof {
                    lemma_table_map_update(self.names(), self.values@, i as int, value);
                }
                self.values.set(i, value);
            },
            None => {
                let ghost old_names = self.names();
                let ghost old_values = self.values@;
                let ghost k = key@;
                self.keys.push(key);
                self.values.push(value);
                proof {
                    assert(self.names() =~= old_names.push(k));
                    lemma_table_map_push(old_names, old_values, k, value);
                }
            },
        }
    }
}

} // verus!
