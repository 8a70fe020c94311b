//! A table from names to values with at most one entry per name, in the
//! order of registration. The callback registry and the routing tables are
//! built on it.
use vstd::prelude::*;

verus! {

/// The entries of a name table.
pub struct NameTable<V> {
    pub entries: Vec<(String, V)>,
}

/// The name of each entry.
pub open spec fn entry_names<V>(e: Seq<(String, V)>) -> Seq<Seq<char>> {
    e.map_values(|p: (String, V)| p.0@)
}

impl<V> NameTable<V> {
    /// The names in order of registration.
    pub open spec fn names(&self) -> Seq<Seq<char>> {
        entry_names(self.entries@)
    }

    /// No name is bound twice.
    pub open spec fn wf(&self) -> bool {
        self.names().no_duplicates()
    }

    /// The table as a map from names to values.
    pub open spec fn view(&self) -> Map<Seq<char>, V> {
        Map::new(
            |k: Seq<char>| self.names().contains(k),
            |k: Seq<char>| self.entries@[self.names().index_of(k)].1,
        )
    }

    /// An empty table.
    pub fn new() -> (r: NameTable<V>)
        ensures
            r.wf(),
            r.view() == Map::<Seq<char>, V>::empty(),
            r.names().len() == 0,
    {
        let r = NameTable { entries: Vec::new() };
        assert(r.names() =~= Seq::<Seq<char>>::empty());
        assert(r.view() =~= Map::<Seq<char>, V>::empty());
        r
    }

    /// Where `name` stands, if it is bound.
    pub fn position(&self, name: &String) -> (r: Option<usize>)
        ensures
            r matches Some(i) ==> i < self.names().len() && self.names()[i as int] == name@,
            r is None <==> !self.names().contains(name@),
    {
        let mut i: usize = 0;
        while i < self.entries.len()
            invariant
                i <= self.entries@.len(),
                forall|j: int| 0 <= j < i ==> self.names()[j] != name@,
            decreases self.entries@.len() - i,
        {
            assert(self.names()[i as int] == self.entries@[i as int].0@);
            if self.entries[i].0 == *name {
                return Some(i);
            }
            i = i + 1;
        }
        None
    }

    /// Whether `name` is bound.
    pub fn contains(&self, name: &String) -> (r: bool)
        ensures
            r == self.view().dom().contains(name@),
    {
        self.position(name).is_some()
    }

    /// The value bound to `name`, if any.
    pub fn get(&self, name: &String) -> (r: Option<&V>)
        requires
            self.wf(),
        ensures
            r is None <==> !self.view().dom().contains(name@),
            r matches Some(v) ==> self.view()[name@] == *v,
    {
        match self.position(name) {
            Some(i) => {
                proof {
                    assert(self.names().contains(name@));
                    let k = self.names().index_of(name@);
                    assert(self.names()[k] == name@);
                }
                Some(&self.entries[i].1)
            },
            None => None,
        }
    }

    /// Binds `name` to `v` where it is unbound; a bound name keeps its value
    /// and `false` comes back.
    pub fn insert_new(&mut self, name: String, v: V) -> (r: bool)
        requires
            old(self).wf(),
        ensures
            final(self).wf(),
            r == !old(self).view().dom().contains(name@),
            r ==> final(self).view() == old(self).view().insert(name@, v),
            r ==> final(self).names() == old(self).names().push(name@),
            !r ==> final(self).view() == old(self).view() && final(self).names() == old(self).names(),
    {
        if self.contains(&name) {
            return false;
        }
        let ghost n0 = self.names();
        let ghost m0 = self.view();
        let ghost k = name@;
        self.entries.push((name, v));
        assert(self.names() =~= n0.push(k));
        proof {
            assert forall|i: int, j: int| 0 <= i < j < self.names().len() implies self.names()[i] != self.names()[j] by {
                if j == n0.len() {
                    assert(n0[i] != k);
                }
            }
            assert forall|q: Seq<char>| #[trigger] m0.dom().contains(q) && q != k implies self.view()[q] == m0[q] by {
                let a = n0.index_of(q);
                assert(n0[a] == q);
                assert(self.names()[a] == q);
                assert(self.names().contains(q));
                let b = self.names().index_of(q);
                assert(self.names()[b] == q);
                if b == n0.len() as int {
                    assert(q == k);
                }
                assert(n0[b] == q);
                assert(a == b);
            }
            let last = n0.len() as int;
            assert(self.names()[last] == k);
            assert(self.names().contains(k));
            let b = self.names().index_of(k);
            if b != last {
                assert(n0[b] == k);
                assert(n0.contains(k));
            }
            assert forall|q: Seq<char>| self.names().contains(q) <==> (n0.contains(q) || q == k) by {
                if self.names().contains(q) && q != k {
                    let j = choose|j: int| 0 <= j < self.names().len() && self.names()[j] == q;
                    assert(n0[j] == q);
                }
                if n0.contains(q) {
                    let j = choose|j: int| 0 <= j < n0.len() && n0[j] == q;
                    assert(self.names()[j] == q);
                }
            }
            assert(self.view() =~= m0.insert(k, self.entries@[n0.len() as int].1));
        }
        true
    }
}

} // verus!
