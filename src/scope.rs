use vstd::prelude::*;

verus! {

/// The value bound to `k` by `entries`: the last binding of `k` wins.
pub open spec fn lookup<V>(entries: Seq<(Seq<char>, V)>, k: Seq<char>) -> Option<V>
    decreases entries.len(),
{
    if entries.len() == 0 {
        None
    } else if entries.last().0 == k {
        Some(entries.last().1)
    } else {
        lookup(entries.drop_last(), k)
    }
}

/// The map that a sequence of bindings describes.
pub open spec fn bindings_map<V>(entries: Seq<(Seq<char>, V)>) -> Map<Seq<char>, V> {
    Map::new(|k: Seq<char>| lookup(entries, k) is Some, |k: Seq<char>| lookup(entries, k)->0)
}

/// A table from names to values. A later binding of a name shadows an
/// earlier one, so a scope is entered by binding and left by truncating
/// back to a mark.
pub struct NameTable<V> {
    entries: Vec<(String, V)>,
}

impl<V> NameTable<V> {
    /// The bindings in the order they were made.
    pub closed spec fn bindings(&self) -> Seq<(Seq<char>, V)> {
        self.entries@.map_values(|e: (String, V)| (e.0@, e.1))
    }

    pub open spec fn spec_len(&self) -> nat {
        self.bindings().len()
    }

    /// An empty table.
    pub fn new() -> (r: Self)
        ensures
            r@ == Map::<Seq<char>, V>::empty(),
            r.bindings() == Seq::<(Seq<char>, V)>::empty(),
    {
        let r = NameTable { entries: Vec::new() };
        proof {
            assert(r.bindings() =~= Seq::<(Seq<char>, V)>::empty());
            assert(r@ =~= Map::<Seq<char>, V>::empty());
        }
        r
    }

    /// Binds `name` to `v`, shadowing any earlier binding of it.
    pub fn insert(&mut self, name: &str, v: V)
        ensures
            final(self)@ == old(self)@.insert(name@, v),
            final(self).bindings() == old(self).bindings().push((name@, v)),
    {
        let ghost before = self.bindings();
        self.entries.push((name.to_owned(), v));
        proof {
            let after = self.bindings();
            assert(after =~= before.push((name@, v)));
            assert(after.drop_last() =~= before);
            assert forall|k: Seq<char>| lookup(after, k) == (if k == name@ {
                Some(v)
            } else {
                lookup(before, k)
            }) by {}
            assert(self@ =~= bindings_map(before).insert(name@, v));
        }
    }

    /// The value bound to `name`, if any.
    pub fn get(&self, name: &str) -> (r: Option<&V>)
        ensures
            r matches Some(v) ==> self@.contains_key(name@) && *v == self@[name@],
            r is None ==> !self@.contains_key(name@),
    {
        let key = name.to_owned();
        let mut i = self.entries.len();
        proof {
            assert(self.bindings().subrange(0, i as int) =~= self.bindings());
        }
        while i > 0
            invariant
                i <= self.entries@.len(),
                key@ == name@,
                lookup(self.bindings(), name@) == lookup(self.bindings().subrange(0, i as int), name@),
            decreases i,
        {
            proof {
                assert(self.bindings().subrange(0, i as int).drop_last() =~= self.bindings().subrange(0, i - 1));
            }
            if self.entries[i - 1].0 == key {
                return Some(&self.entries[i - 1].1);
            }
            i = i - 1;
        }
        None
    }

    /// The number of bindings made, usable as a mark for [`Self::truncate`].
    pub fn len(&self) -> (r: usize)
        ensures
            r == self.spec_len(),
    {
        self.entries.len()
    }

    /// Drops every binding made after the mark `len`.
    pub fn truncate(&mut self, len: usize)
        requires
            len <= old(self).spec_len(),
        ensures
            final(self).bindings() == old(self).bindings().subrange(0, len as int),
            final(self)@ == bindings_map(old(self).bindings().subrange(0, len as int)),
    {
        self.entries.truncate(len);
        proof {
            assert(self.bindings() =~= old(self).bindings().subrange(0, len as int));
        }
    }
}

impl<V> View for NameTable<V> {
    type V = Map<Seq<char>, V>;

    open spec fn view(&self) -> Map<Seq<char>, V> {
        bindings_map(self.bindings())
    }
}

} // verus!
