use vstd::prelude::*;

verus! {

/// The bump seeds found while checking an instruction's accounts, each
/// filed under the name of the account it was found for.
///
/// No name occurs twice; a second entry for a name replaces the first.
///
/// The entries are held as two vectors rather than a `BTreeMap<String, u8>`:
/// vstd states `BTreeMap`'s operations only for keys that obey its ordering
/// laws, and it proves those laws for integer keys but not for `String`, so
/// nothing could be proved of a map keyed by names.
pub struct Bumps {
    names: Vec<String>,
    values: Vec<u8>,
}

impl Bumps {
    #[verifier::type_invariant]
    spec fn well_formed(self) -> bool {
        &&& self.names.len() == self.values.len()
        &&& forall|i: int, j: int|
            0 <= i < j < self.names.len() ==> #[trigger] self.names@[i]@ != #[trigger] self.names@[j]@
    }

    /// Position of `name` among the entries, if it is there.
    spec fn index_of(self, name: Seq<char>) -> int {
        choose|i: int| 0 <= i < self.names.len() && #[trigger] self.names@[i]@ == name
    }

    /// The names under which a bump is filed.
    pub closed spec fn names(self) -> Set<Seq<char>> {
        Set::new(|name: Seq<char>| exists|i: int| 0 <= i < self.names.len() && #[trigger] self.names@[i]@ == name)
    }

    /// The bump filed under `name`, if any.
    pub closed spec fn lookup(self, name: Seq<char>) -> Option<u8> {
        if self.names().contains(name) {
            Some(self.values@[self.index_of(name)])
        } else {
            None
        }
    }
}

impl View for Bumps {
    type V = Map<Seq<char>, u8>;

    closed spec fn view(&self) -> Map<Seq<char>, u8> {
        Map::new(|name: Seq<char>| self.names().contains(name), |name: Seq<char>| self.lookup(name).unwrap())
    }
}

impl Bumps {
    /// An empty set of bumps.
    pub fn new() -> (b: Bumps)
        ensures
            b@ == Map::<Seq<char>, u8>::empty(),
    {
        let b = Bumps { names: Vec::new(), values: Vec::new() };
        assert(b@ =~= Map::<Seq<char>, u8>::empty());
        b
    }

    /// Position of `name`, searched from the front.
    fn find(&self, name: &String) -> (r: Option<usize>)
        ensures
            match r {
                Some(i) => i < self.names.len() && self.names@[i as int]@ == name@,
                None => forall|i: int| 0 <= i < self.names.len() ==> self.names@[i]@ != name@,
            },
    {
        let mut i: usize = 0;
        while i < self.names.len()
            invariant
                0 <= i <= self.names.len(),
                forall|j: int| 0 <= j < i ==> self.names@[j]@ != name@,
            decreases self.names.len() - i,
        {
            if self.names[i] == *name {
                return Some(i);
            }
            i = i + 1;
        }
        None
    }

    /// The bump filed under `name`.
    pub fn get(&self, name: &str) -> (r: Option<u8>)
        ensures
            r == (if self@.contains_key(name@) { Some(self@[name@]) } else { None::<u8> }),
    {
        proof { use_type_invariant(self); }
        let key = String::from_str(name);
        match self.find(&key) {
            Some(i) => {
                assert(self.names().contains(name@));
                let ghost k = self.index_of(name@);
                assert(self.names@[k]@ == name@);
                assert(k == i as int);
                Some(self.values[i])
            },
            None => {
                assert(!self.names().contains(name@));
                None
            },
        }
    }

    /// Files `bump` under `name`, replacing an earlier entry of that name.
    pub fn insert(&mut self, name: &str, bump: u8)
        ensures
            final(self)@ == old(self)@.insert(name@, bump),
    {
        proof { use_type_invariant(&*self); }
        let key = String::from_str(name);
        let ghost before = *self;
        match self.find(&key) {
            Some(i) => {
                let mut taken = Bumps::new();
                std::mem::swap(&mut taken, self);
                let Bumps { names, mut values } = taken;
                values.set(i, bump);
                *self = Bumps { names, values };
                proof {
                    assert(self.names@ == before.names@);
                    assert forall|n: Seq<char>| #[trigger] self.names().contains(n) == before.names().contains(n) by {}
                    assert forall|n: Seq<char>| self.names().contains(n) implies #[trigger] self.lookup(n)
                        == (if n == name@ { Some(bump) } else { before.lookup(n) }) by {
                        let k = self.index_of(n);
                        let k0 = before.index_of(n);
                        assert(k == k0);
                    }
                    assert(self@ =~= before@.insert(name@, bump));
                }
            },
            None => {
                let mut taken = Bumps::new();
                std::mem::swap(&mut taken, self);
                let Bumps { mut names, mut values } = taken;
                names.push(key);
                values.push(bump);
                *self = Bumps { names, values };
                proof {
                    let last = before.names.len() as int;
                    assert(self.names@[last]@ == name@);
                    assert forall|n: Seq<char>| #[trigger] self.names().contains(n)
                        == (before.names().contains(n) || n == name@) by {
                        if before.names().contains(n) {
                            let k = choose|k: int| 0 <= k < before.names.len() && #[trigger] before.names@[k]@ == n;
                            assert(self.names@[k]@ == n);
                        }
                        if n == name@ {
                            assert(self.names@[last]@ == n);
                        }
                    }
                    assert forall|n: Seq<char>| self.names().contains(n) implies #[trigger] self.lookup(n)
                        == (if n == name@ { Some(bump) } else { before.lookup(n) }) by {
                        let k = self.index_of(n);
                        if n == name@ {
                            assert(k == last);
                        } else {
                            let k0 = before.index_of(n);
                            assert(self.names@[k0]@ == n);
                            assert(k == k0);
                        }
                    }
                    assert(self@ =~= before@.insert(name@, bump));
                }
            },
        }
    }
}

} // verus!
