//! The registered command set: unique command names, populated once by the
//! hosting application before first use and read-only afterwards.  The
//! argument specification attached to each command is the business of an
//! external argument parser; the core resolves names only.

use vstd::prelude::*;

verus! {

/// The set of registered command names.
pub struct CommandTable {
    pub names: Vec<String>,
}

impl View for CommandTable {
    type V = Set<Seq<char>>;

    open spec fn view(&self) -> Set<Seq<char>> {
        Set::new(|n: Seq<char>| exists|i: int| 0 <= i < self.names@.len() && self.names@[i]@ == n)
    }
}

impl CommandTable {
    /// No name is registered twice.
    pub open spec fn wf(self) -> bool {
        forall|i: int, j: int|
            0 <= i < j < self.names@.len() ==> self.names@[i]@ != self.names@[j]@
    }

    /// An empty table.
    pub fn new() -> (r: CommandTable)
        ensures
            r.wf(),
            r@ =~= Set::<Seq<char>>::empty(),
    {
        let r = CommandTable { names: Vec::new() };
        proof {
            assert(r@ =~= Set::<Seq<char>>::empty());
        }
        r
    }

    /// Whether `name` is registered.
    pub fn contains(&self, name: &String) -> (r: bool)
        ensures
            r == self@.contains(name@),
    {
        let mut i: usize = 0;
        while i < self.names.len()
            invariant
                i <= self.names@.len(),
                forall|j: int| 0 <= j < i ==> self.names@[j]@ != name@,
            decreases self.names@.len() - i,
        {
            if self.names[i].eq(name) {
                proof {
                    assert(self@.contains(name@));
                }
                return true;
            }
            i = i + 1;
        }
        proof {
            if self@.contains(name@) {
                let k = choose|k: int| 0 <= k < self.names@.len() && self.names@[k]@ == name@;
                assert(self.names@[k]@ != name@);
            }
        }
        false
    }

    /// Registers `name`.  A duplicate registration is reported by the
    /// `true` result so the host can warn; the later registration wins,
    /// which for a set of names leaves the set unchanged.
    pub fn register(&mut self, name: String) -> (duplicate: bool)
        requires
            old(self).wf(),
        ensures
            final(self).wf(),
            duplicate == old(self)@.contains(name@),
            final(self)@ == old(self)@.insert(name@),
    {
        if self.contains(&name) {
            proof {
                assert(self@ =~= self@.insert(name@));
            }
            true
        } else {
            let ghost before = self@;
            let ghost old_names = self.names@;
            let ghost namev = name@;
            self.names.push(name);
            proof {
                assert forall|n: Seq<char>| self@.contains(n) implies before.insert(
                    namev,
                ).contains(n) by {
                    let i = choose|i: int| 0 <= i < self.names@.len() && self.names@[i]@ == n;
                    if i < old_names.len() {
                        assert(old_names[i]@ == n);
                        assert(before.contains(n));
                    } else {
                        assert(n == namev);
                    }
                }
                assert forall|n: Seq<char>| before.insert(namev).contains(n) implies self@.contains(
                    n,
                ) by {
                    if n == namev {
                        assert(self.names@[self.names@.len() - 1]@ == n);
                    } else {
                        let i = choose|i: int| 0 <= i < old_names.len() && old_names[i]@ == n;
                        assert(self.names@[i]@ == n);
                    }
                }
                assert(self@ =~= before.insert(namev));
            }
            false
        }
    }

    /// The number of registered names.
    pub fn len(&self) -> (r: usize)
        ensures
            r == self.names@.len(),
    {
        self.names.len()
    }
}

} // verus!
