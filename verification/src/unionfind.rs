use vstd::prelude::*;
use vstd::pervasive::VecAdditionalExecFns;

verus! {

/// A parent table is well formed when every entry points directly at a
/// root: entries are in range, and an entry that is pointed at points at
/// itself. Keeping the table in this fully compressed shape makes `find` a
/// single lookup, and it is what makes canonicalization idempotent.
pub open spec fn uf_wf(uf: Seq<u64>) -> bool {
    forall|i: int|
        0 <= i < uf.len() ==> (#[trigger] uf[i]) < uf.len() && uf[uf[i] as int] == uf[i]
}

/// Maintains equivalence classes over the ids `0 .. len` and answers
/// "canonical representative of" queries. The abstract state is the parent
/// table itself: id `i` belongs to the class whose canonical id is `self@[i]`.
pub struct UnionFind {
    parents: Vec<u64>,
}

impl View for UnionFind {
    type V = Seq<u64>;

    closed spec fn view(&self) -> Seq<u64> {
        self.parents@
    }
}

impl UnionFind {
    /// The parent table keeps every entry pointing directly at a root.
    pub open spec fn wf(&self) -> bool {
        uf_wf(self@)
    }

    /// An empty structure with no ids.
    pub fn new() -> (r: UnionFind)
        ensures
            r@ =~= Seq::<u64>::empty(),
            r.wf(),
    {
        UnionFind { parents: Vec::new() }
    }

    /// How many ids have been created.
    pub fn len(&self) -> (r: usize)
        ensures
            r == self@.len(),
    {
        self.parents.len()
    }

    /// Create a fresh singleton class and return its id, the next unused one.
    pub fn make_set(&mut self) -> (id: u64)
        requires
            old(self).wf(),
        ensures
            id == old(self)@.len(),
            final(self)@ =~= old(self)@.push(id),
            final(self).wf(),
    {
        let id = self.parents.len() as u64;
        self.parents.push(id);
        proof {
            assert forall|i: int| 0 <= i < self@.len() implies (#[trigger] self@[i])
                < self@.len() && self@[self@[i] as int] == self@[i] by {
                if i < old(self)@.len() {
                    assert(old(self)@[i] < old(self)@.len());
                }
            }
        }
        id
    }

    /// The canonical representative of the class that `id` belongs to.
    pub fn find(&self, id: u64) -> (r: u64)
        requires
            self.wf(),
            id < self@.len(),
        ensures
            r == self@[id as int],
            r < self@.len(),
            self@[r as int] == r,
    {
        proof {
            assert(self.parents.len() == self@.len());
        }
        self.parents[id as usize]
    }

    /// Merge the class of `b` into the class of `a` and return the canonical
    /// id of the merged class, which is the representative of `a`. Every id
    /// whose representative was `b`'s now answers with `a`'s; all other ids
    /// are untouched.
    pub fn union(&mut self, a: u64, b: u64) -> (r: u64)
        requires
            old(self).wf(),
            a < old(self)@.len(),
            b < old(self)@.len(),
        ensures
            r == old(self)@[a as int],
            final(self)@.len() == old(self)@.len(),
            forall|i: int|
                0 <= i < old(self)@.len() ==> final(self)@[i] == (if old(self)@[i] == old(
                    self,
                )@[b as int] {
                    old(self)@[a as int]
                } else {
                    old(self)@[i]
                }),
            final(self).wf(),
    {
        proof {
            assert(self.parents.len() == self@.len());
        }
        let ra = self.parents[a as usize];
        let rb = self.parents[b as usize];
        let n = self.parents.len();
        let mut i: usize = 0;
        while i < n
            invariant
                n == self@.len(),
                self@.len() == old(self)@.len(),
                i <= n,
                uf_wf(old(self)@),
                a < n,
                b < n,
                ra == old(self)@[a as int],
                rb == old(self)@[b as int],
                forall|k: int| i <= k < n ==> self@[k] == old(self)@[k],
                forall|k: int|
                    0 <= k < i ==> self@[k] == (if old(self)@[k] == rb {
                        ra
                    } else {
                        old(self)@[k]
                    }),
            decreases n - i,
        {
            if self.parents[i] == rb {
                self.parents.set(i, ra);
            }
            i += 1;
        }
        proof {
            assert(old(self)@[ra as int] == ra);
            assert forall|k: int| 0 <= k < self@.len() implies (#[trigger] self@[k])
                < self@.len() && self@[self@[k] as int] == self@[k] by {
                assert(old(self)@[k] < old(self)@.len());
                if old(self)@[k] == rb {
                    assert(self@[k] == ra);
                    assert(self@[ra as int] == if old(self)@[ra as int] == rb {
                        ra
                    } else {
                        old(self)@[ra as int]
                    });
                } else {
                    let p = old(self)@[k];
                    assert(old(self)@[p as int] == p);
                    assert(self@[p as int] == if old(self)@[p as int] == rb {
                        ra
                    } else {
                        old(self)@[p as int]
                    });
                }
            }
        }
        ra
    }
}

} // verus!
