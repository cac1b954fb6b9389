use vstd::prelude::*;
use vstd::pervasive::VecAdditionalExecFns;
use crate::expr::{Cost, Expr};

verus! {

/// The extraction pass's table of the best expression known so far for each
/// equivalence class, together with its cost. Abstractly it is the partial
/// map from class ids to their best `(Cost, Expr)` pair; a class that is
/// absent from the map has not been extracted yet, which is the signal that
/// drives the surrounding fixpoint.
pub struct Extractor {
    best: Vec<Option<(Cost, Expr)>>,
}

impl View for Extractor {
    type V = Map<u64, (Cost, Expr)>;

    closed spec fn view(&self) -> Map<u64, (Cost, Expr)> {
        Map::new(
            |c: u64| c < self.best@.len() && self.best@[c as int] is Some,
            |c: u64| self.best@[c as int].unwrap(),
        )
    }
}

impl Extractor {
    /// How many class ids the table has room for.
    pub closed spec fn slots(&self) -> nat {
        self.best@.len()
    }

    /// A table for the classes `0 .. slots`, with nothing extracted yet.
    pub fn new(slots: usize) -> (r: Extractor)
        ensures
            r@ =~= Map::<u64, (Cost, Expr)>::empty(),
            r.slots() == slots,
    {
        let mut best: Vec<Option<(Cost, Expr)>> = Vec::new();
        let mut i: usize = 0;
        while i < slots
            invariant
                i <= slots,
                best@.len() == i,
                forall|k: int| 0 <= k < i ==> best@[k] is None,
            decreases slots - i,
        {
            best.push(None);
            i += 1;
        }
        Extractor { best }
    }

    /// Record `(cost, expr)` as the best known reconstruction of `class`,
    /// replacing whatever was known before.
    pub fn set_best(&mut self, class: u64, cost: Cost, expr: Expr)
        requires
            class < old(self).slots(),
        ensures
            final(self)@ =~= old(self)@.insert(class, (cost, expr)),
            final(self).slots() == old(self).slots(),
    {
        proof {
            assert(self.best.len() == self.best@.len());
        }
        self.best.set(class as usize, Some((cost, expr)));
    }

    /// The best known `(cost, expr)` pair for `class`, or nothing if the
    /// class has not been extracted yet. A class id beyond the table's room
    /// has never been extracted.
    pub fn best_of(&self, class: u64) -> (r: Option<(Cost, Expr)>)
        ensures
            r == (if self@.contains_key(class) {
                Some(self@[class])
            } else {
                None::<(Cost, Expr)>
            }),
    {
        proof {
            assert(self.best.len() == self.best@.len());
        }
        if class < self.best.len() as u64 {
            match &self.best[class as usize] {
                Some(pair) => Some((pair.0, pair.1.duplicate())),
                None => None,
            }
        } else {
            None
        }
    }
}

/// A shared store of reconstructed expressions that extraction may allocate
/// into; abstractly, the sequence of expressions added so far. Extraction
/// only ever appends to it.
pub struct TermDag {
    terms: Vec<Expr>,
}

impl View for TermDag {
    type V = Seq<Expr>;

    closed spec fn view(&self) -> Seq<Expr> {
        self.terms@
    }
}

impl TermDag {
    /// An empty store.
    pub fn new() -> (r: TermDag)
        ensures
            r@ =~= Seq::<Expr>::empty(),
    {
        TermDag { terms: Vec::new() }
    }

    /// How many expressions the store holds.
    pub fn len(&self) -> (r: usize)
        ensures
            r == self@.len(),
    {
        self.terms.len()
    }

    /// Append an expression and return its index in the store.
    pub fn add(&mut self, e: Expr) -> (idx: usize)
        requires
            old(self)@.len() < usize::MAX,
        ensures
            final(self)@ =~= old(self)@.push(e),
            idx == old(self)@.len(),
    {
        let idx = self.terms.len();
        self.terms.push(e);
        idx
    }

    /// The expression stored at `idx`.
    pub fn term(&self, idx: usize) -> (r: &Expr)
        requires
            idx < self@.len(),
        ensures
            *r == self@[idx as int],
    {
        proof {
            assert(self.terms.len() == self.terms@.len());
        }
        &self.terms[idx]
    }
}

} // verus!
