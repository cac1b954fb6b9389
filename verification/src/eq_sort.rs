use vstd::prelude::*;
use crate::expr::{Cost, Expr};
use crate::extract::{Extractor, TermDag};
use crate::sort::{Sort, SortDesc};
use crate::unionfind::UnionFind;
use crate::value::{Symbol, Value};

verus! {

/// The sort of bare equivalence-class references: the `bits` of one of its
/// values *is* an equivalence-class identifier. Many values of this sort
/// may denote the same logical entity; the canonical form is defined by
/// the external union-find.
#[derive(Debug, PartialEq, Eq)]
pub struct EqSort {
    pub name: Symbol,
}

impl Sort for EqSort {
    open spec fn spec_name(&self) -> Symbol {
        self.name
    }

    fn name(&self) -> (r: Symbol) {
        self.name
    }

    fn is_eq_sort(&self) -> (r: bool)
        ensures
            r,
    {
        true
    }

    open spec fn spec_inner_values(&self, v: Value) -> Seq<(SortDesc, Value)> {
        Seq::empty()
    }

    fn inner_values(&self, value: &Value) -> (r: Vec<(SortDesc, Value)>) {
        Vec::new()
    }

    /// The class id must be one of the union-find's ids.
    open spec fn canon_pre(&self, v: Value, uf: Seq<u64>) -> bool {
        v.bits < uf.len()
    }

    /// Canonical form: the same tag, with the class id replaced by its
    /// canonical representative.
    open spec fn spec_canonical(&self, v: Value, uf: Seq<u64>) -> Value {
        Value { tag: v.tag, bits: uf[v.bits as int] }
    }

    fn canonicalize(&self, value: &mut Value, uf: &UnionFind) -> (changed: bool) {
        let bits = uf.find(value.bits);
        if bits != value.bits {
            value.bits = bits;
            true
        } else {
            false
        }
    }

    proof fn lemma_canonical_idempotent(&self, v: Value, uf: Seq<u64>) {
        assert(uf[v.bits as int] < uf.len());
    }

    /// A class id carries no expression of its own, so direct
    /// reconstruction is never meaningful: only extraction, which consults
    /// the extractor's table, can turn such a value into an expression.
    open spec fn make_expr_allowed(&self, v: Value) -> bool {
        false
    }

    open spec fn spec_make_expr(&self, v: Value) -> (Cost, Expr) {
        arbitrary()
    }

    /// Calling this is a contract violation — the caller asked for a
    /// direct reconstruction of a bare class reference — and it fails fast
    /// rather than returning anything.
    fn make_expr(&self, value: Value) -> (r: (Cost, Expr)) {
        vstd::pervasive::unreached()
    }

    /// Extraction asks the extractor for the best known expression of the
    /// referenced class, and reports "not yet extractable" while the class
    /// has none.
    open spec fn spec_extract(&self, v: Value, best: Map<u64, (Cost, Expr)>) -> Option<
        (Cost, Expr),
    > {
        if best.contains_key(v.bits) {
            Some(best[v.bits])
        } else {
            None
        }
    }

    fn extract_expr(&self, value: Value, extractor: &Extractor, termdag: &mut TermDag) -> (r:
        Option<(Cost, Expr)>) {
        proof {
            assert(termdag@.is_prefix_of(termdag@)) by {
                assert(termdag@.subrange(0, termdag@.len() as int) =~= termdag@);
            }
        }
        extractor.best_of(value.bits)
    }
}

/// Direct reconstruction from an equivalence-class reference is a misuse
/// for every value, deterministically: no call to `make_expr` on this sort
/// is admitted, whatever the value holds.
pub proof fn lemma_make_expr_never_allowed(sort: &EqSort, v: Value)
    ensures
        !sort.make_expr_allowed(v),
{
}

} // verus!
