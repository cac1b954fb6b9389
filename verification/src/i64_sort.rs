use vstd::prelude::*;
use crate::expr::{Cost, Expr};
use crate::extract::{Extractor, TermDag};
use crate::sort::{Sort, SortDesc};
use crate::unionfind::UnionFind;
use crate::value::{Symbol, Value};

verus! {

/// The sort of 64-bit signed integers: a pure data sort whose values hold
/// the integer's two's-complement bit pattern directly in `bits`. It has
/// no embedded class references, so it is left untouched by
/// canonicalization and reports no tracked values.
#[derive(Debug, PartialEq, Eq)]
pub struct I64Sort {
    pub name: Symbol,
}

impl Sort for I64Sort {
    open spec fn spec_name(&self) -> Symbol {
        self.name
    }

    fn name(&self) -> (r: Symbol) {
        self.name
    }

    open spec fn spec_inner_values(&self, v: Value) -> Seq<(SortDesc, Value)> {
        Seq::empty()
    }

    fn inner_values(&self, value: &Value) -> (r: Vec<(SortDesc, Value)>) {
        Vec::new()
    }

    open spec fn canon_pre(&self, v: Value, uf: Seq<u64>) -> bool {
        true
    }

    /// A value with no embedded class references is its own canonical form.
    open spec fn spec_canonical(&self, v: Value, uf: Seq<u64>) -> Value {
        v
    }

    fn canonicalize(&self, value: &mut Value, uf: &UnionFind) -> (changed: bool) {
        false
    }

    proof fn lemma_canonical_idempotent(&self, v: Value, uf: Seq<u64>) {
    }

    /// Direct reconstruction always succeeds for a plain integer.
    open spec fn make_expr_allowed(&self, v: Value) -> bool {
        true
    }

    open spec fn spec_make_expr(&self, v: Value) -> (Cost, Expr) {
        (1usize, Expr::Lit(v.bits as i64))
    }

    fn make_expr(&self, value: Value) -> (r: (Cost, Expr)) {
        (1, Expr::Lit(#[verifier::truncate] (value.bits as i64)))
    }

    /// Extraction needs no help from the extractor: it is the
    /// always-present wrapping of `make_expr`.
    open spec fn spec_extract(&self, v: Value, best: Map<u64, (Cost, Expr)>) -> Option<
        (Cost, Expr),
    > {
        Some(self.spec_make_expr(v))
    }

    fn extract_expr(&self, value: Value, extractor: &Extractor, termdag: &mut TermDag) -> (r:
        Option<(Cost, Expr)>) {
        proof {
            assert(termdag@.is_prefix_of(termdag@)) by {
                assert(termdag@.subrange(0, termdag@.len() as int) =~= termdag@);
            }
        }
        Some(self.make_expr(value))
    }
}

/// For this sort, extraction and direct reconstruction agree everywhere:
/// whatever the extractor's table holds, `extract_expr` yields exactly the
/// always-present `make_expr` result.
pub proof fn lemma_extract_equals_make(sort: &I64Sort, v: Value, best: Map<u64, (Cost, Expr)>)
    ensures
        sort.spec_extract(v, best) == Some(sort.spec_make_expr(v)),
{
}

} // verus!
