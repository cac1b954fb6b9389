use vstd::prelude::*;
use crate::expr::{Cost, Expr, ExprList};
use crate::extract::{Extractor, TermDag};
use crate::sort::{Sort, SortDesc};
use crate::unionfind::UnionFind;
use crate::value::{Symbol, Value};

verus! {

/// The high half of a packed pair payload: the embedded class id.
pub open spec fn pair_hi(bits: u64) -> u64 {
    bits >> 32
}

/// The low half of a packed pair payload: the plain integer child.
pub open spec fn pair_lo(bits: u64) -> u64 {
    bits & 0xFFFF_FFFF
}

/// Both halves packed back into one 64-bit payload.
pub open spec fn pair_pack(hi: u64, lo: u64) -> u64 {
    (hi << 32) | lo
}

proof fn lemma_pack_unpack(x: u64, y: u64)
    requires
        x < 0x1_0000_0000,
        y < 0x1_0000_0000,
    ensures
        pair_hi(pair_pack(x, y)) == x,
        pair_lo(pair_pack(x, y)) == y,
{
    assert(x < 0x1_0000_0000 && y < 0x1_0000_0000 ==> ((x << 32) | y) >> 32 == x && (((x << 32)
        | y) & 0xFFFF_FFFF) == y) by (bit_vector);
}

proof fn lemma_unpack_bounds(b: u64)
    ensures
        pair_hi(b) < 0x1_0000_0000,
        pair_lo(b) < 0x1_0000_0000,
        pair_pack(pair_hi(b), pair_lo(b)) == b,
{
    assert(b >> 32 < 0x1_0000_0000 && (b & 0xFFFF_FFFF) < 0x1_0000_0000 && (((b >> 32) << 32) | (b
        & 0xFFFF_FFFF)) == b) by (bit_vector);
}

/// A container sort whose values pair an equivalence-class reference with
/// a plain 32-bit integer payload, both packed into the value's 64-bit
/// payload: the class id in the high half, the integer in the low half.
/// The left child is owned by the equivalence-class sort named
/// `class_sort`; the right child is owned by the data sort named
/// `payload_sort`.
#[derive(Debug, PartialEq, Eq)]
pub struct PairSort {
    pub name: Symbol,
    pub class_sort: Symbol,
    pub payload_sort: Symbol,
}

impl PairSort {
    /// Descriptor of the left child's owning sort.
    pub open spec fn left_desc(&self) -> SortDesc {
        SortDesc {
            name: self.class_sort,
            eq_sort: true,
            container_sort: false,
            eq_container_sort: false,
        }
    }

    /// Descriptor of the right child's owning sort.
    pub open spec fn right_desc(&self) -> SortDesc {
        SortDesc {
            name: self.payload_sort,
            eq_sort: false,
            container_sort: false,
            eq_container_sort: false,
        }
    }
}

impl Sort for PairSort {
    open spec fn spec_name(&self) -> Symbol {
        self.name
    }

    fn name(&self) -> (r: Symbol) {
        self.name
    }

    fn is_container_sort(&self) -> (r: bool)
        ensures
            r,
    {
        true
    }

    /// The left child is an equivalence-class reference, so this container
    /// participates in canonicalization and tracked traversal.
    fn is_eq_container_sort(&self) -> (r: bool)
        ensures
            r,
    {
        true
    }

    open spec fn spec_inner_values(&self, v: Value) -> Seq<(SortDesc, Value)> {
        seq![
            (self.left_desc(), Value { tag: self.class_sort, bits: pair_hi(v.bits) }),
            (self.right_desc(), Value { tag: self.payload_sort, bits: pair_lo(v.bits) }),
        ]
    }

    fn inner_values(&self, value: &Value) -> (r: Vec<(SortDesc, Value)>) {
        let left = SortDesc {
            name: self.class_sort,
            eq_sort: true,
            container_sort: false,
            eq_container_sort: false,
        };
        let right = SortDesc {
            name: self.payload_sort,
            eq_sort: false,
            container_sort: false,
            eq_container_sort: false,
        };
        let mut r: Vec<(SortDesc, Value)> = Vec::new();
        r.push((left, Value { tag: self.class_sort, bits: value.bits >> 32 }));
        r.push((right, Value { tag: self.payload_sort, bits: value.bits & 0xFFFF_FFFF }));
        proof {
            assert(r@ =~= self.spec_inner_values(*value));
        }
        r
    }

    /// The embedded class id must be one of the union-find's ids, and its
    /// canonical representative must fit back into the high half.
    open spec fn canon_pre(&self, v: Value, uf: Seq<u64>) -> bool {
        pair_hi(v.bits) < uf.len() && uf[pair_hi(v.bits) as int] < 0x1_0000_0000
    }

    /// Canonical form: the embedded class reference replaced by its
    /// canonical representative; the integer payload is untouched.
    open spec fn spec_canonical(&self, v: Value, uf: Seq<u64>) -> Value {
        Value { tag: v.tag, bits: pair_pack(uf[pair_hi(v.bits) as int], pair_lo(v.bits)) }
    }

    fn canonicalize(&self, value: &mut Value, uf: &UnionFind) -> (changed: bool) {
        let hi = value.bits >> 32;
        let lo = value.bits & 0xFFFF_FFFF;
        let new_hi = uf.find(hi);
        let new_bits = (new_hi << 32) | lo;
        proof {
            lemma_unpack_bounds(old(value).bits);
        }
        if new_bits != value.bits {
            value.bits = new_bits;
            true
        } else {
            false
        }
    }

    proof fn lemma_canonical_idempotent(&self, v: Value, uf: Seq<u64>) {
        let h = pair_hi(v.bits);
        let l = pair_lo(v.bits);
        lemma_unpack_bounds(v.bits);
        assert(uf[h as int] < uf.len());
        lemma_pack_unpack(uf[h as int], l);
    }

    /// A composite that embeds a class reference has no direct
    /// reconstruction: only extraction, which can ask the extractor for
    /// the referenced class's expression, is meaningful here.
    open spec fn make_expr_allowed(&self, v: Value) -> bool {
        false
    }

    open spec fn spec_make_expr(&self, v: Value) -> (Cost, Expr) {
        arbitrary()
    }

    /// Calling this is a contract violation and fails fast.
    fn make_expr(&self, value: Value) -> (r: (Cost, Expr)) {
        vstd::pervasive::unreached()
    }

    /// Extraction succeeds once the embedded class has a best-known
    /// expression: the result applies this sort's name to the class's
    /// expression and the literal payload, for one more than the child's
    /// cost. While the class has no expression yet, the pair is not yet
    /// extractable and the fixpoint must come back to it.
    open spec fn spec_extract(&self, v: Value, best: Map<u64, (Cost, Expr)>) -> Option<
        (Cost, Expr),
    > {
        let h = pair_hi(v.bits);
        let l = pair_lo(v.bits);
        if best.contains_key(h) {
            let child_cost = best[h].0;
            let cost = if child_cost == usize::MAX {
                child_cost
            } else {
                (child_cost + 1) as usize
            };
            Some(
                (
                    cost,
                    Expr::Call(
                        self.name,
                        ExprList::Cons(
                            Box::new(best[h].1),
                            Box::new(
                                ExprList::Cons(
                                    Box::new(Expr::Lit(l as i64)),
                                    Box::new(ExprList::Nil),
                                ),
                            ),
                        ),
                    ),
                ),
            )
        } else {
            None
        }
    }

    fn extract_expr(&self, value: Value, extractor: &Extractor, termdag: &mut TermDag) -> (r:
        Option<(Cost, Expr)>) {
        proof {
            assert(termdag@.is_prefix_of(termdag@)) by {
                assert(termdag@.subrange(0, termdag@.len() as int) =~= termdag@);
            }
            lemma_unpack_bounds(value.bits);
        }
        let hi = value.bits >> 32;
        let lo = value.bits & 0xFFFF_FFFF;
        match extractor.best_of(hi) {
            Some(pair) => {
                let cost = if pair.0 == usize::MAX {
                    pair.0
                } else {
                    pair.0 + 1
                };
                let args = ExprList::Cons(
                    Box::new(pair.1),
                    Box::new(ExprList::Cons(Box::new(Expr::Lit(lo as i64)), Box::new(ExprList::Nil))),
                );
                Some((cost, Expr::Call(self.name, args)))
            },
            None => None,
        }
    }
}

} // verus!
