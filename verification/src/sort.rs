use vstd::prelude::*;
use crate::expr::{Cost, Expr};
use crate::extract::{Extractor, TermDag};
use crate::unionfind::{uf_wf, UnionFind};
use crate::value::{Symbol, Value};

verus! {

/// What a sort exposes about itself to consumers that hold one of its
/// values: its identity and its capability flags. Container sorts hand out
/// one descriptor per direct child from [`Sort::inner_values`], which is how
/// traversal learns each child's owning sort without knowing the container's
/// layout.
#[derive(Clone, Copy, PartialEq, Eq, Structural, Debug)]
pub struct SortDesc {
    pub name: Symbol,
    pub eq_sort: bool,
    pub container_sort: bool,
    pub eq_container_sort: bool,
}

/// The values among `children` whose owning sort is an equivalence-class
/// sort, in order: exactly the class references that the engine must track.
pub open spec fn tracked_values(children: Seq<(SortDesc, Value)>) -> Seq<Value>
    decreases children.len(),
{
    if children.len() == 0 {
        Seq::empty()
    } else {
        let rest = tracked_values(children.drop_last());
        if children.last().0.eq_sort {
            rest.push(children.last().1)
        } else {
            rest
        }
    }
}

/// Per-type behaviour of stored values: identity, capability flags,
/// canonicalization against a union-find, traversal of nested values, and
/// cost-aware reconstruction of concrete expressions.
///
/// A sort is a stateless descriptor shared read-only by every consumer;
/// none of these operations mutates the sort itself. A `Value` may only be
/// handed to the sort whose identifier equals its `tag`; the contracts
/// below enforce that caller obligation.
pub trait Sort: Sized {
    /// The sort's identifier, stored as the `tag` of every value it owns.
    spec fn spec_name(&self) -> Symbol;

    fn name(&self) -> (r: Symbol)
        ensures
            r == self.spec_name(),
    ;

    /// Whether values of this sort are bare equivalence-class references.
    fn is_eq_sort(&self) -> (r: bool)
        default_ensures
            !r,
    {
        false
    }

    /// Whether values of this sort embed other values.
    fn is_container_sort(&self) -> (r: bool)
        default_ensures
            !r,
    {
        false
    }

    /// Whether this is a container sort that transitively embeds
    /// equivalence-class references. Only sorts with `is_eq_sort` or
    /// `is_eq_container_sort` participate in canonicalization and tracked
    /// traversal; pure data sorts skip both passes.
    fn is_eq_container_sort(&self) -> (r: bool)
        default_ensures
            !r,
    {
        false
    }

    /// The direct children of a value of this sort, each with its owning
    /// sort's descriptor; empty for an atomic sort.
    spec fn spec_inner_values(&self, v: Value) -> Seq<(SortDesc, Value)>;

    fn inner_values(&self, value: &Value) -> (r: Vec<(SortDesc, Value)>)
        requires
            value.tag == self.spec_name(),
        ensures
            r@ == self.spec_inner_values(*value),
    ;

    /// The direct children whose sort is an equivalence-class sort: every
    /// class reference reachable one step down from `value`. A sort whose
    /// immediate children are themselves containers of class references
    /// must override this to recurse, since this shallow walk only looks
    /// one level deep.
    fn foreach_tracked_values(&self, value: &Value) -> (r: Vec<Value>)
        requires
            value.tag == self.spec_name(),
        ensures
            r@ == tracked_values(self.spec_inner_values(*value)),
    {
        let children = self.inner_values(value);
        let mut out: Vec<Value> = Vec::new();
        let n = children.len();
        let mut i: usize = 0;
        while i < n
            invariant
                n == children@.len(),
                i <= n,
                children@ == self.spec_inner_values(*value),
                out@ == tracked_values(children@.subrange(0, i as int)),
            decreases n - i,
        {
            proof {
                assert(children@.subrange(0, i + 1 as int).drop_last() =~= children@.subrange(
                    0,
                    i as int,
                ));
                assert(children@.subrange(0, i + 1 as int).last() == children@[i as int]);
            }
            if children[i].0.eq_sort {
                out.push(children[i].1);
            }
            i += 1;
        }
        proof {
            assert(children@.subrange(0, n as int) =~= children@);
        }
        out
    }

    /// When a value of this sort may be handed to `canonicalize`: its
    /// embedded class references, if any, must be ids of the union-find.
    spec fn canon_pre(&self, v: Value, uf: Seq<u64>) -> bool;

    /// The canonical form of `v`: the same value with every embedded
    /// equivalence-class reference replaced by its canonical representative.
    /// For a sort with no embedded references this is `v` itself.
    spec fn spec_canonical(&self, v: Value, uf: Seq<u64>) -> Value;

    /// Rewrite `value` in place to its canonical form against `uf` and
    /// report whether anything changed.
    fn canonicalize(&self, value: &mut Value, uf: &UnionFind) -> (changed: bool)
        requires
            old(value).tag == self.spec_name(),
            uf.wf(),
            self.canon_pre(*old(value), uf@),
        ensures
            *final(value) == self.spec_canonical(*old(value), uf@),
            changed == (*final(value) != *old(value)),
    ;

    /// Canonicalization keeps the value's tag, keeps it fit for another
    /// round, and a second round changes nothing: a value already in
    /// canonical form is left exactly as it is.
    proof fn lemma_canonical_idempotent(&self, v: Value, uf: Seq<u64>)
        requires
            uf_wf(uf),
            v.tag == self.spec_name(),
            self.canon_pre(v, uf),
        ensures
            self.spec_canonical(v, uf).tag == v.tag,
            self.canon_pre(self.spec_canonical(v, uf), uf),
            self.spec_canonical(self.spec_canonical(v, uf), uf) == self.spec_canonical(v, uf),
    ;

    /// Whether `make_expr` is meaningful for this value. A sort that cannot
    /// reconstruct an expression without the extractor's help — an
    /// equivalence-class sort, whose value is merely a class id — answers
    /// `false` for every value, and a call to `make_expr` on it is a caller
    /// bug that fails fast instead of returning.
    spec fn make_expr_allowed(&self, v: Value) -> bool;

    /// The expression and cost that `make_expr` reconstructs.
    spec fn spec_make_expr(&self, v: Value) -> (Cost, Expr);

    /// Reconstruct a concrete expression and its cost directly from a
    /// value, with no recursive help.
    fn make_expr(&self, value: Value) -> (r: (Cost, Expr))
        requires
            value.tag == self.spec_name(),
            self.make_expr_allowed(value),
        ensures
            r == self.spec_make_expr(value),
    ;

    /// What extraction yields for `v` given the extractor's best-known
    /// table: either a cost and expression, or nothing when some embedded
    /// class has no extracted representative yet and the surrounding
    /// fixpoint must try again later.
    spec fn spec_extract(&self, v: Value, best: Map<u64, (Cost, Expr)>) -> Option<(Cost, Expr)>;

    /// The extraction entry point used by the engine. Unlike `make_expr`
    /// it is never a misuse to call: a value that is not yet extractable
    /// yields nothing rather than failing. Extraction may allocate into
    /// the shared term store but never removes or rewrites what is there.
    fn extract_expr(&self, value: Value, extractor: &Extractor, termdag: &mut TermDag) -> (r:
        Option<(Cost, Expr)>)
        requires
            value.tag == self.spec_name(),
        ensures
            r == self.spec_extract(value, extractor@),
            old(termdag)@.is_prefix_of(final(termdag)@),
    ;
}

/// An atomic value has no children, so the tracked traversal finds
/// nothing: a sort that declares no inner values never reports a class
/// reference, whatever the value.
pub proof fn lemma_no_children_nothing_tracked<S: Sort>(sort: &S, v: Value)
    requires
        sort.spec_inner_values(v).len() == 0,
    ensures
        tracked_values(sort.spec_inner_values(v)).len() == 0,
{
}

} // verus!
