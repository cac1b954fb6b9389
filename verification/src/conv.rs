use vstd::prelude::*;
use crate::i64_sort::I64Sort;
use crate::sort::Sort;
use crate::value::Value;

verus! {

/// Converts a previously stored value back into the native domain value.
///
/// The caller must hand the value to the sort that owns it — the tag must
/// match — and under that precondition the conversion is total: it only
/// decodes bits that the matching [`IntoSort`] implementation produced, so
/// no validation branch is needed.
pub trait FromSort: Sized {
    type Sort: Sort;

    /// The native value encoded by `value` under `sort`.
    spec fn spec_load(sort: &Self::Sort, value: Value) -> Self;

    fn load(sort: &Self::Sort, value: &Value) -> (r: Self)
        requires
            value.tag == sort.spec_name(),
        ensures
            r == Self::spec_load(sort, *value),
    ;
}

/// Converts a native domain value into a stored value under a specific
/// sort instance. The conversion may fail — an absent result means the
/// value has no representation under this sort right now — which is a
/// typed failure channel of its own, distinct from canonicalization and
/// extraction.
pub trait IntoSort: Sized {
    type Sort: Sort;

    /// The stored form of `self` under `sort`, or nothing when `self`
    /// cannot be represented.
    spec fn spec_store(self, sort: &Self::Sort) -> Option<Value>;

    fn store(self, sort: &Self::Sort) -> (r: Option<Value>)
        ensures
            r == self.spec_store(sort),
    ;
}

impl FromSort for i64 {
    type Sort = I64Sort;

    /// The bits are the integer's two's-complement pattern.
    open spec fn spec_load(sort: &I64Sort, value: Value) -> i64 {
        value.bits as i64
    }

    fn load(sort: &I64Sort, value: &Value) -> (r: i64) {
        #[verifier::truncate] (value.bits as i64)
    }
}

impl IntoSort for i64 {
    type Sort = I64Sort;

    /// Storing an integer always succeeds and tags the value with the
    /// sort's own name.
    open spec fn spec_store(self, sort: &I64Sort) -> Option<Value> {
        Some(Value { tag: sort.spec_name(), bits: self as u64 })
    }

    fn store(self, sort: &I64Sort) -> (r: Option<Value>) {
        Some(Value { tag: sort.name(), bits: #[verifier::truncate] (self as u64) })
    }
}

/// Optionality short-circuits through conversion: storing an absent native
/// value stores nothing, and storing a present one stores exactly what the
/// inner conversion stores.
impl<T: IntoSort> IntoSort for Option<T> {
    type Sort = T::Sort;

    open spec fn spec_store(self, sort: &T::Sort) -> Option<Value> {
        match self {
            Option::None => Option::None,
            Option::Some(inner) => inner.spec_store(sort),
        }
    }

    fn store(self, sort: &T::Sort) -> (r: Option<Value>) {
        match self {
            Option::None => Option::None,
            Option::Some(inner) => inner.store(sort),
        }
    }
}

/// The short-circuit law of optional conversion, for every inner type and
/// sort: an absent native value always stores as absent, and a present one
/// stores exactly as its inner value does.
pub proof fn lemma_option_store_short_circuit<T: IntoSort>(x: Option<T>, sort: &T::Sort)
    ensures
        x is None ==> x.spec_store(sort) is None,
        forall|inner: T| x == Some(inner) ==> x.spec_store(sort) == inner.spec_store(sort),
{
}

/// Integer round trip: a stored integer is a present value that loads back
/// to exactly the integer that was stored.
pub proof fn lemma_i64_round_trip(x: i64, sort: &I64Sort)
    ensures
        x.spec_store(sort) is Some,
        x.spec_store(sort).unwrap().tag == sort.spec_name(),
        <i64 as FromSort>::spec_load(sort, x.spec_store(sort).unwrap()) == x,
{
    assert(((x as u64) as i64) == x) by (bit_vector);
}

} // verus!
