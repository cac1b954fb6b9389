use vstd::prelude::*;

verus! {

/// Identifier of a registered sort. The surrounding engine interns sort
/// names; inside this core a symbol is just the interned id, and two sorts
/// are the same exactly when their symbols are equal.
#[derive(Clone, Copy, PartialEq, Eq, Structural, Hash, Debug, PartialOrd, Ord)]
pub struct Symbol(pub u64);

/// The universal fixed-width representation of a datum of some sort.
///
/// `bits` is interpreted only by the sort whose identifier equals `tag`:
/// it may directly hold a primitive, an equivalence-class identifier, or a
/// handle into an external interning table. The pair is small, copyable,
/// totally ordered and hashable, so the surrounding storage engine can
/// treat all domain data uniformly.
#[derive(Clone, Copy, PartialEq, Eq, Structural, Hash, Debug, PartialOrd, Ord)]
pub struct Value {
    pub tag: Symbol,
    pub bits: u64,
}

impl Value {
    /// Build a value of the sort identified by `tag` with payload `bits`.
    pub fn new(tag: Symbol, bits: u64) -> (r: Value)
        ensures
            r == (Value { tag, bits }),
    {
        Value { tag, bits }
    }
}

} // verus!
