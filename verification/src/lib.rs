//! Value-and-sort core of an equality-saturation engine.
//!
//! An e-graph stores every datum as a flat, fixed-width [`value::Value`];
//! the behaviour of those values — canonicalization against a union-find,
//! traversal of nested values, and cost-aware reconstruction of concrete
//! expressions — is supplied per type by implementations of the
//! [`sort::Sort`] capability trait. Typed native data moves in and out of
//! stored values through the [`conv::FromSort`] and [`conv::IntoSort`]
//! conversion contracts.

pub mod conv;
pub mod eq_sort;
pub mod expr;
pub mod extract;
pub mod i64_sort;
pub mod pair_sort;
pub mod presort;
pub mod sort;
pub mod unionfind;
pub mod value;
