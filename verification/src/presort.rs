use vstd::prelude::*;
use crate::eq_sort::EqSort;
use crate::expr::Expr;
use crate::sort::Sort;
use crate::value::Symbol;

verus! {

/// The reportable diagnostic of declaration-time sort construction: the
/// one non-fatal error channel of this core, surfaced to the user as a
/// type error rather than a failure of the engine.
#[derive(Clone, Copy, PartialEq, Eq, Structural, Debug)]
pub enum TypeError {
    /// The sort was declared with the wrong number of parameters.
    ArityMismatch(Symbol),
}

/// The factory contract: given a proposed sort name and the declaration's
/// parameter expressions, produce a usable sort instance or a reportable
/// type error. Parameterized sorts are instantiated on demand through
/// this contract, and it is the only place sort construction may fail
/// with a diagnostic.
pub trait PreSort {
    type Out: Sort;

    /// The instance or error that construction yields.
    spec fn spec_make(&self, name: Symbol, params: Seq<Expr>) -> Result<Self::Out, TypeError>;

    fn make_sort(&self, name: Symbol, params: &Vec<Expr>) -> (r: Result<Self::Out, TypeError>)
        ensures
            r == self.spec_make(name, params@),
    ;
}

/// Factory for equivalence-class sorts, which take no parameters: any
/// parameter in the declaration is an arity mismatch.
#[derive(Clone, Copy, Debug)]
pub struct EqSortFactory;

impl PreSort for EqSortFactory {
    type Out = EqSort;

    /// Construction succeeds exactly on an empty parameter list, and the
    /// resulting sort carries the declared name.
    open spec fn spec_make(&self, name: Symbol, params: Seq<Expr>) -> Result<EqSort, TypeError> {
        if params.len() == 0 {
            Ok(EqSort { name })
        } else {
            Err(TypeError::ArityMismatch(name))
        }
    }

    fn make_sort(&self, name: Symbol, params: &Vec<Expr>) -> (r: Result<EqSort, TypeError>) {
        if params.len() == 0 {
            Ok(EqSort { name })
        } else {
            Err(TypeError::ArityMismatch(name))
        }
    }
}

} // verus!
