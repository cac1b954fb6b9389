use vstd::prelude::*;
use crate::value::Symbol;

verus! {

/// Totally ordered measure used to pick a cheapest reconstruction.
pub type Cost = usize;

/// A concrete syntactic expression reconstructed from stored values: an
/// integer literal, a variable, or an application of a named head to a
/// list of argument expressions.
#[derive(Debug, PartialEq, Eq)]
pub enum Expr {
    Lit(i64),
    Var(Symbol),
    Call(Symbol, ExprList),
}

/// The argument list of a call expression.
#[derive(Debug, PartialEq, Eq)]
pub enum ExprList {
    Nil,
    Cons(Box<Expr>, Box<ExprList>),
}

impl Expr {
    /// A structurally equal copy of the expression.
    pub fn duplicate(&self) -> (r: Expr)
        ensures
            r == *self,
        decreases *self,
    {
        match self {
            Expr::Lit(n) => Expr::Lit(*n),
            Expr::Var(s) => Expr::Var(*s),
            Expr::Call(head, args) => Expr::Call(*head, args.duplicate()),
        }
    }
}

impl ExprList {
    /// A structurally equal copy of the argument list.
    pub fn duplicate(&self) -> (r: ExprList)
        ensures
            r == *self,
        decreases *self,
    {
        match self {
            ExprList::Nil => ExprList::Nil,
            ExprList::Cons(first, rest) => ExprList::Cons(
                Box::new(first.duplicate()),
                Box::new(rest.duplicate()),
            ),
        }
    }

    /// How many arguments the list holds.
    pub open spec fn spec_len(&self) -> nat
        decreases *self,
    {
        match *self {
            ExprList::Nil => 0,
            ExprList::Cons(_, rest) => 1 + rest.spec_len(),
        }
    }
}

} // verus!
