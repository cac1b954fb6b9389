use sortcore::eq_sort::EqSort;
use sortcore::expr::{Expr, ExprList};
use sortcore::extract::{Extractor, TermDag};
use sortcore::i64_sort::I64Sort;
use sortcore::pair_sort::PairSort;
use sortcore::presort::{EqSortFactory, PreSort, TypeError};
use sortcore::sort::Sort;
use sortcore::value::{Symbol, Value};

#[test]
fn eqsort_extracts_best_known_expression() {
    let math = EqSort { name: Symbol(1) };
    let mut extractor = Extractor::new(5);
    extractor.set_best(3, 1, Expr::Lit(7));
    let mut termdag = TermDag::new();
    let v = Value { tag: Symbol(1), bits: 3 };
    let got = math.extract_expr(v, &extractor, &mut termdag);
    assert_eq!(got, Some((1, Expr::Lit(7))));
}

#[test]
fn eqsort_extraction_not_ready_without_best() {
    let math = EqSort { name: Symbol(1) };
    let extractor = Extractor::new(5);
    let mut termdag = TermDag::new();
    let v = Value { tag: Symbol(1), bits: 3 };
    assert_eq!(math.extract_expr(v, &extractor, &mut termdag), None);
}

#[test]
fn i64_extract_equals_make_expr() {
    let ints = I64Sort { name: Symbol(2) };
    let v = Value { tag: Symbol(2), bits: 42 };
    let made = ints.make_expr(v);
    assert_eq!(made, (1, Expr::Lit(42)));
    let extractor = Extractor::new(0);
    let mut termdag = TermDag::new();
    let got = ints.extract_expr(v, &extractor, &mut termdag);
    assert_eq!(got, Some((1, Expr::Lit(42))));
}

#[test]
fn pair_extracts_call_with_child_and_payload() {
    let pair = PairSort { name: Symbol(5), class_sort: Symbol(1), payload_sort: Symbol(2) };
    let mut extractor = Extractor::new(5);
    extractor.set_best(3, 1, Expr::Lit(7));
    let mut termdag = TermDag::new();
    let v = Value { tag: Symbol(5), bits: (3u64 << 32) | 9 };
    let got = pair.extract_expr(v, &extractor, &mut termdag);
    let expected_args = ExprList::Cons(
        Box::new(Expr::Lit(7)),
        Box::new(ExprList::Cons(Box::new(Expr::Lit(9)), Box::new(ExprList::Nil))),
    );
    assert_eq!(got, Some((2, Expr::Call(Symbol(5), expected_args))));
}

#[test]
fn pair_not_extractable_until_child_ready() {
    let pair = PairSort { name: Symbol(5), class_sort: Symbol(1), payload_sort: Symbol(2) };
    let extractor = Extractor::new(5);
    let mut termdag = TermDag::new();
    let v = Value { tag: Symbol(5), bits: (3u64 << 32) | 9 };
    assert_eq!(pair.extract_expr(v, &extractor, &mut termdag), None);
}

#[test]
fn set_best_overwrites() {
    let mut extractor = Extractor::new(4);
    extractor.set_best(2, 9, Expr::Lit(1));
    extractor.set_best(2, 3, Expr::Lit(8));
    assert_eq!(extractor.best_of(2), Some((3, Expr::Lit(8))));
    assert_eq!(extractor.best_of(1), None);
    assert_eq!(extractor.best_of(100), None);
}

#[test]
fn termdag_appends() {
    let mut termdag = TermDag::new();
    assert_eq!(termdag.len(), 0);
    let i = termdag.add(Expr::Lit(7));
    let j = termdag.add(Expr::Var(Symbol(3)));
    assert_eq!((i, j), (0, 1));
    assert_eq!(termdag.len(), 2);
    assert_eq!(*termdag.term(0), Expr::Lit(7));
    assert_eq!(*termdag.term(1), Expr::Var(Symbol(3)));
}

#[test]
fn duplicate_preserves_structure() {
    let e = Expr::Call(
        Symbol(5),
        ExprList::Cons(
            Box::new(Expr::Lit(7)),
            Box::new(ExprList::Cons(Box::new(Expr::Var(Symbol(3))), Box::new(ExprList::Nil))),
        ),
    );
    assert_eq!(e.duplicate(), e);
}

#[test]
fn eqsort_factory_builds_named_sort() {
    let made = EqSortFactory.make_sort(Symbol(1), &Vec::new());
    let sort = made.expect("no parameters means a well-formed declaration");
    assert_eq!(sort.name(), Symbol(1));
    assert!(sort.is_eq_sort());
}

#[test]
fn eqsort_factory_rejects_parameters() {
    let params = vec![Expr::Lit(0)];
    let made = EqSortFactory.make_sort(Symbol(1), &params);
    assert_eq!(made, Err(TypeError::ArityMismatch(Symbol(1))));
}
