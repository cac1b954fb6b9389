use sortcore::eq_sort::EqSort;
use sortcore::i64_sort::I64Sort;
use sortcore::pair_sort::PairSort;
use sortcore::sort::Sort;
use sortcore::unionfind::UnionFind;
use sortcore::value::{Symbol, Value};

fn five_ids(uf: &mut UnionFind) {
    for _ in 0..5 {
        uf.make_set();
    }
}

#[test]
fn eqsort_rewrites_to_canonical() {
    let mut uf = UnionFind::new();
    five_ids(&mut uf);
    let r = uf.union(3, 4);
    assert_eq!(r, 3);
    let math = EqSort { name: Symbol(1) };
    let mut v = Value { tag: Symbol(1), bits: 4 };
    assert!(math.canonicalize(&mut v, &uf));
    assert_eq!(v, Value { tag: Symbol(1), bits: 3 });
    assert!(!math.canonicalize(&mut v, &uf));
    assert_eq!(v.bits, 3);
}

#[test]
fn eqsort_canonical_value_unchanged() {
    let mut uf = UnionFind::new();
    five_ids(&mut uf);
    uf.union(3, 4);
    let math = EqSort { name: Symbol(1) };
    let mut v = Value { tag: Symbol(1), bits: 3 };
    assert!(!math.canonicalize(&mut v, &uf));
    assert_eq!(v.bits, 3);
}

#[test]
fn i64_canonicalize_is_noop() {
    let mut uf = UnionFind::new();
    five_ids(&mut uf);
    let ints = I64Sort { name: Symbol(2) };
    let mut v = Value { tag: Symbol(2), bits: 42 };
    assert!(!ints.canonicalize(&mut v, &uf));
    assert_eq!(v, Value { tag: Symbol(2), bits: 42 });
}

#[test]
fn pair_canonicalize_rewrites_embedded_class() {
    let mut uf = UnionFind::new();
    five_ids(&mut uf);
    uf.union(3, 4);
    let pair = PairSort { name: Symbol(5), class_sort: Symbol(1), payload_sort: Symbol(2) };
    let mut v = Value { tag: Symbol(5), bits: (4u64 << 32) | 9 };
    assert!(pair.canonicalize(&mut v, &uf));
    assert_eq!(v.bits, (3u64 << 32) | 9);
    assert!(!pair.canonicalize(&mut v, &uf));
    assert_eq!(v.bits, (3u64 << 32) | 9);
}

#[test]
fn union_find_merges_classes() {
    let mut uf = UnionFind::new();
    five_ids(&mut uf);
    assert_eq!(uf.len(), 5);
    assert_eq!(uf.find(4), 4);
    uf.union(3, 4);
    assert_eq!(uf.find(4), 3);
    assert_eq!(uf.find(3), 3);
    assert_eq!(uf.find(2), 2);
}

#[test]
fn union_canonical_is_first_argument() {
    let mut uf = UnionFind::new();
    five_ids(&mut uf);
    let r = uf.union(1, 0);
    assert_eq!(r, 1);
    assert_eq!(uf.find(0), 1);
    let r2 = uf.union(2, 1);
    assert_eq!(r2, 2);
    assert_eq!(uf.find(0), 2);
    assert_eq!(uf.find(1), 2);
}

#[test]
fn capability_flags() {
    let math = EqSort { name: Symbol(1) };
    assert!(math.is_eq_sort());
    assert!(!math.is_container_sort());
    assert!(!math.is_eq_container_sort());
    let ints = I64Sort { name: Symbol(2) };
    assert!(!ints.is_eq_sort());
    assert!(!ints.is_container_sort());
    assert!(!ints.is_eq_container_sort());
    let pair = PairSort { name: Symbol(5), class_sort: Symbol(1), payload_sort: Symbol(2) };
    assert!(!pair.is_eq_sort());
    assert!(pair.is_container_sort());
    assert!(pair.is_eq_container_sort());
    assert_eq!(math.name(), Symbol(1));
    assert_eq!(ints.name(), Symbol(2));
    assert_eq!(pair.name(), Symbol(5));
}

#[test]
fn pair_canonicalize_keeps_full_payload() {
    let mut uf = UnionFind::new();
    five_ids(&mut uf);
    uf.union(0, 1);
    let pair = PairSort { name: Symbol(5), class_sort: Symbol(1), payload_sort: Symbol(2) };
    let mut v = Value { tag: Symbol(5), bits: (1u64 << 32) | 0xFFFF_FFFF };
    assert!(pair.canonicalize(&mut v, &uf));
    assert_eq!(v.bits, 0xFFFF_FFFF);
    assert!(!pair.canonicalize(&mut v, &uf));
}

#[test]
fn empty_union_find_has_no_ids() {
    let uf = UnionFind::new();
    assert_eq!(uf.len(), 0);
}
