use circuit_symbols::{
    AllocOverflow, Bit, CircuitBuilder, CircuitSymbol, CircuitSymbolPrivate, FormalParameter,
    List, Qubit, DEFAULT_MAX,
};

#[test]
fn alloc_one_returns_counter_then_advances() {
    let mut b = CircuitBuilder::new(1);
    let q0: Qubit = b.alloc_one().unwrap();
    let q1: Qubit = b.alloc_one().unwrap();
    assert_eq!(q0.id(), 0);
    assert_eq!(q1.id(), 1);
    assert_eq!(b.qubit_count, 2);
    assert_eq!(b.bit_count, 0);
    assert_eq!(b.parameter_count, 0);
    let c: Bit = b.alloc_one().unwrap();
    assert_eq!(c.id(), 0);
    assert_eq!(b.bit_count, 1);
    assert_eq!(c.circuit(), 1);
}

#[test]
fn alloc_n_gives_consecutive_indices() {
    let mut b = CircuitBuilder::new(2);
    let _: FormalParameter = b.alloc_one().unwrap();
    let arr: [FormalParameter; 4] = b.alloc_n().unwrap();
    let ids: Vec<u32> = arr.iter().map(|s| s.id()).collect();
    assert_eq!(ids, vec![1, 2, 3, 4]);
    assert_eq!(b.parameter_count, 5);
}

#[test]
fn alloc_n_matches_sequential_allocs() {
    let mut batch = CircuitBuilder::new(0);
    let mut single = CircuitBuilder::new(0);
    let arr: [Qubit; 3] = batch.alloc_n().unwrap();
    for s in arr.iter() {
        let t: Qubit = single.alloc_one().unwrap();
        assert_eq!(*s, t);
    }
    assert_eq!(batch, single);
}

#[test]
fn alloc_n_of_zero_reserves_nothing() {
    let mut b = CircuitBuilder::new(0);
    let arr: [Qubit; 0] = b.alloc_n().unwrap();
    assert!(arr.is_empty());
    assert_eq!(b.qubit_count, 0);
}

#[test]
fn overflow_leaves_counter_unchanged() {
    let mut b = CircuitBuilder::new(0);
    b.qubit_count = DEFAULT_MAX - 3;
    let r: Result<[Qubit; 3], AllocOverflow> = b.alloc_n();
    assert_eq!(r.err(), Some(AllocOverflow));
    assert_eq!(b.qubit_count, DEFAULT_MAX - 3);
    let ok: [Qubit; 2] = b.alloc_n().unwrap();
    assert_eq!(ok[1].id(), DEFAULT_MAX - 2);
    assert_eq!(b.qubit_count, DEFAULT_MAX - 1);
}

#[test]
fn alloc_list_boundary() {
    let mut b = CircuitBuilder::new(0);
    b.bit_count = 10;
    let r = b.alloc_list::<Bit>(DEFAULT_MAX - 10);
    assert!(r.is_err());
    assert_eq!(b.bit_count, 10);
    let l = b.alloc_list::<Bit>(DEFAULT_MAX - 11).unwrap();
    assert_eq!(l.range(), 10..DEFAULT_MAX - 1);
    assert_eq!(b.bit_count, DEFAULT_MAX - 1);
    assert!(b.alloc_list::<Bit>(1).is_err());
    assert_eq!(b.alloc_list::<Bit>(0).unwrap().len(), 0);
    assert_eq!(b.bit_count, DEFAULT_MAX - 1);
}

#[test]
fn last_single_alloc_before_max_then_overflow() {
    let mut b = CircuitBuilder::new(0);
    b.qubit_count = DEFAULT_MAX - 2;
    let last: Qubit = b.alloc_one().unwrap();
    assert_eq!(last.id(), DEFAULT_MAX - 2);
    assert_eq!(b.qubit_count, DEFAULT_MAX - 1);
    let r: Result<Qubit, AllocOverflow> = b.alloc_one();
    assert_eq!(r, Err(AllocOverflow));
    assert_eq!(b.qubit_count, DEFAULT_MAX - 1);
}

#[test]
fn list_get_and_contains() {
    let mut b = CircuitBuilder::new(5);
    b.qubit_count = 3;
    let l = b.alloc_list::<Qubit>(4).unwrap();
    assert_eq!(l.len(), 4);
    assert_eq!(l.range(), 3..7);
    for i in 0..4usize {
        assert_eq!(l.get(i).unwrap().id(), 3 + i as u32);
    }
    assert!(l.get(4).is_none());
    assert!(l.get(usize::MAX).is_none());
    assert!(l.contains(Qubit::new(5, 3)));
    assert!(l.contains(Qubit::new(5, 6)));
    assert!(!l.contains(Qubit::new(5, 7)));
    assert!(!l.contains(Qubit::new(5, 2)));
}

#[test]
fn list_iter_walks_ascending() {
    let mut b = CircuitBuilder::new(0);
    let l = b.alloc_list::<Bit>(3).unwrap();
    let mut it = l.iter();
    let mut seen = Vec::new();
    while let Some(s) = it.next() {
        seen.push(s.id());
    }
    assert_eq!(seen, vec![0, 1, 2]);
    assert!(it.next().is_none());
    let mut again = l.iter();
    assert_eq!(again.next().unwrap().id(), 0);
}

#[test]
fn empty_list() {
    let mut b = CircuitBuilder::new(0);
    let l = b.alloc_list::<Qubit>(0).unwrap();
    assert_eq!(l.len(), 0);
    assert!(l.get(0).is_none());
    assert!(l.iter().next().is_none());
    assert!(!l.contains(Qubit::new(0, 0)));
}

#[test]
fn list_from_endpoints() {
    let a = Qubit::new(1, 2);
    let z = Qubit::new(1, 5);
    let l = List::from_endpoints(a, z).unwrap();
    assert_eq!(l.range(), 2..5);
    assert!(List::from_endpoints(z, a).is_none());
    let same = List::from_endpoints(a, a).unwrap();
    assert_eq!(same.len(), 0);
}

#[test]
fn list_of_one_symbol() {
    let l = List::of(Bit::new(0, 9));
    assert_eq!(l.range(), 9..10);
    assert_eq!(l.len(), 1);
    assert!(l.contains(Bit::new(0, 9)));
}

#[test]
fn foreign_symbols_are_rejected() {
    let mut a = CircuitBuilder::new(1);
    let mut b = CircuitBuilder::new(2);
    let la = a.alloc_list::<Qubit>(3).unwrap();
    let qb: Qubit = b.alloc_one().unwrap();
    assert_eq!(qb.id(), 0);
    assert!(!la.contains(qb));
    let qa: Qubit = la.get(2).unwrap();
    assert!(List::from_endpoints(qb, qa).is_none());
}

#[test]
fn pair_and_triple_allocation() {
    let mut b = CircuitBuilder::new(0);
    let (q, c): (Qubit, Bit) = b.alloc_pair().unwrap();
    assert_eq!((q.id(), c.id()), (0, 0));
    let (q1, q2, f): (Qubit, Qubit, FormalParameter) = b.alloc_triple().unwrap();
    assert_eq!((q1.id(), q2.id(), f.id()), (1, 2, 0));
    assert_eq!((b.qubit_count, b.bit_count, b.parameter_count), (3, 1, 1));
}

#[test]
fn tuple_allocation_keeps_prefix_on_overflow() {
    let mut b = CircuitBuilder::new(0);
    b.bit_count = DEFAULT_MAX - 1;
    let r: Result<(Qubit, Bit, FormalParameter), AllocOverflow> = b.alloc_triple();
    assert_eq!(r, Err(AllocOverflow));
    assert_eq!(b.qubit_count, 1);
    assert_eq!(b.bit_count, DEFAULT_MAX - 1);
    assert_eq!(b.parameter_count, 0);
}

#[test]
fn symbols_order_by_index() {
    let mut b = CircuitBuilder::new(0);
    let x: Qubit = b.alloc_one().unwrap();
    let y: Qubit = b.alloc_one().unwrap();
    assert!(x < y);
    assert_ne!(x, y);
    assert_eq!(x, Qubit::new(0, 0));
}
