use vstd::prelude::*;

use std::marker::PhantomData;
use std::ops::Range;

use crate::builder::{CircuitBuilder, SymbolKind};

verus! {

/// Construction of symbols; meant for the allocator and for interop.
pub trait CircuitSymbolPrivate: Sized + Copy {
    /// The kind of resource this symbol type names.
    spec fn spec_kind() -> SymbolKind;

    /// The symbol's index.
    spec fn spec_index(self) -> u32;

    /// The circuit the symbol belongs to.
    spec fn spec_circuit(self) -> u32;

    fn kind() -> (r: SymbolKind)
        ensures
            r == Self::spec_kind(),
    ;

    /// A symbol of circuit `circuit` with index `n`, without any check: the
    /// caller answers for the index having been allocated in that circuit.
    fn new(circuit: u32, n: u32) -> (r: Self)
        ensures
            r.spec_index() == n,
            r.spec_circuit() == circuit,
    ;

    /// The circuit the symbol belongs to.
    fn circuit(self) -> (r: u32)
        ensures
            r == self.spec_circuit(),
    ;

    /// The list over the half-open index range `range` of circuit `circuit`,
    /// without any check that those indices were allocated.
    fn list(circuit: u32, range: Range<u32>) -> (r: List<Self>)
        requires
            range.start <= range.end,
        ensures
            r.start_index() == range.start,
            r.end_index() == range.end,
            r.circuit_id() == circuit,
    {
        List { start: range.start, end: range.end, circuit, _phantom: PhantomData }
    }

    /// Mutable access to the counter of this kind in `circ`.
    fn count(circ: &mut CircuitBuilder) -> (r: &mut u32)
        ensures
            *r == old(circ).count(Self::spec_kind()),
            *final(circ) == old(circ).with_count(Self::spec_kind(), *final(r)),
    ;
}

/// A circuit symbol: a resource index scoped to one circuit.
pub trait CircuitSymbol: CircuitSymbolPrivate {
    /// The symbol's index.
    fn id(self) -> (r: u32)
        ensures
            r == self.spec_index(),
    ;
}

/// A qubit of a circuit.
#[derive(Clone, Copy, PartialEq, Eq, PartialOrd, Ord, Hash, Debug, Structural)]
pub struct Qubit {
    n: u32,
    circuit: u32,
}

impl CircuitSymbolPrivate for Qubit {
    open spec fn spec_kind() -> SymbolKind {
        SymbolKind::Qubit
    }

    closed spec fn spec_index(self) -> u32 {
        self.n
    }

    closed spec fn spec_circuit(self) -> u32 {
        self.circuit
    }

    fn kind() -> (r: SymbolKind) {
        SymbolKind::Qubit
    }

    fn new(circuit: u32, n: u32) -> (r: Self) {
        Qubit { n, circuit }
    }

    fn circuit(self) -> (r: u32) {
        self.circuit
    }

    fn count(circ: &mut CircuitBuilder) -> (r: &mut u32) {
        circ.count_mut(SymbolKind::Qubit)
    }
}

impl CircuitSymbol for Qubit {
    fn id(self) -> (r: u32) {
        self.n
    }
}

/// A classical bit of a circuit.
#[derive(Clone, Copy, PartialEq, Eq, PartialOrd, Ord, Hash, Debug, Structural)]
pub struct Bit {
    n: u32,
    circuit: u32,
}

impl CircuitSymbolPrivate for Bit {
    open spec fn spec_kind() -> SymbolKind {
        SymbolKind::Bit
    }

    closed spec fn spec_index(self) -> u32 {
        self.n
    }

    closed spec fn spec_circuit(self) -> u32 {
        self.circuit
    }

    fn kind() -> (r: SymbolKind) {
        SymbolKind::Bit
    }

    fn new(circuit: u32, n: u32) -> (r: Self) {
        Bit { n, circuit }
    }

    fn circuit(self) -> (r: u32) {
        self.circuit
    }

    fn count(circ: &mut CircuitBuilder) -> (r: &mut u32) {
        circ.count_mut(SymbolKind::Bit)
    }
}

impl CircuitSymbol for Bit {
    fn id(self) -> (r: u32) {
        self.n
    }
}

/// A formal parameter of a circuit: an unbound numeric placeholder.
#[derive(Clone, Copy, PartialEq, Eq, PartialOrd, Ord, Hash, Debug, Structural)]
pub struct FormalParameter {
    n: u32,
    circuit: u32,
}

impl CircuitSymbolPrivate for FormalParameter {
    open spec fn spec_kind() -> SymbolKind {
        SymbolKind::FormalParameter
    }

    closed spec fn spec_index(self) -> u32 {
        self.n
    }

    closed spec fn spec_circuit(self) -> u32 {
        self.circuit
    }

    fn kind() -> (r: SymbolKind) {
        SymbolKind::FormalParameter
    }

    fn new(circuit: u32, n: u32) -> (r: Self) {
        FormalParameter { n, circuit }
    }

    fn circuit(self) -> (r: u32) {
        self.circuit
    }

    fn count(circ: &mut CircuitBuilder) -> (r: &mut u32) {
        circ.count_mut(SymbolKind::FormalParameter)
    }
}

impl CircuitSymbol for FormalParameter {
    fn id(self) -> (r: u32) {
        self.n
    }
}

/// A view over the contiguous half-open index range `[start, end)` of one
/// symbol kind in one circuit.
pub struct List<T> {
    start: u32,
    end: u32,
    circuit: u32,
    _phantom: PhantomData<T>,
}

impl<T> Clone for List<T> {
    fn clone(&self) -> (r: Self)
        ensures
            r == *self,
    {
        proof {
            use_type_invariant(self);
        }
        List { start: self.start, end: self.end, circuit: self.circuit, _phantom: PhantomData }
    }
}

impl<T> Copy for List<T> {
}

impl<T> List<T> {
    #[verifier::type_invariant]
    spec fn well_formed(self) -> bool {
        self.start <= self.end
    }

    /// First index of the range.
    pub closed spec fn start_index(self) -> u32 {
        self.start
    }

    /// One past the last index of the range.
    pub closed spec fn end_index(self) -> u32 {
        self.end
    }

    /// The circuit the list belongs to.
    pub closed spec fn circuit_id(self) -> u32 {
        self.circuit
    }

    /// Number of symbols in the list.
    pub open spec fn spec_len(self) -> int {
        self.end_index() - self.start_index()
    }

    /// Whether a symbol of index `i` in circuit `c` lies in the list.
    pub open spec fn holds(self, c: u32, i: u32) -> bool {
        c == self.circuit_id() && self.start_index() <= i < self.end_index()
    }
}

impl<T: CircuitSymbol> List<T> {
    /// The one-symbol list `[sym, sym + 1)`.
    pub fn of(sym: T) -> (r: List<T>)
        requires
            sym.spec_index() < u32::MAX,
        ensures
            r.start_index() == sym.spec_index(),
            r.end_index() == sym.spec_index() + 1,
            r.circuit_id() == sym.spec_circuit(),
    {
        let n = sym.id();
        T::list(sym.circuit(), n..n + 1)
    }

    /// The list `[start, end)` between two symbols of one circuit; absent
    /// when `start` comes after `end` or when the symbols belong to
    /// different circuits.
    pub fn from_endpoints(start: T, end: T) -> (r: Option<List<T>>)
        ensures
            r is Some <==> start.spec_index() <= end.spec_index()
                && start.spec_circuit() == end.spec_circuit(),
            r matches Some(l) ==> l.start_index() == start.spec_index()
                && l.end_index() == end.spec_index()
                && l.circuit_id() == start.spec_circuit(),
    {
        let s = start.id();
        let e = end.id();
        let c = start.circuit();
        if s <= e && c == end.circuit() {
            Some(T::list(c, s..e))
        } else {
            None
        }
    }

    /// The index range of the list.
    pub fn range(&self) -> (r: Range<u32>)
        ensures
            r.start == self.start_index(),
            r.end == self.end_index(),
            r.start <= r.end,
    {
        proof {
            use_type_invariant(self);
        }
        self.start..self.end
    }

    /// Number of symbols in the list.
    pub fn len(&self) -> (r: usize)
        ensures
            r == self.spec_len(),
    {
        proof {
            use_type_invariant(self);
        }
        (self.end - self.start) as usize
    }

    /// The `id`-th symbol of the list, absent when `id` is out of range.
    pub fn get(&self, id: usize) -> (r: Option<T>)
        ensures
            r is Some <==> id < self.spec_len(),
            r matches Some(s) ==> s.spec_index() == self.start_index() + id
                && s.spec_circuit() == self.circuit_id(),
    {
        proof {
            use_type_invariant(self);
        }
        if id < self.len() {
            Some(T::new(self.circuit, id as u32 + self.start))
        } else {
            None
        }
    }

    /// Whether `parameter` is one of the list's symbols: a symbol of another
    /// circuit never is.
    pub fn contains(&self, parameter: T) -> (r: bool)
        ensures
            r == self.holds(parameter.spec_circuit(), parameter.spec_index()),
    {
        let i = parameter.id();
        parameter.circuit() == self.circuit && self.start <= i && i < self.end
    }

    /// A lazy walk over the list's symbols in ascending index order.
    pub fn iter(&self) -> (r: ListIter<T>)
        ensures
            r.next_index() == self.start_index(),
            r.end_index() == self.end_index(),
            r.circuit_id() == self.circuit_id(),
    {
        ListIter { next: self.start, end: self.end, circuit: self.circuit, _phantom: PhantomData }
    }
}

/// A walk over the symbols `[next, end)` of one circuit, produced one by one
/// from their indices.
pub struct ListIter<T> {
    next: u32,
    end: u32,
    circuit: u32,
    _phantom: PhantomData<T>,
}

impl<T> ListIter<T> {
    /// Index of the next symbol to produce.
    pub closed spec fn next_index(self) -> u32 {
        self.next
    }

    /// One past the last index to produce.
    pub closed spec fn end_index(self) -> u32 {
        self.end
    }

    /// The circuit the produced symbols belong to.
    pub closed spec fn circuit_id(self) -> u32 {
        self.circuit
    }
}

impl<T: CircuitSymbol> ListIter<T> {
    /// The next symbol, or absent once the walk is done.
    pub fn next(&mut self) -> (r: Option<T>)
        ensures
            r is Some <==> old(self).next_index() < old(self).end_index(),
            final(self).end_index() == old(self).end_index(),
            final(self).circuit_id() == old(self).circuit_id(),
            r matches Some(s) ==> s.spec_index() == old(self).next_index()
                && s.spec_circuit() == old(self).circuit_id()
                && final(self).next_index() == old(self).next_index() + 1,
            r is None ==> final(self).next_index() == old(self).next_index(),
    {
        if self.next < self.end {
            let s = T::new(self.circuit, self.next);
            self.next = self.next + 1;
            Some(s)
        } else {
            None
        }
    }
}

} // verus!
