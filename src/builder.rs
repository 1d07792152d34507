use vstd::prelude::*;

use crate::symbol::{CircuitSymbol, CircuitSymbolPrivate, List};

verus! {

/// The largest count a symbol kind may reach: one below `u32::MAX`, so that
/// `index + 1` always fits in a 32-bit counter.
pub const DEFAULT_MAX: u32 = 0xFFFF_FFFE;

/// The three kinds of circuit resources.
#[derive(Clone, Copy, Debug, PartialEq, Eq, Structural)]
pub enum SymbolKind {
    Qubit,
    Bit,
    FormalParameter,
}

impl SymbolKind {
    /// The bound on the counter of this kind.
    ///
    /// Classical bits are bounded by the mantissa of a 64-bit float (`1 << 53`)
    /// and formal parameters by the 52 low bits a parameter can carry; both
    /// bounds lie above the 32-bit default, so every kind uses the default.
    pub open spec fn max(self) -> u32 {
        match self {
            SymbolKind::Qubit => DEFAULT_MAX,
            SymbolKind::Bit => DEFAULT_MAX,
            SymbolKind::FormalParameter => DEFAULT_MAX,
        }
    }

    pub fn max_count(self) -> (r: u32)
        ensures
            r == self.max(),
    {
        match self {
            SymbolKind::Qubit => DEFAULT_MAX,
            SymbolKind::Bit => DEFAULT_MAX,
            SymbolKind::FormalParameter => DEFAULT_MAX,
        }
    }
}

/// Raised when an allocation would bring a kind's counter to its bound.
#[derive(Clone, Copy, Debug, PartialEq, Eq, Structural)]
pub struct AllocOverflow;

/// The owner of the three running counters of one circuit.
///
/// `circuit` identifies the circuit; callers give each builder a distinct one.
#[derive(Clone, Copy, Debug, PartialEq, Eq, Structural)]
pub struct CircuitBuilder {
    pub circuit: u32,
    pub qubit_count: u32,
    pub bit_count: u32,
    pub parameter_count: u32,
}

impl CircuitBuilder {
    /// The counter of kind `k`.
    pub open spec fn count(self, k: SymbolKind) -> u32 {
        match k {
            SymbolKind::Qubit => self.qubit_count,
            SymbolKind::Bit => self.bit_count,
            SymbolKind::FormalParameter => self.parameter_count,
        }
    }

    /// This builder with the counter of kind `k` set to `v`.
    pub open spec fn with_count(self, k: SymbolKind, v: u32) -> CircuitBuilder {
        match k {
            SymbolKind::Qubit => CircuitBuilder { qubit_count: v, ..self },
            SymbolKind::Bit => CircuitBuilder { bit_count: v, ..self },
            SymbolKind::FormalParameter => CircuitBuilder { parameter_count: v, ..self },
        }
    }

    /// Whether `n` more symbols of kind `k` can be reserved.
    pub open spec fn can_reserve(self, k: SymbolKind, n: nat) -> bool {
        self.count(k) + n < k.max()
    }

    /// This builder after `n` symbols of kind `k` were reserved.
    pub open spec fn reserved(self, k: SymbolKind, n: nat) -> CircuitBuilder {
        self.with_count(k, (self.count(k) + n) as u32)
    }

    /// This builder after one allocation of kind `k`, successful or not.
    pub open spec fn after_alloc(self, k: SymbolKind) -> CircuitBuilder {
        if self.can_reserve(k, 1) {
            self.reserved(k, 1)
        } else {
            self
        }
    }

    /// This builder after `n` allocations of kind `k`, one after the other.
    pub open spec fn after_allocs(self, k: SymbolKind, n: nat) -> CircuitBuilder
        decreases n,
    {
        if n == 0 {
            self
        } else {
            self.after_allocs(k, (n - 1) as nat).after_alloc(k)
        }
    }

    /// A fresh builder for circuit `circuit`, with every counter at zero.
    pub fn new(circuit: u32) -> (r: CircuitBuilder)
        ensures
            r.circuit == circuit,
            r.qubit_count == 0,
            r.bit_count == 0,
            r.parameter_count == 0,
    {
        CircuitBuilder { circuit, qubit_count: 0, bit_count: 0, parameter_count: 0 }
    }

    /// Mutable access to the counter of kind `k`.
    pub fn count_mut(&mut self, k: SymbolKind) -> (r: &mut u32)
        ensures
            *r == old(self).count(k),
            *final(self) == old(self).with_count(k, *final(r)),
    {
        match k {
            SymbolKind::Qubit => &mut self.qubit_count,
            SymbolKind::Bit => &mut self.bit_count,
            SymbolKind::FormalParameter => &mut self.parameter_count,
        }
    }

    /// Reserves `n` consecutive indices of kind `k` and returns the first;
    /// fails, leaving the counter unchanged, unless `count + n < MAX`.
    fn reserve(&mut self, k: SymbolKind, n: u32) -> (r: Result<u32, AllocOverflow>)
        ensures
            r is Ok <==> old(self).can_reserve(k, n as nat),
            r matches Ok(c) ==> c == old(self).count(k) && *final(self) == old(self).reserved(
                k,
                n as nat,
            ),
            r is Err ==> *final(self) == *old(self),
    {
        let max = k.max_count();
        let count = self.count_mut(k);
        let c = *count;
        if c < max && n < max - c {
            *count = c + n;
            Ok(c)
        } else {
            Err(AllocOverflow)
        }
    }

    /// Allocates one symbol of kind `T`: its index is the counter's value,
    /// which then grows by one. Fails with the counter unchanged unless
    /// `count + 1 < MAX`.
    pub fn alloc_one<T: CircuitSymbol>(&mut self) -> (r: Result<T, AllocOverflow>)
        ensures
            r is Ok <==> old(self).can_reserve(T::spec_kind(), 1),
            *final(self) == old(self).after_alloc(T::spec_kind()),
            r matches Ok(s) ==> s.spec_index() == old(self).count(T::spec_kind())
                && s.spec_circuit() == old(self).circuit
                && final(self).count(T::spec_kind()) == s.spec_index() + 1,
    {
        let circuit = self.circuit;
        match self.reserve(T::kind(), 1) {
            Ok(c) => Ok(T::new(circuit, c)),
            Err(e) => Err(e),
        }
    }

    /// Allocates `N` symbols of kind `T` at once, with the consecutive indices
    /// `count, count + 1, ..., count + N - 1`. Fails with the counter unchanged
    /// unless `count + N < MAX`.
    pub fn alloc_n<T: CircuitSymbol, const N: usize>(&mut self) -> (r: Result<[T; N], AllocOverflow>)
        ensures
            r is Ok <==> old(self).can_reserve(T::spec_kind(), N as nat),
            r matches Ok(a) ==> *final(self) == old(self).reserved(T::spec_kind(), N as nat)
                && forall|i: int|
                0 <= i < N ==> #[trigger] a@[i].spec_index() == old(self).count(T::spec_kind()) + i
                    && a@[i].spec_circuit() == old(self).circuit,
            r is Err ==> *final(self) == *old(self),
    {
        let k = T::kind();
        if N >= k.max_count() as usize {
            return Err(AllocOverflow);
        }
        let circuit = self.circuit;
        let start = match self.reserve(k, N as u32) {
            Ok(c) => c,
            Err(e) => {
                return Err(e);
            },
        };
        let mut a: [T; N] = [T::new(circuit, start); N];
        let mut i: usize = 0;
        while i < N
            invariant
                i <= N,
                start + N < k.max(),
                forall|j: int|
                    0 <= j < i ==> #[trigger] a@[j].spec_index() == start + j
                        && a@[j].spec_circuit() == circuit,
            decreases N - i,
        {
            a[i] = T::new(circuit, start + i as u32);
            i = i + 1;
        }
        Ok(a)
    }

    /// Allocates `len` symbols of kind `T` at once and returns the list over
    /// their indices `[count, count + len)`. Fails with the counter unchanged
    /// unless `count + len < MAX`.
    pub fn alloc_list<T: CircuitSymbol>(&mut self, len: u32) -> (r: Result<List<T>, AllocOverflow>)
        ensures
            r is Ok <==> old(self).can_reserve(T::spec_kind(), len as nat),
            r matches Ok(l) ==> *final(self) == old(self).reserved(T::spec_kind(), len as nat)
                && l.start_index() == old(self).count(T::spec_kind())
                && l.end_index() == old(self).count(T::spec_kind()) + len
                && l.circuit_id() == old(self).circuit,
            r is Err ==> *final(self) == *old(self),
    {
        let circuit = self.circuit;
        match self.reserve(T::kind(), len) {
            Ok(c) => Ok(T::list(circuit, c..c + len)),
            Err(e) => Err(e),
        }
    }

    /// Allocates one symbol of kind `A`, then one of kind `B`, stopping at the
    /// first overflow. An allocation that succeeded before the failing one is
    /// kept: counters never go back.
    pub fn alloc_pair<A: CircuitSymbol, B: CircuitSymbol>(&mut self) -> (r: Result<
        (A, B),
        AllocOverflow,
    >)
        ensures
            ({
                let b0 = *old(self);
                let b1 = b0.after_alloc(A::spec_kind());
                &&& r is Ok <==> b0.can_reserve(A::spec_kind(), 1) && b1.can_reserve(
                    B::spec_kind(),
                    1,
                )
                &&& *final(self) == if b0.can_reserve(A::spec_kind(), 1) {
                    b1.after_alloc(B::spec_kind())
                } else {
                    b0
                }
                &&& r matches Ok((a, b)) ==> a.spec_index() == b0.count(A::spec_kind())
                    && b.spec_index() == b1.count(B::spec_kind()) && a.spec_circuit() == b0.circuit
                    && b.spec_circuit() == b0.circuit
            }),
    {
        let a = match self.alloc_one::<A>() {
            Ok(a) => a,
            Err(e) => {
                return Err(e);
            },
        };
        let b = match self.alloc_one::<B>() {
            Ok(b) => b,
            Err(e) => {
                return Err(e);
            },
        };
        Ok((a, b))
    }

    /// Allocates one symbol of kind `A`, then `B`, then `C`, stopping at the
    /// first overflow. Allocations that succeeded before the failing one are
    /// kept: counters never go back.
    pub fn alloc_triple<A: CircuitSymbol, B: CircuitSymbol, C: CircuitSymbol>(&mut self) -> (r:
        Result<(A, B, C), AllocOverflow>)
        ensures
            ({
                let b0 = *old(self);
                let b1 = b0.after_alloc(A::spec_kind());
                let b2 = b1.after_alloc(B::spec_kind());
                let ok1 = b0.can_reserve(A::spec_kind(), 1);
                let ok2 = b1.can_reserve(B::spec_kind(), 1);
                let ok3 = b2.can_reserve(C::spec_kind(), 1);
                &&& r is Ok <==> ok1 && ok2 && ok3
                &&& *final(self) == if !ok1 {
                    b0
                } else if !ok2 {
                    b1
                } else {
                    b2.after_alloc(C::spec_kind())
                }
                &&& r matches Ok((a, b, c)) ==> a.spec_index() == b0.count(A::spec_kind())
                    && b.spec_index() == b1.count(B::spec_kind()) && c.spec_index() == b2.count(
                    C::spec_kind(),
                ) && a.spec_circuit() == b0.circuit && b.spec_circuit() == b0.circuit
                    && c.spec_circuit() == b0.circuit
            }),
    {
        let (a, b) = match self.alloc_pair::<A, B>() {
            Ok(p) => p,
            Err(e) => {
                return Err(e);
            },
        };
        let c = match self.alloc_one::<C>() {
            Ok(c) => c,
            Err(e) => {
                return Err(e);
            },
        };
        Ok((a, b, c))
    }
}

/// Reserving `n` symbols of one kind at once has the effect of `n` single
/// allocations of that kind one after the other, whenever it succeeds: each
/// single allocation succeeds, the `i`-th one hands out index `count + i`,
/// and the builder ends in the same state.
pub proof fn lemma_batch_is_sequential(b: CircuitBuilder, k: SymbolKind, n: nat)
    requires
        b.can_reserve(k, n),
    ensures
        b.after_allocs(k, n) == b.reserved(k, n),
        forall|i: nat|
            i < n ==> (#[trigger] b.after_allocs(k, i)).count(k) == b.count(k) + i
                && b.after_allocs(k, i).can_reserve(k, 1),
    decreases n,
{
    if n > 0 {
        let m = (n - 1) as nat;
        lemma_batch_is_sequential(b, k, m);
        assert(b.after_allocs(k, m) == b.reserved(k, m));
        assert(b.reserved(k, m).after_alloc(k) == b.reserved(k, n));
    }
}

} // verus!
