use vstd::prelude::*;

use crate::symbol::{CircuitSymbol, CircuitSymbolPrivate, FormalParameter};

verus! {

/// Bit pattern of the 64-bit float positive infinity.
pub const INFINITY_BITS: u64 = 0x7FF0_0000_0000_0000;

/// Whether the 64-bit float with bit pattern `bits` is finite: its exponent
/// field is not all ones.
pub open spec fn finite_bits(bits: u64) -> bool {
    (bits >> 52u64) & 0x7FFu64 != 0x7FFu64
}

/// The bit pattern that refers to formal parameter `n`: `n` in the low bits
/// of positive infinity.
pub open spec fn formal_bits(n: u32) -> u64 {
    INFINITY_BITS | (n as u64)
}

/// A gate parameter: either a finite 64-bit float or a reference to a formal
/// parameter of the same circuit, packed into one float-sized bit pattern.
///
/// A pattern that reads as a finite float is a value; any other pattern is a
/// reference, whose index sits in the low 32 bits. Floats are handled here by
/// their bit patterns (`f64::to_bits`, `f64::from_bits`).
#[derive(Clone, Copy, Debug)]
pub struct Parameter {
    circuit: u32,
    bits: u64,
}

impl Parameter {
    /// The stored bit pattern.
    pub closed spec fn bits_of(self) -> u64 {
        self.bits
    }

    /// The circuit the parameter belongs to.
    pub closed spec fn circuit_of(self) -> u32 {
        self.circuit
    }

    /// Whether the parameter holds a finite value.
    pub open spec fn value_spec(self) -> bool {
        finite_bits(self.bits_of())
    }

    /// The index of the formal parameter a reference points to.
    pub open spec fn formal_index(self) -> u32 {
        (self.bits_of() & 0xFFFF_FFFFu64) as u32
    }

    /// Equality of parameters, given whether the two values lie closer than
    /// the precision epsilon: values compare by that closeness, references by
    /// their exact bit patterns, and a value never equals a reference nor a
    /// parameter of another circuit.
    pub open spec fn eq_spec(self, rhs: Parameter, values_close: bool) -> bool {
        self.circuit_of() == rhs.circuit_of() && if self.value_spec() && rhs.value_spec() {
            values_close
        } else if !self.value_spec() && !rhs.value_spec() {
            self.bits_of() == rhs.bits_of()
        } else {
            false
        }
    }

    fn new(circuit: u32, bits: u64) -> (r: Parameter)
        ensures
            r.bits_of() == bits,
            r.circuit_of() == circuit,
    {
        Parameter { circuit, bits }
    }

    /// The value parameter of circuit `circuit` for the float with bit
    /// pattern `bits`; a non-finite float becomes `0.0`.
    pub fn from_value_bits(circuit: u32, bits: u64) -> (r: Parameter)
        ensures
            r.bits_of() == if finite_bits(bits) {
                bits
            } else {
                0u64
            },
            r.circuit_of() == circuit,
            r.value_spec(),
    {
        assert(finite_bits(0u64)) by (bit_vector);
        if (bits >> 52u64) & 0x7FFu64 != 0x7FFu64 {
            Parameter::new(circuit, bits)
        } else {
            Parameter::new(circuit, 0)
        }
    }

    /// The circuit the parameter belongs to.
    pub fn circuit(self) -> (r: u32)
        ensures
            r == self.circuit_of(),
    {
        self.circuit
    }

    /// Whether the parameter holds a finite value.
    pub fn is_value(self) -> (r: bool)
        ensures
            r == self.value_spec(),
    {
        (self.bits >> 52u64) & 0x7FFu64 != 0x7FFu64
    }

    /// Whether the parameter refers to a formal parameter.
    pub fn is_formal(self) -> (r: bool)
        ensures
            r == !self.value_spec(),
    {
        !self.is_value()
    }

    /// The bit pattern of the value, absent for a reference.
    pub fn as_value_bits(self) -> (r: Option<u64>)
        ensures
            r == if self.value_spec() {
                Some(self.bits_of())
            } else {
                None::<u64>
            },
    {
        if self.is_value() {
            Some(self.bits)
        } else {
            None
        }
    }

    /// The formal parameter referred to, absent for a value.
    pub fn as_formal(self) -> (r: Option<FormalParameter>)
        ensures
            r is Some <==> !self.value_spec(),
            r matches Some(f) ==> f.spec_index() == self.formal_index() && f.spec_circuit()
                == self.circuit_of(),
    {
        if self.is_formal() {
            Some(FormalParameter::new(self.circuit, (self.bits & 0xFFFF_FFFFu64) as u32))
        } else {
            None
        }
    }

    /// Equality of two parameters, where `values_close` tells whether their
    /// values, read as floats, differ by less than the precision epsilon; it
    /// is consulted only when both hold values.
    pub fn eq_with(self, rhs: Parameter, values_close: bool) -> (r: bool)
        ensures
            r == self.eq_spec(rhs, values_close),
    {
        if self.circuit != rhs.circuit {
            false
        } else if self.is_value() && rhs.is_value() {
            values_close
        } else if self.is_formal() && rhs.is_formal() {
            self.bits == rhs.bits
        } else {
            false
        }
    }
}

impl From<FormalParameter> for Parameter {
    fn from(formal: FormalParameter) -> (r: Parameter) {
        proof {
            lemma_formal_bits(formal.spec_index());
        }
        Parameter::new(formal.circuit(), (formal.id() as u64) | INFINITY_BITS)
    }
}

impl vstd::std_specs::convert::FromSpecImpl<FormalParameter> for Parameter {
    open spec fn obeys_from_spec() -> bool {
        true
    }

    closed spec fn from_spec(formal: FormalParameter) -> Parameter {
        Parameter { circuit: formal.spec_circuit(), bits: formal_bits(formal.spec_index()) }
    }
}

/// A reference pattern never reads as a finite float, and its low 32 bits
/// give back the index.
pub proof fn lemma_formal_bits(n: u32)
    ensures
        !finite_bits(formal_bits(n)),
        (formal_bits(n) & 0xFFFF_FFFFu64) as u32 == n,
        (n as u64) | INFINITY_BITS == formal_bits(n),
{
    let m = n as u64;
    assert(m <= 0xFFFF_FFFFu64);
    assert((0x7FF0_0000_0000_0000u64 | m) >> 52u64 & 0x7FFu64 == 0x7FFu64) by (bit_vector)
        requires
            m <= 0xFFFF_FFFFu64,
    ;
    assert((0x7FF0_0000_0000_0000u64 | m) & 0xFFFF_FFFFu64 == m) by (bit_vector)
        requires
            m <= 0xFFFF_FFFFu64,
    ;
    assert(m | 0x7FF0_0000_0000_0000u64 == 0x7FF0_0000_0000_0000u64 | m) by (bit_vector);
}

/// A parameter made from a formal parameter refers to it: it is no value, and
/// it gives back the same index in the same circuit.
pub proof fn lemma_formal_round_trip(formal: FormalParameter)
    ensures
        ({
            let p = <Parameter as vstd::std_specs::convert::FromSpec<
                FormalParameter,
            >>::from_spec(formal);
            &&& !p.value_spec()
            &&& p.formal_index() == formal.spec_index()
            &&& p.circuit_of() == formal.spec_circuit()
        }),
{
    lemma_formal_bits(formal.spec_index());
}

/// A value parameter never equals a reference, whatever their bit patterns
/// and whatever the closeness of values says.
pub proof fn lemma_value_never_equals_formal(p: Parameter, q: Parameter, values_close: bool)
    requires
        p.value_spec(),
        !q.value_spec(),
    ensures
        !p.eq_spec(q, values_close),
        !q.eq_spec(p, values_close),
{
}

} // verus!
