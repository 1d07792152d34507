//! Circuit-scoped symbol allocation and bit-packed gate parameters.
//!
//! Symbols (qubits, classical bits, formal parameters) are minted by bump
//! allocation from per-kind counters held in a [`CircuitBuilder`]. Every
//! symbol, list and parameter carries the identifier of the circuit that
//! produced it, and operations that receive a symbol refuse one that belongs to
//! another circuit.

mod builder;
mod parameter;
mod symbol;

pub use builder::{lemma_batch_is_sequential, AllocOverflow, CircuitBuilder, SymbolKind, DEFAULT_MAX};
pub use symbol::{Bit, CircuitSymbol, CircuitSymbolPrivate, FormalParameter, List, ListIter, Qubit};
pub use parameter::{finite_bits, formal_bits, lemma_formal_bits, lemma_formal_round_trip, lemma_value_never_equals_formal,
    Parameter, INFINITY_BITS};
