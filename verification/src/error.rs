//! Error conditions of the protocol library.

use vstd::prelude::*;
use crate::circuit::WireId;

verus! {

/// Every failure the library reports.  All are fatal for the run they occur
/// in; none is silently recovered.
#[derive(Debug, Clone, Copy, PartialEq, Eq, Structural)]
pub enum GmwError {
    /// A circuit failed validation at load: a gate input or declared output
    /// references `wire` although no earlier gate and no declared circuit
    /// input produces it, or `wire` is produced twice, or a gate has the
    /// wrong number of inputs (reported as its own id).
    MalformedCircuit { wire: WireId },
    /// A run was configured with fewer than two parties, or a share vector's
    /// length differs from the configured party count.
    PartyCountMismatch { expected: usize, got: usize },
    /// While evaluating a gate, a party's share map lacks input `wire`.
    MissingWire { wire: WireId },
    /// The local plaintext evaluator was asked for a wire that the circuit
    /// never produced.
    WireNotFound { wire: WireId },
    /// The number of plaintext inputs differs from the circuit's declared
    /// input wires.
    InputCountMismatch { expected: usize, got: usize },
    /// The circuit declares no output wires, so a run could not report
    /// anything.
    NoOutputs,
}

} // verus!
