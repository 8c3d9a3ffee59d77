//! Plaintext circuit evaluation, used as a correctness oracle.
//!
//! The local evaluator runs a circuit directly on plaintext bits — no shares,
//! no parties — into a wire-to-value map.  It never participates in the
//! secure protocol; tests and callers use it to cross-check what the secure
//! engines reconstruct.

use vstd::prelude::*;
use std::collections::HashMap;
use crate::circuit::{
    circuit_eval, eval_wires, eval_wires_from, gates_arity_ok, seeded_wires, Circuit, GateType,
    WireId,
};
use crate::error::GmwError;

verus! {

broadcast use vstd::std_specs::hash::group_hash_axioms;

/// Evaluates a circuit locally (without secret sharing) for verification
/// purposes.
pub struct LocalEvaluator;

impl LocalEvaluator {
    /// Reads one wire's value, failing with `WireNotFound` when the wire was
    /// never produced.
    fn get_wire_value(wire_values: &HashMap<WireId, bool>, wire_id: WireId) -> (r: Result<
        bool,
        GmwError,
    >)
        ensures
            match r {
                Ok(b) => wire_values@.contains_key(wire_id) && b == wire_values@[wire_id],
                Err(e) => !wire_values@.contains_key(wire_id) && e == (GmwError::WireNotFound {
                    wire: wire_id,
                }),
            },
    {
        match wire_values.get(&wire_id) {
            Some(v) => Ok(*v),
            None => Err(GmwError::WireNotFound { wire: wire_id }),
        }
    }

    /// Evaluates the circuit on plaintext inputs and returns every wire's
    /// value: exactly the map `circuit_eval` describes, or `WireNotFound`
    /// naming the first wire a gate reads before it is defined.
    pub fn evaluate(circuit: &Circuit, inputs: &[bool]) -> (r: Result<
        HashMap<WireId, bool>,
        GmwError,
    >)
        requires
            inputs@.len() <= circuit.metadata.inputs@.len(),
            gates_arity_ok(circuit.gates@),
        ensures
            match r {
                Ok(m) => circuit_eval(*circuit, inputs@) matches Ok(sm) && m@ == sm,
                Err(e) => circuit_eval(*circuit, inputs@) matches Err(w) && e == (
                GmwError::WireNotFound { wire: w }),
            },
    {
        let mut wire_values: HashMap<WireId, bool> = HashMap::new();

        // Seed the declared input wires with the plaintext input bits.
        let mut i: usize = 0;
        while i < inputs.len()
            invariant
                i <= inputs@.len(),
                inputs@.len() <= circuit.metadata.inputs@.len(),
                wire_values@ == seeded_wires(circuit.metadata.inputs@, inputs@, i as int),
            decreases inputs@.len() - i,
        {
            let wire_id = circuit.metadata.inputs[i].id;
            wire_values.insert(wire_id, inputs[i]);
            i = i + 1;
        }

        let ghost m0 = seeded_wires(circuit.metadata.inputs@, inputs@, inputs@.len() as int);

        // Evaluate each gate in order.
        let mut k: usize = 0;
        while k < circuit.gates.len()
            invariant
                k <= circuit.gates@.len(),
                gates_arity_ok(circuit.gates@),
                m0 == seeded_wires(circuit.metadata.inputs@, inputs@, inputs@.len() as int),
                eval_wires_from(wire_values@, circuit.gates@, k as int) == eval_wires(
                    m0,
                    circuit.gates@,
                ),
            decreases circuit.gates@.len() - k,
        {
            let gate = &circuit.gates[k];
            let result = match gate.gate_type {
                GateType::AND => {
                    let a = Self::get_wire_value(&wire_values, gate.inputs[0])?;
                    let b = Self::get_wire_value(&wire_values, gate.inputs[1])?;
                    a && b
                },
                GateType::OR => {
                    let a = Self::get_wire_value(&wire_values, gate.inputs[0])?;
                    let b = Self::get_wire_value(&wire_values, gate.inputs[1])?;
                    a || b
                },
                GateType::XOR => {
                    let a = Self::get_wire_value(&wire_values, gate.inputs[0])?;
                    let b = Self::get_wire_value(&wire_values, gate.inputs[1])?;
                    a ^ b
                },
                GateType::NOT => {
                    let a = Self::get_wire_value(&wire_values, gate.inputs[0])?;
                    !a
                },
            };

            wire_values.insert(gate.id, result);
            k = k + 1;
        }

        Ok(wire_values)
    }

    /// Evaluates the circuit and returns the value of one wire: the value
    /// `circuit_eval` gives it, or `WireNotFound` when evaluation fails or
    /// the circuit never produces the wire.
    pub fn get_output(circuit: &Circuit, inputs: &[bool], wire_id: WireId) -> (r: Result<
        bool,
        GmwError,
    >)
        requires
            inputs@.len() <= circuit.metadata.inputs@.len(),
            gates_arity_ok(circuit.gates@),
        ensures
            match r {
                Ok(b) => circuit_eval(*circuit, inputs@) matches Ok(m) && m.contains_key(wire_id)
                    && b == m[wire_id],
                Err(e) => {
                    ||| (circuit_eval(*circuit, inputs@) matches Err(w) && e == (
                    GmwError::WireNotFound { wire: w }))
                    ||| (circuit_eval(*circuit, inputs@) matches Ok(m) && !m.contains_key(wire_id)
                        && e == (GmwError::WireNotFound { wire: wire_id }))
                },
            },
    {
        let wire_values = Self::evaluate(circuit, inputs)?;
        Self::get_wire_value(&wire_values, wire_id)
    }
}

} // verus!
