//! The Boolean circuit data model and its validation.
//!
//! A circuit is an ordered gate list plus named input and output wires.  Gate
//! order is required to be topological: every wire a gate reads must be a
//! declared circuit input or the output of an earlier gate.  `validate`
//! checks exactly that, together with wire-id uniqueness, gate arity and
//! output existence, so that malformed wiring is rejected at load, not at
//! evaluation time.
//!
//! The spec functions at the end give the plaintext meaning of a circuit:
//! `circuit_eval` seeds a wire map from the declared inputs and folds the
//! gates over it in order.  Both the local evaluator and the secure engines
//! state their contracts against it.

use vstd::prelude::*;
use std::collections::HashSet;
use crate::error::GmwError;

verus! {

broadcast use vstd::std_specs::hash::group_hash_axioms;

/// Identifies a circuit input or a gate's output wire.
pub type WireId = u32;

/// The four supported gate kinds.
#[derive(Debug, Clone, Copy, PartialEq, Eq, Structural)]
pub enum GateType {
    XOR,
    NOT,
    AND,
    OR,
}

/// One gate: its output wire id, its kind, and the wires it reads
/// (two for XOR/AND/OR, one for NOT).
#[derive(Debug, Clone)]
pub struct Gate {
    pub id: WireId,
    pub gate_type: GateType,
    pub inputs: Vec<WireId>,
}

/// A named circuit input wire.
#[derive(Debug, Clone)]
pub struct InputInfo {
    pub name: String,
    pub id: WireId,
}

/// A named circuit output wire.
#[derive(Debug, Clone)]
pub struct OutputInfo {
    pub name: String,
    pub id: WireId,
}

/// The circuit's declared inputs and outputs.
#[derive(Debug, Clone)]
pub struct CircuitMetadata {
    pub inputs: Vec<InputInfo>,
    pub outputs: Vec<OutputInfo>,
}

/// An immutable Boolean circuit: ordered gates plus wire metadata.
#[derive(Debug, Clone)]
pub struct Circuit {
    pub name: String,
    pub description: String,
    pub gates: Vec<Gate>,
    pub metadata: CircuitMetadata,
}

/// A gate reads two wires, except NOT, which reads one.
pub open spec fn gate_arity_ok(g: Gate) -> bool {
    match g.gate_type {
        GateType::NOT => g.inputs@.len() == 1,
        _ => g.inputs@.len() == 2,
    }
}

/// Every gate of the sequence has the right number of inputs.
pub open spec fn gates_arity_ok(gates: Seq<Gate>) -> bool {
    forall|k: int| 0 <= k < gates.len() ==> gate_arity_ok(#[trigger] gates[k])
}

/// The ids of the first `k` declared inputs.
pub open spec fn input_id_set(infos: Seq<InputInfo>, k: int) -> Set<WireId>
    decreases k
{
    if k <= 0 {
        Set::empty()
    } else {
        input_id_set(infos, k - 1).insert(infos[k - 1].id)
    }
}

/// The wire ids defined before gate `k` runs: all declared inputs and the
/// outputs of gates `0..k`.
pub open spec fn defined_before(infos: Seq<InputInfo>, gates: Seq<Gate>, k: int) -> Set<WireId>
    decreases k
{
    if k <= 0 {
        input_id_set(infos, infos.len() as int)
    } else {
        defined_before(infos, gates, k - 1).insert(gates[k - 1].id)
    }
}

/// Gate `k` is well formed: right arity, every wire it reads already
/// defined, and its own output wire not defined before.
pub open spec fn gate_well_formed(infos: Seq<InputInfo>, gates: Seq<Gate>, k: int) -> bool {
    let g = gates[k];
    &&& gate_arity_ok(g)
    &&& forall|t: int| 0 <= t < g.inputs@.len() ==>
            defined_before(infos, gates, k).contains(#[trigger] g.inputs@[t])
    &&& !defined_before(infos, gates, k).contains(g.id)
}

/// The circuit invariant: declared input ids are distinct, every gate is
/// well formed in list order, and every declared output wire is produced by
/// a declared input or by some gate.
pub open spec fn circuit_well_formed(c: Circuit) -> bool {
    let infos = c.metadata.inputs@;
    let gates = c.gates@;
    &&& forall|k1: int, k2: int| 0 <= k1 < k2 < infos.len() ==>
            (#[trigger] infos[k1].id) != (#[trigger] infos[k2].id)
    &&& forall|k: int| 0 <= k < gates.len() ==> gate_well_formed(infos, gates, k)
    &&& forall|t: int| 0 <= t < c.metadata.outputs@.len() ==>
            defined_before(infos, gates, gates.len() as int).contains(
                (#[trigger] c.metadata.outputs@[t]).id,
            )
}

/// The plaintext value a gate computes from its input bits (`b` is ignored
/// for NOT).
pub open spec fn gate_op(t: GateType, a: bool, b: bool) -> bool {
    match t {
        GateType::AND => a && b,
        GateType::OR => a || b,
        GateType::XOR => a != b,
        GateType::NOT => !a,
    }
}

/// One gate evaluated against a wire map: its plaintext output value, or the
/// first input wire the map lacks.
pub open spec fn eval_gate_at(m: Map<WireId, bool>, g: Gate) -> Result<bool, WireId> {
    match g.gate_type {
        GateType::NOT => if m.contains_key(g.inputs@[0]) {
            Ok(!m[g.inputs@[0]])
        } else {
            Err(g.inputs@[0])
        },
        _ => if !m.contains_key(g.inputs@[0]) {
            Err(g.inputs@[0])
        } else if !m.contains_key(g.inputs@[1]) {
            Err(g.inputs@[1])
        } else {
            Ok(gate_op(g.gate_type, m[g.inputs@[0]], m[g.inputs@[1]]))
        },
    }
}

/// The wire map after evaluating gates `k..` in order on top of `m`, or the
/// first wire a gate reads that is not present.
pub open spec fn eval_wires_from(
    m: Map<WireId, bool>,
    gates: Seq<Gate>,
    k: int,
) -> Result<Map<WireId, bool>, WireId>
    decreases gates.len() - k
{
    if k < 0 || k >= gates.len() {
        Ok(m)
    } else {
        match eval_gate_at(m, gates[k]) {
            Ok(v) => eval_wires_from(m.insert(gates[k].id, v), gates, k + 1),
            Err(w) => Err(w),
        }
    }
}

/// The wire map after evaluating a whole gate list on top of `m`.
pub open spec fn eval_wires(m: Map<WireId, bool>, gates: Seq<Gate>) -> Result<
    Map<WireId, bool>,
    WireId,
> {
    eval_wires_from(m, gates, 0)
}

/// The wire map holding the first `k` plaintext inputs, each keyed by the
/// matching declared input wire id.
pub open spec fn seeded_wires(infos: Seq<InputInfo>, inputs: Seq<bool>, k: int) -> Map<WireId, bool>
    decreases k
{
    if k <= 0 {
        Map::empty()
    } else {
        seeded_wires(infos, inputs, k - 1).insert(infos[k - 1].id, inputs[k - 1])
    }
}

/// The plaintext meaning of a circuit on the given input bits: every wire's
/// value, or the first wire some gate reads before it is defined.
pub open spec fn circuit_eval(c: Circuit, inputs: Seq<bool>) -> Result<Map<WireId, bool>, WireId> {
    eval_wires(seeded_wires(c.metadata.inputs@, inputs, inputs.len() as int), c.gates@)
}

/// A wire id is among the first `k` declared input ids exactly when some
/// declared input before `k` carries it.
pub proof fn lemma_input_id_set_contains(infos: Seq<InputInfo>, k: int, w: WireId)
    requires
        k <= infos.len(),
    ensures
        input_id_set(infos, k).contains(w) <==> exists|j: int|
            0 <= j < k && (#[trigger] infos[j]).id == w,
    decreases k,
{
    if k > 0 {
        lemma_input_id_set_contains(infos, k - 1, w);
    }
}

/// A well formed circuit has the right number of inputs on every gate, which
/// is what the evaluation engines require of a circuit handed to them.
pub proof fn lemma_well_formed_implies_arity(c: Circuit)
    requires
        circuit_well_formed(c),
    ensures
        gates_arity_ok(c.gates@),
{
    assert forall|k: int| 0 <= k < c.gates@.len() implies gate_arity_ok(#[trigger] c.gates@[k]) by {
        assert(gate_well_formed(c.metadata.inputs@, c.gates@, k));
    }
}

impl Circuit {
    /// Checks the circuit invariant: distinct input ids, topologically
    /// ordered gates with correct arity that never redefine a wire, and
    /// outputs that are actually produced.  Returns `Ok` exactly on well
    /// formed circuits.
    pub fn validate(&self) -> (r: Result<(), GmwError>)
        ensures
            r is Ok <==> circuit_well_formed(*self),
            r matches Err(e) ==> e matches GmwError::MalformedCircuit { .. },
    {
        let ghost infos = self.metadata.inputs@;
        let ghost gates = self.gates@;
        let mut defined: HashSet<WireId> = HashSet::new();

        let mut t: usize = 0;
        while t < self.metadata.inputs.len()
            invariant
                t <= infos.len(),
                self.metadata.inputs@ == infos,
                defined@ == input_id_set(infos, t as int),
                forall|k1: int, k2: int| 0 <= k1 < k2 < t ==>
                    (#[trigger] infos[k1].id) != (#[trigger] infos[k2].id),
            decreases infos.len() - t,
        {
            let id = self.metadata.inputs[t].id;
            if defined.contains(&id) {
                proof {
                    lemma_input_id_set_contains(infos, t as int, id);
                }
                return Err(GmwError::MalformedCircuit { wire: id });
            }
            defined.insert(id);
            proof {
                lemma_input_id_set_contains(infos, t as int, infos[t as int].id);
            }
            t = t + 1;
        }

        let mut k: usize = 0;
        while k < self.gates.len()
            invariant
                k <= gates.len(),
                self.metadata.inputs@ == infos,
                self.gates@ == gates,
                defined@ == defined_before(infos, gates, k as int),
                forall|k1: int, k2: int| 0 <= k1 < k2 < infos.len() ==>
                    (#[trigger] infos[k1].id) != (#[trigger] infos[k2].id),
                forall|j: int| 0 <= j < k ==> gate_well_formed(infos, gates, j),
            decreases gates.len() - k,
        {
            let gate = &self.gates[k];
            let arity_ok = match gate.gate_type {
                GateType::NOT => gate.inputs.len() == 1,
                _ => gate.inputs.len() == 2,
            };
            if !arity_ok {
                assert(!gate_well_formed(infos, gates, k as int));
                return Err(GmwError::MalformedCircuit { wire: gate.id });
            }
            let mut u: usize = 0;
            while u < gate.inputs.len()
                invariant
                    u <= gate.inputs@.len(),
                    self.metadata.inputs@ == infos,
                    self.gates@ == gates,
                    0 <= k < gates.len(),
                    gate == gates[k as int],
                    defined@ == defined_before(infos, gates, k as int),
                    forall|t2: int| 0 <= t2 < u ==>
                        defined_before(infos, gates, k as int).contains(
                            #[trigger] gate.inputs@[t2],
                        ),
                decreases gate.inputs@.len() - u,
            {
                let w = gate.inputs[u];
                if !defined.contains(&w) {
                    assert(!gate_well_formed(infos, gates, k as int));
                    return Err(GmwError::MalformedCircuit { wire: w });
                }
                u = u + 1;
            }
            if defined.contains(&gate.id) {
                assert(!gate_well_formed(infos, gates, k as int));
                return Err(GmwError::MalformedCircuit { wire: gate.id });
            }
            defined.insert(gate.id);
            assert(gate_well_formed(infos, gates, k as int));
            k = k + 1;
        }

        let mut o: usize = 0;
        while o < self.metadata.outputs.len()
            invariant
                o <= self.metadata.outputs@.len(),
                self.metadata.inputs@ == infos,
                self.gates@ == gates,
                defined@ == defined_before(infos, gates, gates.len() as int),
                forall|k1: int, k2: int| 0 <= k1 < k2 < infos.len() ==>
                    (#[trigger] infos[k1].id) != (#[trigger] infos[k2].id),
                forall|j: int| 0 <= j < gates.len() ==> gate_well_formed(infos, gates, j),
                forall|t2: int| 0 <= t2 < o ==>
                    defined_before(infos, gates, gates.len() as int).contains(
                        (#[trigger] self.metadata.outputs@[t2]).id,
                    ),
            decreases self.metadata.outputs@.len() - o,
        {
            let id = self.metadata.outputs[o].id;
            if !defined.contains(&id) {
                return Err(GmwError::MalformedCircuit { wire: id });
            }
            o = o + 1;
        }

        Ok(())
    }
}

} // verus!
