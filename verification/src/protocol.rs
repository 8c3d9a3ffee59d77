//! The GMW protocol driver for an arbitrary party count.
//!
//! `GmwProtocol` fixes the party count of a run (at least two).  A run moves
//! through the phases the protocol prescribes: secret-share every plaintext
//! input bit into one share per party, seed one isolated wire map per party,
//! evaluate every gate in circuit order over those maps, and reconstruct the
//! declared output wires from the parties' output shares.  `run_circuit`
//! drives all phases and its contract pins each reported output to the
//! plaintext evaluation of the circuit.

use vstd::prelude::*;
use std::collections::HashMap;
use crate::circuit::{circuit_eval, eval_wires, gates_arity_ok, seeded_wires, Circuit, WireId};
use crate::engine::{
    collect_unary_inputs, doms_equal, joint_wires, lemma_joint_insert, lemma_single_fold_from_maps,
    run_gates, views, write_back,
};
use crate::error::GmwError;
use crate::rng::random_bool;
use crate::xor_shares::{lemma_xor_from_push, xor2, xor_all, xor_from};

verus! {

broadcast use vstd::std_specs::hash::group_hash_axioms;

/// Party shares for multi-party computation: one wire-to-share map per party.
pub type PartyShares = Vec<HashMap<WireId, bool>>;

/// A GMW protocol instance for a fixed number of parties.
pub struct GmwProtocol {
    party_count: usize,
}

impl GmwProtocol {
    /// The party count this instance was configured with.
    pub closed spec fn spec_party_count(self) -> usize {
        self.party_count
    }

    /// Creates a protocol instance for `party_count` parties; fewer than two
    /// are rejected with `PartyCountMismatch`.
    pub fn new(party_count: usize) -> (r: Result<GmwProtocol, GmwError>)
        ensures
            match r {
                Ok(p) => party_count >= 2 && p.spec_party_count() == party_count,
                Err(e) => {
                    &&& party_count < 2
                    &&& e matches GmwError::PartyCountMismatch { expected, got }
                    &&& expected == 2
                    &&& got == party_count
                },
            },
    {
        if party_count < 2 {
            return Err(GmwError::PartyCountMismatch { expected: 2, got: party_count });
        }
        Ok(GmwProtocol { party_count })
    }

    /// Splits a secret bit into one share per party: `n-1` fresh random bits,
    /// then a last share completing their XOR to the secret, so the whole
    /// vector reconstructs to the secret while any strict subset of it is
    /// uniformly random independent of the secret.
    pub fn secret_share(&self, value: bool) -> (r: Vec<bool>)
        requires
            self.spec_party_count() >= 2,
        ensures
            r@.len() == self.spec_party_count(),
            xor_all(r@) == value,
    {
        let n = self.party_count;
        let mut shares: Vec<bool> = Vec::new();
        let mut accumulated_xor = value;

        let mut k: usize = 0;
        while k < n - 1
            invariant
                n >= 2,
                k <= n - 1,
                shares@.len() == k,
                xor2(xor_all(shares@), accumulated_xor) == value,
            decreases n - 1 - k,
        {
            let share = random_bool();
            let ghost pre = shares@;
            shares.push(share);
            proof {
                lemma_xor_from_push(pre, share, 0);
            }
            accumulated_xor = accumulated_xor ^ share;
            k = k + 1;
        }

        let ghost pre = shares@;
        shares.push(accumulated_xor);
        proof {
            lemma_xor_from_push(pre, accumulated_xor, 0);
        }
        shares
    }

    /// Reconstructs a secret from its shares: the XOR-fold of the vector.
    pub fn reconstruct_shares(&self, shares: &[bool]) -> (r: bool)
        ensures
            r == xor_all(shares@),
    {
        let mut acc = false;
        let mut k: usize = 0;
        while k < shares.len()
            invariant
                k <= shares@.len(),
                xor2(acc, xor_from(shares@, k as int)) == xor_all(shares@),
            decreases shares@.len() - k,
        {
            acc = acc ^ shares[k];
            k = k + 1;
        }
        acc
    }

    /// Evaluates a complete circuit over one share map per party.  The share
    /// vector's length must match the configured party count, else the run
    /// is rejected with `PartyCountMismatch`; on success the joint
    /// (XOR-reconstructed) view of the returned maps is exactly the
    /// plaintext evaluation of the gates over the joint view of the given
    /// maps.
    pub fn execute_circuit(&self, circuit: &Circuit, shares: PartyShares) -> (r: Result<
        PartyShares,
        GmwError,
    >)
        requires
            gates_arity_ok(circuit.gates@),
            doms_equal(views(shares@)),
            self.spec_party_count() >= 2,
        ensures
            match r {
                Ok(out) => {
                    &&& shares@.len() == self.spec_party_count()
                    &&& out@.len() == shares@.len()
                    &&& eval_wires(joint_wires(views(shares@)), circuit.gates@) matches Ok(m)
                    &&& doms_equal(views(out@))
                    &&& joint_wires(views(out@)) == m
                },
                Err(e) => {
                    ||| {
                        &&& shares@.len() != self.spec_party_count()
                        &&& e matches GmwError::PartyCountMismatch { expected, got }
                        &&& expected == self.spec_party_count()
                        &&& got == shares@.len()
                    }
                    ||| {
                        &&& shares@.len() == self.spec_party_count()
                        &&& eval_wires(joint_wires(views(shares@)), circuit.gates@) matches Err(w)
                        &&& e == (GmwError::MissingWire { wire: w })
                    }
                },
            },
    {
        if shares.len() != self.party_count {
            return Err(
                GmwError::PartyCountMismatch { expected: self.party_count, got: shares.len() },
            );
        }

        let mut output_shares = shares;
        match run_gates(&mut output_shares, &circuit.gates) {
            Ok(()) => Ok(output_shares),
            Err(e) => Err(e),
        }
    }

    /// Creates per-party shares of the plaintext inputs, runs the circuit,
    /// and reconstructs every declared output: each reported `(name, value)`
    /// pair carries exactly the plaintext evaluation of that output wire.
    /// Fails with `NoOutputs` when the circuit declares no outputs, with
    /// `InputCountMismatch` when the input count differs from the circuit's
    /// declared inputs, and with `MissingWire` when evaluation reads, or an
    /// output names, a wire that is never produced.
    pub fn run_circuit(&self, circuit: &Circuit, inputs: &[bool]) -> (r: Result<
        Vec<(String, bool)>,
        GmwError,
    >)
        requires
            gates_arity_ok(circuit.gates@),
            self.spec_party_count() >= 2,
            circuit.metadata.inputs@.len() == 0 ==> inputs@.len() == 0,
        ensures
            match r {
                Ok(outs) => {
                    &&& circuit.metadata.outputs@.len() > 0
                    &&& inputs@.len() == circuit.metadata.inputs@.len()
                    &&& circuit_eval(*circuit, inputs@) matches Ok(m)
                    &&& outs@.len() == circuit.metadata.outputs@.len()
                    &&& forall|t: int| 0 <= t < outs@.len() ==> (#[trigger] outs@[t]).0@
                        == circuit.metadata.outputs@[t].name@ && m.contains_key(
                        circuit.metadata.outputs@[t].id,
                    ) && outs@[t].1 == m[circuit.metadata.outputs@[t].id]
                },
                Err(e) => {
                    ||| (circuit.metadata.outputs@.len() == 0 && e == GmwError::NoOutputs)
                    ||| {
                        &&& circuit.metadata.outputs@.len() > 0
                        &&& circuit.metadata.inputs@.len() > 0
                        &&& inputs@.len() != circuit.metadata.inputs@.len()
                        &&& e matches GmwError::InputCountMismatch { expected, got }
                        &&& expected == circuit.metadata.inputs@.len()
                        &&& got == inputs@.len()
                    }
                    ||| {
                        &&& circuit.metadata.outputs@.len() > 0
                        &&& inputs@.len() == circuit.metadata.inputs@.len()
                        &&& circuit_eval(*circuit, inputs@) matches Err(w)
                        &&& e == (GmwError::MissingWire { wire: w })
                    }
                    ||| {
                        &&& circuit.metadata.outputs@.len() > 0
                        &&& inputs@.len() == circuit.metadata.inputs@.len()
                        &&& circuit_eval(*circuit, inputs@) matches Ok(m)
                        &&& exists|t: int| 0 <= t < circuit.metadata.outputs@.len()
                            && !m.contains_key((#[trigger] circuit.metadata.outputs@[t]).id) && e
                            == (GmwError::MissingWire { wire: circuit.metadata.outputs@[t].id })
                    }
                },
            },
    {
        if circuit.metadata.outputs.len() == 0 {
            return Err(GmwError::NoOutputs);
        }

        let expected_inputs = circuit.metadata.inputs.len();
        if expected_inputs > 0 && inputs.len() != expected_inputs {
            return Err(
                GmwError::InputCountMismatch { expected: expected_inputs, got: inputs.len() },
            );
        }

        // One empty share map per party.
        let n = self.party_count;
        let mut party_shares: Vec<HashMap<WireId, bool>> = Vec::new();
        let mut p: usize = 0;
        while p < n
            invariant
                p <= n,
                party_shares@.len() == p,
                forall|u: int| 0 <= u < p ==> (#[trigger] party_shares@[u])@ == Map::<
                    WireId,
                    bool,
                >::empty(),
            decreases n - p,
        {
            party_shares.push(HashMap::new());
            p = p + 1;
        }
        proof {
            assert(joint_wires(views(party_shares@)) =~= seeded_wires(
                circuit.metadata.inputs@,
                inputs@,
                0,
            ));
        }

        // Secret-share every input bit and seed each party's map with its
        // share under the declared input wire id.
        let mut i: usize = 0;
        while i < inputs.len()
            invariant
                i <= inputs@.len(),
                inputs@.len() == circuit.metadata.inputs@.len(),
                party_shares@.len() == n,
                n == self.spec_party_count(),
                n >= 2,
                doms_equal(views(party_shares@)),
                joint_wires(views(party_shares@)) == seeded_wires(
                    circuit.metadata.inputs@,
                    inputs@,
                    i as int,
                ),
            decreases inputs@.len() - i,
        {
            let shares = self.secret_share(inputs[i]);
            let wire_id = circuit.metadata.inputs[i].id;

            let ghost pre = party_shares@;
            write_back(&mut party_shares, wire_id, &shares);
            proof {
                lemma_joint_insert(views(pre), views(party_shares@), wire_id, shares@, 0);
                assert(joint_wires(views(party_shares@)) =~= joint_wires(views(pre)).insert(
                    wire_id,
                    inputs@[i as int],
                ));
                assert forall|u: int| 0 <= u < n implies (#[trigger] views(party_shares@)[u]).dom()
                    == views(party_shares@)[0].dom() by {
                    assert(views(pre)[u].dom() == views(pre)[0].dom());
                    assert(views(party_shares@)[u].dom() =~= views(pre)[u].dom().insert(wire_id));
                    assert(views(party_shares@)[0].dom() =~= views(pre)[0].dom().insert(wire_id));
                }
            }
            i = i + 1;
        }

        // Evaluate the circuit over the seeded share maps.
        let ghost seeded_views = views(party_shares@);
        let result_shares = match self.execute_circuit(circuit, party_shares) {
            Ok(out) => out,
            Err(e) => {
                return Err(e);
            },
        };
        let ghost gm = eval_wires(joint_wires(seeded_views), circuit.gates@)->Ok_0;

        // Reconstruct each declared output from the parties' shares of it.
        let mut outputs: Vec<(String, bool)> = Vec::new();
        let mut t: usize = 0;
        while t < circuit.metadata.outputs.len()
            invariant
                t <= circuit.metadata.outputs@.len(),
                circuit.metadata.outputs@.len() > 0,
                inputs@.len() == circuit.metadata.inputs@.len(),
                result_shares@.len() == n,
                n >= 2,
                doms_equal(views(result_shares@)),
                circuit_eval(*circuit, inputs@) == Ok::<Map<WireId, bool>, WireId>(gm),
                joint_wires(views(result_shares@)) == gm,
                outputs@.len() == t,
                forall|u: int| 0 <= u < t ==> (#[trigger] outputs@[u]).0@
                    == circuit.metadata.outputs@[u].name@ && gm.contains_key(
                    circuit.metadata.outputs@[u].id,
                ) && outputs@[u].1 == gm[circuit.metadata.outputs@[u].id],
            decreases circuit.metadata.outputs@.len() - t,
        {
            let info = &circuit.metadata.outputs[t];
            let output_shares = match collect_unary_inputs(&result_shares, info.id) {
                Ok(s) => s,
                Err(e) => {
                    proof {
                        assert(!gm.contains_key(circuit.metadata.outputs@[t as int].id));
                    }
                    return Err(e);
                },
            };
            let result = self.reconstruct_shares(output_shares.as_slice());
            proof {
                lemma_single_fold_from_maps(views(result_shares@), info.id, output_shares@, 0);
            }
            outputs.push((info.name.clone(), result));
            t = t + 1;
        }

        Ok(outputs)
    }
}

} // verus!
