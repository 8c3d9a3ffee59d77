//! Fixed-arity party bookkeeping: two- and three-party circuit runs and the
//! matching secret-sharing helpers.
//!
//! Each party owns one wire-to-share map, isolated from the others; the
//! engines here wrap the shared gate loop of `engine` for the two fixed
//! party counts and return every party's enlarged map.  The contracts state
//! that the joint (XOR-reconstructed) view of the returned maps is exactly
//! the plaintext evaluation of the circuit over the joint view of the input
//! maps.

use vstd::prelude::*;
use std::collections::HashMap;
use crate::circuit::{eval_wires, gates_arity_ok, Circuit, WireId};
use crate::engine::{doms_equal, joint_wires, run_gates, views};
use crate::error::GmwError;
use crate::rng::random_bool;
use crate::xor_shares::xor2;

verus! {

/// Per-party share maps of a run, for the two supported fixed party counts.
#[derive(Debug, Clone)]
pub enum PartyShares {
    TwoParty { alice: HashMap<WireId, bool>, bob: HashMap<WireId, bool> },
    ThreeParty {
        party0: HashMap<WireId, bool>,
        party1: HashMap<WireId, bool>,
        party2: HashMap<WireId, bool>,
    },
}

/// Evaluates a complete circuit over two parties' share maps.  On success
/// the joint view of the returned maps — wire by wire, the XOR of the two
/// parties' shares — is exactly the plaintext evaluation of the circuit's
/// gates over the joint view of the given maps.
pub fn execute_circuit_2party(
    circuit: &Circuit,
    alice_shares: &HashMap<WireId, bool>,
    bob_shares: &HashMap<WireId, bool>,
) -> (r: Result<(HashMap<WireId, bool>, HashMap<WireId, bool>), GmwError>)
    requires
        gates_arity_ok(circuit.gates@),
        alice_shares@.dom() == bob_shares@.dom(),
    ensures
        match r {
            Ok(out) => {
                &&& eval_wires(joint_wires(seq![alice_shares@, bob_shares@]), circuit.gates@)
                    matches Ok(m)
                &&& out.0@.dom() == out.1@.dom()
                &&& joint_wires(seq![out.0@, out.1@]) == m
            },
            Err(e) => {
                &&& eval_wires(joint_wires(seq![alice_shares@, bob_shares@]), circuit.gates@)
                    matches Err(w)
                &&& e == (GmwError::MissingWire { wire: w })
            },
        },
{
    let mut maps: Vec<HashMap<WireId, bool>> = Vec::new();
    maps.push(alice_shares.clone());
    maps.push(bob_shares.clone());
    proof {
        assert(views(maps@) =~= seq![alice_shares@, bob_shares@]);
    }

    match run_gates(&mut maps, &circuit.gates) {
        Ok(()) => {},
        Err(e) => {
            return Err(e);
        },
    }

    let ghost fin = maps@;
    // Two maps were pushed and none removed, so the pops cannot fail: the
    // None branches are provably dead.
    let bob_result = match maps.pop() {
        Some(m) => m,
        None => {
            proof {
                assert(false);
            }
            HashMap::new()
        },
    };
    let alice_result = match maps.pop() {
        Some(m) => m,
        None => {
            proof {
                assert(false);
            }
            HashMap::new()
        },
    };
    proof {
        assert(seq![alice_result@, bob_result@] =~= views(fin));
    }
    Ok((alice_result, bob_result))
}

/// Evaluates a complete circuit over three parties' share maps; the joint
/// view of the returned maps is the plaintext evaluation of the gates over
/// the joint view of the given maps.
pub fn execute_circuit_3party(
    circuit: &Circuit,
    party0_shares: &HashMap<WireId, bool>,
    party1_shares: &HashMap<WireId, bool>,
    party2_shares: &HashMap<WireId, bool>,
) -> (r: Result<
    (HashMap<WireId, bool>, HashMap<WireId, bool>, HashMap<WireId, bool>),
    GmwError,
>)
    requires
        gates_arity_ok(circuit.gates@),
        party1_shares@.dom() == party0_shares@.dom(),
        party2_shares@.dom() == party0_shares@.dom(),
    ensures
        match r {
            Ok(out) => {
                &&& eval_wires(
                    joint_wires(seq![party0_shares@, party1_shares@, party2_shares@]),
                    circuit.gates@,
                ) matches Ok(m)
                &&& out.1@.dom() == out.0@.dom()
                &&& out.2@.dom() == out.0@.dom()
                &&& joint_wires(seq![out.0@, out.1@, out.2@]) == m
            },
            Err(e) => {
                &&& eval_wires(
                    joint_wires(seq![party0_shares@, party1_shares@, party2_shares@]),
                    circuit.gates@,
                ) matches Err(w)
                &&& e == (GmwError::MissingWire { wire: w })
            },
        },
{
    let mut maps: Vec<HashMap<WireId, bool>> = Vec::new();
    maps.push(party0_shares.clone());
    maps.push(party1_shares.clone());
    maps.push(party2_shares.clone());
    proof {
        assert(views(maps@) =~= seq![party0_shares@, party1_shares@, party2_shares@]);
    }

    match run_gates(&mut maps, &circuit.gates) {
        Ok(()) => {},
        Err(e) => {
            return Err(e);
        },
    }

    let ghost fin = maps@;
    // Three maps were pushed and none removed, so the pops cannot fail: the
    // None branches are provably dead.
    let p2_result = match maps.pop() {
        Some(m) => m,
        None => {
            proof {
                assert(false);
            }
            HashMap::new()
        },
    };
    let p1_result = match maps.pop() {
        Some(m) => m,
        None => {
            proof {
                assert(false);
            }
            HashMap::new()
        },
    };
    let p0_result = match maps.pop() {
        Some(m) => m,
        None => {
            proof {
                assert(false);
            }
            HashMap::new()
        },
    };
    proof {
        assert(seq![p0_result@, p1_result@, p2_result@] =~= views(fin));
    }
    Ok((p0_result, p1_result, p2_result))
}

/// Evaluates a complete circuit with multi-party support, dispatching on the
/// party count the shares were built for.  The run keeps its variant, and the
/// joint view of the returned maps is the plaintext evaluation of the gates
/// over the joint view of the given maps.
pub fn execute_circuit(circuit: &Circuit, shares: PartyShares) -> (r: Result<
    PartyShares,
    GmwError,
>)
    requires
        gates_arity_ok(circuit.gates@),
        match shares {
            PartyShares::TwoParty { alice, bob } => alice@.dom() == bob@.dom(),
            PartyShares::ThreeParty { party0, party1, party2 } => party1@.dom() == party0@.dom()
                && party2@.dom() == party0@.dom(),
        },
    ensures
        match r {
            Ok(out) => match out {
                PartyShares::TwoParty { alice: alice_out, bob: bob_out } => {
                    &&& shares matches PartyShares::TwoParty { alice, bob }
                    &&& eval_wires(joint_wires(seq![alice@, bob@]), circuit.gates@) matches Ok(m)
                    &&& alice_out@.dom() == bob_out@.dom()
                    &&& joint_wires(seq![alice_out@, bob_out@]) == m
                },
                PartyShares::ThreeParty { party0: p0_out, party1: p1_out, party2: p2_out } => {
                    &&& shares matches PartyShares::ThreeParty { party0, party1, party2 }
                    &&& eval_wires(joint_wires(seq![party0@, party1@, party2@]), circuit.gates@)
                        matches Ok(m)
                    &&& p1_out@.dom() == p0_out@.dom()
                    &&& p2_out@.dom() == p0_out@.dom()
                    &&& joint_wires(seq![p0_out@, p1_out@, p2_out@]) == m
                },
            },
            Err(e) => {
                ||| {
                    &&& shares matches PartyShares::TwoParty { alice, bob }
                    &&& eval_wires(joint_wires(seq![alice@, bob@]), circuit.gates@) matches Err(w)
                    &&& e == (GmwError::MissingWire { wire: w })
                }
                ||| {
                    &&& shares matches PartyShares::ThreeParty { party0, party1, party2 }
                    &&& eval_wires(joint_wires(seq![party0@, party1@, party2@]), circuit.gates@)
                        matches Err(w)
                    &&& e == (GmwError::MissingWire { wire: w })
                }
            },
        },
{
    match shares {
        PartyShares::TwoParty { alice, bob } => {
            let (alice_result, bob_result) = execute_circuit_2party(circuit, &alice, &bob)?;
            Ok(PartyShares::TwoParty { alice: alice_result, bob: bob_result })
        },
        PartyShares::ThreeParty { party0, party1, party2 } => {
            let (p0_result, p1_result, p2_result) = execute_circuit_3party(
                circuit,
                &party0,
                &party1,
                &party2,
            )?;
            Ok(PartyShares::ThreeParty { party0: p0_result, party1: p1_result, party2: p2_result })
        },
    }
}

/// Creates secret shares for 2-party computation: a fresh random bit and its
/// complement relative to the secret, so that `share0 XOR share1` is the
/// secret bit.
pub fn secret_share(value: bool) -> (r: (bool, bool))
    ensures
        xor2(r.0, r.1) == value,
{
    let share0 = random_bool();
    let share1 = value ^ share0;
    (share0, share1)
}

/// Reconstructs a secret from 2 shares: their XOR.
pub fn reconstruct_shares(share0: bool, share1: bool) -> (r: bool)
    ensures
        r == xor2(share0, share1),
{
    share0 ^ share1
}

/// Creates secret shares for 3-party computation: two fresh random bits and
/// the bit completing their XOR to the secret.
pub fn secret_share_3party(value: bool) -> (r: (bool, bool, bool))
    ensures
        xor2(r.0, xor2(r.1, r.2)) == value,
{
    let share0 = random_bool();
    let share1 = random_bool();
    let share2 = value ^ share0 ^ share1;
    (share0, share1, share2)
}

/// Reconstructs a secret from 3 shares: their XOR.
pub fn reconstruct_shares_3party(share0: bool, share1: bool, share2: bool) -> (r: bool)
    ensures
        r == xor2(share0, xor2(share1, share2)),
{
    share0 ^ share1 ^ share2
}

} // verus!
