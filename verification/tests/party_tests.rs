use std::collections::HashMap;

use gmw_rs::circuit::{Circuit, CircuitMetadata, Gate, GateType, InputInfo, OutputInfo};
use gmw_rs::error::GmwError;
use gmw_rs::evaluator::LocalEvaluator;
use gmw_rs::party::{
    execute_circuit, execute_circuit_2party, execute_circuit_3party, reconstruct_shares,
    reconstruct_shares_3party, secret_share, secret_share_3party, PartyShares,
};

fn and_circuit() -> Circuit {
    Circuit {
        name: "test_and".to_string(),
        description: "Test AND gate".to_string(),
        gates: vec![Gate {
            id: 3,
            gate_type: GateType::AND,
            inputs: vec![1, 2],
        }],
        metadata: CircuitMetadata {
            inputs: vec![
                InputInfo { name: "a".to_string(), id: 1 },
                InputInfo { name: "b".to_string(), id: 2 },
            ],
            outputs: vec![OutputInfo { name: "result".to_string(), id: 3 }],
        },
    }
}

#[test]
fn test_secret_share_round_trip_2party() {
    for value in [false, true] {
        let (s0, s1) = secret_share(value);
        assert_eq!(reconstruct_shares(s0, s1), value);
    }
}

#[test]
fn test_secret_share_round_trip_3party() {
    for value in [false, true] {
        let (s0, s1, s2) = secret_share_3party(value);
        assert_eq!(reconstruct_shares_3party(s0, s1, s2), value);
    }
}

#[test]
fn test_execute_circuit_2party_and() {
    let circuit = and_circuit();
    for a in [false, true] {
        for b in [false, true] {
            let (a0, a1) = secret_share(a);
            let (b0, b1) = secret_share(b);

            let mut alice = HashMap::new();
            alice.insert(1, a0);
            alice.insert(2, b0);
            let mut bob = HashMap::new();
            bob.insert(1, a1);
            bob.insert(2, b1);

            let (alice_out, bob_out) = execute_circuit_2party(&circuit, &alice, &bob).unwrap();
            let result = reconstruct_shares(alice_out[&3], bob_out[&3]);

            let expected = LocalEvaluator::get_output(&circuit, &[a, b], 3).unwrap();
            assert_eq!(result, expected);
        }
    }
}

#[test]
fn test_execute_circuit_3party_and() {
    let circuit = and_circuit();
    for a in [false, true] {
        for b in [false, true] {
            let (a0, a1, a2) = secret_share_3party(a);
            let (b0, b1, b2) = secret_share_3party(b);

            let mut p0 = HashMap::new();
            p0.insert(1, a0);
            p0.insert(2, b0);
            let mut p1 = HashMap::new();
            p1.insert(1, a1);
            p1.insert(2, b1);
            let mut p2 = HashMap::new();
            p2.insert(1, a2);
            p2.insert(2, b2);

            let (o0, o1, o2) = execute_circuit_3party(&circuit, &p0, &p1, &p2).unwrap();
            let result = reconstruct_shares_3party(o0[&3], o1[&3], o2[&3]);

            let expected = LocalEvaluator::get_output(&circuit, &[a, b], 3).unwrap();
            assert_eq!(result, expected);
        }
    }
}

#[test]
fn test_execute_circuit_dispatch_two_party() {
    let circuit = and_circuit();
    let (a0, a1) = secret_share(true);
    let (b0, b1) = secret_share(true);

    let mut alice = HashMap::new();
    alice.insert(1, a0);
    alice.insert(2, b0);
    let mut bob = HashMap::new();
    bob.insert(1, a1);
    bob.insert(2, b1);

    let result = execute_circuit(&circuit, PartyShares::TwoParty { alice, bob }).unwrap();
    match result {
        PartyShares::TwoParty { alice, bob } => {
            assert_eq!(reconstruct_shares(alice[&3], bob[&3]), true);
        }
        PartyShares::ThreeParty { .. } => panic!("two-party run changed its party count"),
    }
}

#[test]
fn test_execute_circuit_dispatch_three_party() {
    let circuit = and_circuit();
    let (a0, a1, a2) = secret_share_3party(true);
    let (b0, b1, b2) = secret_share_3party(false);

    let mut party0 = HashMap::new();
    party0.insert(1, a0);
    party0.insert(2, b0);
    let mut party1 = HashMap::new();
    party1.insert(1, a1);
    party1.insert(2, b1);
    let mut party2 = HashMap::new();
    party2.insert(1, a2);
    party2.insert(2, b2);

    let result = execute_circuit(
        &circuit,
        PartyShares::ThreeParty { party0, party1, party2 },
    )
    .unwrap();
    match result {
        PartyShares::ThreeParty { party0, party1, party2 } => {
            assert_eq!(
                reconstruct_shares_3party(party0[&3], party1[&3], party2[&3]),
                false
            );
        }
        PartyShares::TwoParty { .. } => panic!("three-party run changed its party count"),
    }
}

#[test]
fn test_execute_circuit_2party_missing_wire() {
    // Its one gate reads wire 7, which no party holds: the run aborts with
    // MissingWire instead of producing partial results.
    let circuit = Circuit {
        name: "dangling".to_string(),
        description: "gate reads an unseeded wire".to_string(),
        gates: vec![Gate { id: 3, gate_type: GateType::AND, inputs: vec![1, 7] }],
        metadata: CircuitMetadata {
            inputs: vec![
                InputInfo { name: "a".to_string(), id: 1 },
                InputInfo { name: "b".to_string(), id: 2 },
            ],
            outputs: vec![OutputInfo { name: "result".to_string(), id: 3 }],
        },
    };

    let mut alice = HashMap::new();
    alice.insert(1, true);
    alice.insert(2, false);
    let mut bob = HashMap::new();
    bob.insert(1, false);
    bob.insert(2, false);

    assert_eq!(
        execute_circuit_2party(&circuit, &alice, &bob).err(),
        Some(GmwError::MissingWire { wire: 7 })
    );
}
