use std::collections::HashMap;

use gmw_rs::circuit::{Circuit, CircuitMetadata, Gate, GateType, InputInfo, OutputInfo};
use gmw_rs::error::GmwError;
use gmw_rs::evaluator::LocalEvaluator;
use gmw_rs::protocol::GmwProtocol;

fn xor_circuit() -> Circuit {
    Circuit {
        name: "test_xor".to_string(),
        description: "Test XOR gate".to_string(),
        gates: vec![Gate {
            id: 3,
            gate_type: GateType::XOR,
            inputs: vec![1, 2],
        }],
        metadata: CircuitMetadata {
            inputs: vec![
                InputInfo { name: "a".to_string(), id: 1 },
                InputInfo { name: "b".to_string(), id: 2 },
            ],
            outputs: vec![OutputInfo { name: "result".to_string(), id: 3 }],
        },
    }
}

fn half_adder_circuit() -> Circuit {
    Circuit {
        name: "half_adder".to_string(),
        description: "sum = a XOR b, carry = a AND b".to_string(),
        gates: vec![
            Gate { id: 3, gate_type: GateType::XOR, inputs: vec![1, 2] },
            Gate { id: 4, gate_type: GateType::AND, inputs: vec![1, 2] },
        ],
        metadata: CircuitMetadata {
            inputs: vec![
                InputInfo { name: "a".to_string(), id: 1 },
                InputInfo { name: "b".to_string(), id: 2 },
            ],
            outputs: vec![
                OutputInfo { name: "sum".to_string(), id: 3 },
                OutputInfo { name: "carry".to_string(), id: 4 },
            ],
        },
    }
}

#[test]
fn test_secret_share() {
    // Test with different party counts
    for n in 2..=6 {
        let protocol = GmwProtocol::new(n).unwrap();

        // Test true value
        let shares = protocol.secret_share(true);
        assert_eq!(shares.len(), n);
        assert_eq!(protocol.reconstruct_shares(&shares), true);

        // Test false value
        let shares = protocol.secret_share(false);
        assert_eq!(shares.len(), n);
        assert_eq!(protocol.reconstruct_shares(&shares), false);
    }
}

#[test]
fn test_execute_circuit_xor() {
    let circuit = xor_circuit();

    // Test with 4 parties: true XOR false = true
    let protocol = GmwProtocol::new(4).unwrap();
    let a_shares = protocol.secret_share(true);
    let b_shares = protocol.secret_share(false);

    let mut party_shares = Vec::new();
    for i in 0..4 {
        let mut shares = HashMap::new();
        shares.insert(1, a_shares[i]);
        shares.insert(2, b_shares[i]);
        party_shares.push(shares);
    }

    let result = protocol.execute_circuit(&circuit, party_shares).unwrap();

    // Collect output shares and reconstruct
    let output_shares: Vec<bool> = result
        .iter()
        .map(|party| party.get(&3).copied().unwrap())
        .collect();

    assert_eq!(protocol.reconstruct_shares(&output_shares), true);
}

#[test]
fn test_share_reconstruct_random_trials() {
    // reconstruct(share(x, n)) == x over 1000+ random share vectors for
    // party counts 2 through 5.
    for n in 2..=5 {
        let protocol = GmwProtocol::new(n).unwrap();
        for _ in 0..150 {
            for value in [false, true] {
                let shares = protocol.secret_share(value);
                assert_eq!(shares.len(), n);
                assert_eq!(protocol.reconstruct_shares(&shares), value);
            }
        }
    }
}

#[test]
fn test_half_adder_end_to_end() {
    let circuit = half_adder_circuit();
    let protocol = GmwProtocol::new(2).unwrap();

    // inputs (1,1): sum = 0, carry = 1
    let outputs = protocol.run_circuit(&circuit, &[true, true]).unwrap();
    assert_eq!(outputs.len(), 2);
    assert_eq!(outputs[0], ("sum".to_string(), false));
    assert_eq!(outputs[1], ("carry".to_string(), true));

    // inputs (1,0): sum = 1, carry = 0
    let outputs = protocol.run_circuit(&circuit, &[true, false]).unwrap();
    assert_eq!(outputs[0], ("sum".to_string(), true));
    assert_eq!(outputs[1], ("carry".to_string(), false));

    // Cross-check every case against the local evaluator.
    for a in [false, true] {
        for b in [false, true] {
            let outputs = protocol.run_circuit(&circuit, &[a, b]).unwrap();
            let sum = LocalEvaluator::get_output(&circuit, &[a, b], 3).unwrap();
            let carry = LocalEvaluator::get_output(&circuit, &[a, b], 4).unwrap();
            assert_eq!(outputs[0].1, sum);
            assert_eq!(outputs[1].1, carry);
        }
    }
}

#[test]
fn test_run_circuit_many_parties_matches_local_evaluator() {
    let circuit = half_adder_circuit();
    for n in 2..=5 {
        let protocol = GmwProtocol::new(n).unwrap();
        for a in [false, true] {
            for b in [false, true] {
                let outputs = protocol.run_circuit(&circuit, &[a, b]).unwrap();
                assert_eq!(outputs[0].1, a ^ b);
                assert_eq!(outputs[1].1, a & b);
            }
        }
    }
}

#[test]
fn test_protocol_new_rejects_single_party() {
    assert!(matches!(
        GmwProtocol::new(1),
        Err(GmwError::PartyCountMismatch { expected: 2, got: 1 })
    ));
    assert!(matches!(
        GmwProtocol::new(0),
        Err(GmwError::PartyCountMismatch { expected: 2, got: 0 })
    ));
}

#[test]
fn test_execute_circuit_party_count_mismatch() {
    let circuit = xor_circuit();
    let protocol = GmwProtocol::new(3).unwrap();

    // Only two share maps for a three-party protocol.
    let mut alice = HashMap::new();
    alice.insert(1, true);
    alice.insert(2, false);
    let mut bob = HashMap::new();
    bob.insert(1, false);
    bob.insert(2, false);

    assert_eq!(
        protocol.execute_circuit(&circuit, vec![alice, bob]).err(),
        Some(GmwError::PartyCountMismatch { expected: 3, got: 2 })
    );
}

#[test]
fn test_run_circuit_input_count_mismatch() {
    let circuit = half_adder_circuit();
    let protocol = GmwProtocol::new(2).unwrap();
    assert_eq!(
        protocol.run_circuit(&circuit, &[true]).err(),
        Some(GmwError::InputCountMismatch { expected: 2, got: 1 })
    );
}

#[test]
fn test_run_circuit_no_outputs() {
    let mut circuit = half_adder_circuit();
    circuit.metadata.outputs = Vec::new();
    let protocol = GmwProtocol::new(2).unwrap();
    assert_eq!(
        protocol.run_circuit(&circuit, &[true, true]).err(),
        Some(GmwError::NoOutputs)
    );
}

#[test]
fn test_run_circuit_missing_wire() {
    // The engine trusts the stored gate order; a gate reading a wire that is
    // never produced aborts the run with MissingWire.
    let circuit = Circuit {
        name: "dangling".to_string(),
        description: "gate reads a wire never produced".to_string(),
        gates: vec![Gate { id: 3, gate_type: GateType::AND, inputs: vec![1, 7] }],
        metadata: CircuitMetadata {
            inputs: vec![
                InputInfo { name: "a".to_string(), id: 1 },
                InputInfo { name: "b".to_string(), id: 2 },
            ],
            outputs: vec![OutputInfo { name: "result".to_string(), id: 3 }],
        },
    };
    let protocol = GmwProtocol::new(2).unwrap();
    assert_eq!(
        protocol.run_circuit(&circuit, &[true, true]).err(),
        Some(GmwError::MissingWire { wire: 7 })
    );
}

#[test]
fn test_share_hiding_distribution() {
    // For a fixed secret, every strict subset of the shares looks random:
    // over many trials each share takes both values, and the first two
    // shares of a three-party split take all four combinations.
    let protocol = GmwProtocol::new(3).unwrap();
    for secret in [false, true] {
        let mut seen = [[false; 2]; 2];
        let mut first_true = 0usize;
        for _ in 0..1000 {
            let shares = protocol.secret_share(secret);
            seen[shares[0] as usize][shares[1] as usize] = true;
            if shares[0] {
                first_true += 1;
            }
        }
        assert!(first_true > 0 && first_true < 1000);
        assert!(seen[0][0] && seen[0][1] && seen[1][0] && seen[1][1]);
    }
}
