use gmw_rs::circuit::{Circuit, CircuitMetadata, Gate, GateType, InputInfo, OutputInfo};
use gmw_rs::error::GmwError;
use gmw_rs::evaluator::LocalEvaluator;

fn and_circuit() -> Circuit {
    Circuit {
        name: "test_and".to_string(),
        description: "Test AND gate".to_string(),
        gates: vec![Gate {
            id: 3,
            gate_type: GateType::AND,
            inputs: vec![1, 2],
        }],
        metadata: CircuitMetadata {
            inputs: vec![
                InputInfo {
                    name: "a".to_string(),
                    id: 1,
                },
                InputInfo {
                    name: "b".to_string(),
                    id: 2,
                },
            ],
            outputs: vec![OutputInfo {
                name: "result".to_string(),
                id: 3,
            }],
        },
    }
}

#[test]
fn test_local_evaluator_and_gate() {
    let circuit = and_circuit();

    // Test all combinations
    assert_eq!(
        LocalEvaluator::get_output(&circuit, &[false, false], 3).unwrap(),
        false
    );
    assert_eq!(
        LocalEvaluator::get_output(&circuit, &[false, true], 3).unwrap(),
        false
    );
    assert_eq!(
        LocalEvaluator::get_output(&circuit, &[true, false], 3).unwrap(),
        false
    );
    assert_eq!(
        LocalEvaluator::get_output(&circuit, &[true, true], 3).unwrap(),
        true
    );
}

#[test]
fn test_local_evaluator_all_gate_types() {
    // One gate of each kind, wired off two inputs.
    let circuit = Circuit {
        name: "every_gate".to_string(),
        description: "one gate of each kind".to_string(),
        gates: vec![
            Gate { id: 3, gate_type: GateType::AND, inputs: vec![1, 2] },
            Gate { id: 4, gate_type: GateType::OR, inputs: vec![1, 2] },
            Gate { id: 5, gate_type: GateType::XOR, inputs: vec![1, 2] },
            Gate { id: 6, gate_type: GateType::NOT, inputs: vec![1] },
        ],
        metadata: CircuitMetadata {
            inputs: vec![
                InputInfo { name: "a".to_string(), id: 1 },
                InputInfo { name: "b".to_string(), id: 2 },
            ],
            outputs: vec![OutputInfo { name: "and".to_string(), id: 3 }],
        },
    };

    for a in [false, true] {
        for b in [false, true] {
            let wires = LocalEvaluator::evaluate(&circuit, &[a, b]).unwrap();
            assert_eq!(wires[&3], a & b);
            assert_eq!(wires[&4], a | b);
            assert_eq!(wires[&5], a ^ b);
            assert_eq!(wires[&6], !a);
        }
    }
}

#[test]
fn test_local_evaluator_wire_not_found() {
    let circuit = and_circuit();
    assert_eq!(
        LocalEvaluator::get_output(&circuit, &[true, true], 99),
        Err(GmwError::WireNotFound { wire: 99 })
    );
}

#[test]
fn test_local_evaluator_undefined_gate_input() {
    // Its one gate reads wire 7, which nothing produces: evaluation itself fails.
    let circuit = Circuit {
        name: "dangling".to_string(),
        description: "gate reads an undefined wire".to_string(),
        gates: vec![Gate { id: 3, gate_type: GateType::AND, inputs: vec![1, 7] }],
        metadata: CircuitMetadata {
            inputs: vec![
                InputInfo { name: "a".to_string(), id: 1 },
                InputInfo { name: "b".to_string(), id: 2 },
            ],
            outputs: vec![OutputInfo { name: "result".to_string(), id: 3 }],
        },
    };
    assert_eq!(
        LocalEvaluator::evaluate(&circuit, &[true, true]).err(),
        Some(GmwError::WireNotFound { wire: 7 })
    );
}
