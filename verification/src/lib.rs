//! GMW secure multi-party computation over Boolean circuits.
//!
//! N parties each hold an additive (XOR) secret share of every circuit input
//! wire and cooperatively compute shares of every output wire.  XOR and NOT
//! gates are evaluated locally; AND gates run a pairwise cross-term
//! sub-protocol built on 1-of-4 oblivious transfer; OR is derived from AND by
//! De Morgan's law.  A plaintext local evaluator serves as a correctness
//! oracle.

pub mod circuit;
pub mod engine;
pub mod error;
pub mod evaluator;
pub mod gates;
pub mod ot;
pub mod party;
pub mod protocol;
pub mod rng;
pub mod xor_shares;

pub use circuit::{Circuit, CircuitMetadata, Gate, GateType, InputInfo, OutputInfo, WireId};
pub use error::GmwError;
pub use evaluator::LocalEvaluator;
pub use gates::{
    and_gate, and_gate_3party_local, compute_cross_term_ot, not_gate, not_gate_3party, or_gate,
    or_gate_3party_local, xor_gate, xor_gate_3party,
};
pub use ot::{BitOT, OTReceiverPairState, OTReceiverState, OTSenderState, SenderMaskedMessages};
pub use party::{
    execute_circuit, execute_circuit_2party, execute_circuit_3party, reconstruct_shares,
    reconstruct_shares_3party, secret_share, secret_share_3party, PartyShares,
};
pub use protocol::GmwProtocol;
