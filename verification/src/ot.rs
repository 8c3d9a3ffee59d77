//! Oblivious-transfer exchanges for the single-process simulation.
//!
//! The protocol needs a 1-of-2 bit transfer — the sender supplies two
//! messages, the receiver learns exactly the one selected by its choice bit —
//! and composes a 1-of-4 transfer from two such exchanges: the first selects
//! a message *pair* by the high choice bit, the second selects one bit of
//! that pair by the low choice bit.
//!
//! All parties of this library run in one process, so the exchange itself is
//! a local, functional model: the sender's payload carries both messages and
//! extraction returns the selected one.  In a distributed deployment the
//! exchange would run over a cryptographic OT primitive with the same
//! selection contract (and the hiding guarantees that only cryptography can
//! provide); everything built on top of it here depends solely on that
//! contract.

use vstd::prelude::*;
use crate::error::GmwError;

verus! {

/// The message a 1-of-2 transfer delivers for a given choice bit.
pub open spec fn selected_bytes(m0: Seq<u8>, m1: Seq<u8>, choice: bool) -> Seq<u8> {
    if choice {
        m1
    } else {
        m0
    }
}

/// The bit a 1-of-2 bit transfer delivers: `m1` when the choice bit is set,
/// else `m0`.
pub open spec fn select2(messages: (bool, bool), choice: bool) -> bool {
    if choice {
        messages.1
    } else {
        messages.0
    }
}

/// The bit a 1-of-4 transfer delivers: the message indexed by the two choice
/// bits `(b0, b1)`, with `b0` the high bit.
pub open spec fn select4(messages: (bool, bool, bool, bool), choice_bits: (bool, bool)) -> bool {
    if choice_bits.0 {
        if choice_bits.1 {
            messages.3
        } else {
            messages.2
        }
    } else {
        if choice_bits.1 {
            messages.1
        } else {
            messages.0
        }
    }
}

/// The byte encoding of a message bit.
pub open spec fn bool_byte(b: bool) -> u8 {
    if b {
        1
    } else {
        0
    }
}

/// The bit read back from a byte message: its first byte, taken as nonzero,
/// or `false` when the message is empty.
pub open spec fn leading_bit(bytes: Seq<u8>) -> bool {
    bytes.len() > 0 && bytes[0] != 0
}

/// The sender's transfer payload, carrying both byte messages.  A receiver
/// extracts only the message its choice bit selects.
pub struct SenderMaskedMessages {
    pub m0: Vec<u8>,
    pub m1: Vec<u8>,
}

/// What the sender holds after a transfer.
pub struct OTSenderState {
    pub masked_messages: SenderMaskedMessages,
}

/// What the receiver of a single-bit transfer holds: its choice bit and the
/// selected message bit.
pub struct OTReceiverState {
    pub choice: bool,
    pub received_bit: bool,
}

/// What the receiver of a bit-pair transfer holds: its choice bit and the
/// selected message pair.
pub struct OTReceiverPairState {
    pub choice: bool,
    pub received_pair: (bool, bool),
}

/// Bit-level oblivious transfer for the GMW gate protocols.
pub struct BitOT;

/// Copies a byte message so both the payload and the extraction result can
/// hold it.
fn copy_bytes(v: &Vec<u8>) -> (r: Vec<u8>)
    ensures
        r@ == v@,
{
    let mut r: Vec<u8> = Vec::new();
    let mut i: usize = 0;
    while i < v.len()
        invariant
            i <= v@.len(),
            r@ == v@.subrange(0, i as int),
        decreases v@.len() - i,
    {
        r.push(v[i]);
        i = i + 1;
    }
    proof {
        assert(r@ =~= v@);
    }
    r
}

impl BitOT {
    /// One 1-of-2 transfer over byte messages: the sender's payload ends up
    /// holding both messages, the receiver's result is exactly the selected
    /// one.
    fn execute_ot_core(m0: Vec<u8>, m1: Vec<u8>, choice: bool) -> (r: (OTSenderState, Vec<u8>))
        ensures
            r.0.masked_messages.m0@ == m0@,
            r.0.masked_messages.m1@ == m1@,
            r.1@ == selected_bytes(m0@, m1@, choice),
    {
        let result = if choice {
            copy_bytes(&m1)
        } else {
            copy_bytes(&m0)
        };
        let sender_state = OTSenderState { masked_messages: SenderMaskedMessages { m0, m1 } };
        (sender_state, result)
    }

    /// A 1-of-2 transfer of single-bit messages `(m0, m1)`: the receiver
    /// obtains exactly the bit selected by its choice.
    pub fn execute(messages: (bool, bool), choice: bool) -> (r: Result<
        (OTSenderState, OTReceiverState),
        GmwError,
    >)
        ensures
            r matches Ok(states) && {
                &&& states.1.received_bit == select2(messages, choice)
                &&& states.1.choice == choice
                &&& states.0.masked_messages.m0@ == seq![bool_byte(messages.0)]
                &&& states.0.masked_messages.m1@ == seq![bool_byte(messages.1)]
            },
    {
        let m0: Vec<u8> = vec![if messages.0 { 1 } else { 0 }];
        let m1: Vec<u8> = vec![if messages.1 { 1 } else { 0 }];

        let (sender_state, result) = Self::execute_ot_core(m0, m1, choice);
        let received_bit = if result.len() > 0 {
            result[0] != 0
        } else {
            false
        };

        Ok((sender_state, OTReceiverState { choice, received_bit }))
    }

    /// Extraction on the receiver side: the bit of the payload message
    /// selected by the receiver's choice.
    pub fn extract_bit(
        receiver_state: &OTReceiverState,
        masked_messages: SenderMaskedMessages,
    ) -> (r: Result<bool, GmwError>)
        ensures
            r == Ok::<bool, GmwError>(
                leading_bit(
                    selected_bytes(
                        masked_messages.m0@,
                        masked_messages.m1@,
                        receiver_state.choice,
                    ),
                ),
            ),
    {
        let selected = if receiver_state.choice {
            masked_messages.m1
        } else {
            masked_messages.m0
        };
        let bit = if selected.len() > 0 {
            selected[0] != 0
        } else {
            false
        };
        Ok(bit)
    }

    /// A 1-of-2 transfer whose two messages are bit pairs: the receiver
    /// obtains exactly the pair selected by its choice.
    fn execute_bit_pairs(
        message_pairs: ((bool, bool), (bool, bool)),
        choice: bool,
    ) -> (r: Result<(OTSenderState, OTReceiverPairState), GmwError>)
        ensures
            r matches Ok(states) && {
                &&& states.1.received_pair == (if choice {
                    message_pairs.1
                } else {
                    message_pairs.0
                })
                &&& states.1.choice == choice
            },
    {
        let ((m00, m01), (m10, m11)) = message_pairs;

        let pair0_bytes: Vec<u8> = vec![
            if m00 { 1 } else { 0 },
            if m01 { 1 } else { 0 },
        ];
        let pair1_bytes: Vec<u8> = vec![
            if m10 { 1 } else { 0 },
            if m11 { 1 } else { 0 },
        ];

        let (sender_state, result) = Self::execute_ot_core(pair0_bytes, pair1_bytes, choice);

        let first = if result.len() > 0 {
            result[0] != 0
        } else {
            false
        };
        let second = if result.len() > 1 {
            result[1] != 0
        } else {
            false
        };

        Ok((sender_state, OTReceiverPairState { choice, received_pair: (first, second) }))
    }

    /// A 1-of-4 transfer built from two sequential 1-of-2 transfers: the
    /// first selects a message pair by the high choice bit, the second
    /// selects one bit of that pair by the low choice bit.  The receiver
    /// obtains exactly `m_(b0,b1)`.
    pub fn execute_1_out_of_4(
        messages: (bool, bool, bool, bool),
        choice_bits: (bool, bool),
    ) -> (r: Result<bool, GmwError>)
        ensures
            r == Ok::<bool, GmwError>(select4(messages, choice_bits)),
    {
        let (m00, m01, m10, m11) = messages;
        let (b0, b1) = choice_bits;

        let message_pairs = ((m00, m01), (m10, m11));
        let (_sender_state1, receiver_state1) = Self::execute_bit_pairs(message_pairs, b0)?;

        let selected_pair = receiver_state1.received_pair;
        let (_sender_state2, receiver_state2) = Self::execute(selected_pair, b1)?;

        Ok(receiver_state2.received_bit)
    }
}

} // verus!
