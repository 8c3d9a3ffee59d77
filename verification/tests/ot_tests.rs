use gmw_rs::ot::BitOT;

#[test]
fn test_bit_ot() {
    // Basic OT test
    let sender_bits = (false, true);
    let receiver_choice = true;

    let (sender_state, receiver_state) = BitOT::execute(sender_bits, receiver_choice).unwrap();
    let result = BitOT::extract_bit(&receiver_state, sender_state.masked_messages).unwrap();

    assert_eq!(result, true); // choice=1 so we get m1=true
}

#[test]
fn test_1_out_of_4_ot() {
    // Test 1-out-of-4 OT
    let messages = (false, true, true, false); // m00, m01, m10, m11

    // Test all possible choices
    let test_cases = [
        ((false, false), false), // choice 00 -> m00
        ((false, true), true),   // choice 01 -> m01
        ((true, false), true),   // choice 10 -> m10
        ((true, true), false),   // choice 11 -> m11
    ];

    for (choice_bits, expected) in test_cases {
        let result = BitOT::execute_1_out_of_4(messages, choice_bits).unwrap();
        assert_eq!(result, expected, "Failed for choice {:?}", choice_bits);
    }
}

#[test]
fn test_1_out_of_4_ot_all_message_tables() {
    // Every 4-bit message table, every choice: the selected message comes back.
    for table in 0u8..16 {
        let m = (
            table & 1 != 0,
            table & 2 != 0,
            table & 4 != 0,
            table & 8 != 0,
        );
        let expectations = [
            ((false, false), m.0),
            ((false, true), m.1),
            ((true, false), m.2),
            ((true, true), m.3),
        ];
        for (choice, expected) in expectations {
            assert_eq!(BitOT::execute_1_out_of_4(m, choice).unwrap(), expected);
        }
    }
}

#[test]
fn test_bit_ot_both_choices() {
    for m0 in [false, true] {
        for m1 in [false, true] {
            for choice in [false, true] {
                let (_sender, receiver) = BitOT::execute((m0, m1), choice).unwrap();
                let expected = if choice { m1 } else { m0 };
                assert_eq!(receiver.received_bit, expected);
            }
        }
    }
}
