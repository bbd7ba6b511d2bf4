use mos6502::operators::OPCodes;

#[test]
fn opcode_round_trip_over_the_whole_table() {
    // For every opcode byte with a table entry, decoding and re-encoding
    // recovers the identical byte.
    let mut entries: usize = 0;
    for i in 0..256usize {
        let byte = i as u8;
        if OPCodes::has_entry(byte) {
            entries += 1;
            let width = OPCodes::param_count(byte);
            let value = if width == 0 { None } else { Some(0x10isize) };
            let instruction = OPCodes::instruction_to_opcode(byte, value);
            assert_eq!(instruction.opcode_byte(), byte);
        }
    }
    assert_eq!(entries, 151);
}

#[test]
fn param_count_per_addressing_mode() {
    // Implied takes no operand byte, immediate takes one, absolute two.
    assert_eq!(OPCodes::param_count(0xea), 0);
    assert_eq!(OPCodes::param_count(0xa9), 1);
    assert_eq!(OPCodes::param_count(0xad), 2);
}

#[test]
fn decode_examples() {
    assert_eq!(OPCodes::instruction_to_opcode(0x00, None), OPCodes::BRK);
    assert_eq!(
        OPCodes::instruction_to_opcode(0xad, Some(0xff2f)),
        OPCodes::LDA_ABS(0xff2f)
    );
    assert_eq!(
        OPCodes::instruction_to_opcode(0xa9, Some(0x30)),
        OPCodes::LDA_IMM(0x30)
    );
    assert_eq!(
        OPCodes::instruction_to_opcode(0x95, Some(0x40)),
        OPCodes::STA_XZPG(0x40)
    );
}

#[test]
fn relative_branch_operands_decode_as_signed() {
    // 0xfe as a two's-complement byte is -2; 0x7f stays positive.
    assert_eq!(OPCodes::instruction_to_opcode(0xf0, Some(0xfe)), OPCodes::BEQ(-2));
    assert_eq!(OPCodes::instruction_to_opcode(0x10, Some(0x7f)), OPCodes::BPL(0x7f));
    assert_eq!(OPCodes::instruction_to_opcode(0x30, Some(0x80)), OPCodes::BMI(-128));
}

#[test]
fn unofficial_opcodes_have_no_entry() {
    assert!(!OPCodes::has_entry(0x02));
    assert!(!OPCodes::has_entry(0x03));
    assert!(!OPCodes::has_entry(0xff));
    assert!(OPCodes::has_entry(0x00));
    assert!(OPCodes::has_entry(0xea));
}

#[test]
fn encode_examples() {
    assert_eq!(OPCodes::LDA_ABS(0x1234).opcode_byte(), 0xad);
    assert_eq!(OPCodes::NOP.opcode_byte(), 0xea);
    assert_eq!(OPCodes::BEQ(-2).opcode_byte(), 0xf0);
}
