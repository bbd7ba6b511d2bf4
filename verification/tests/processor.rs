use mos6502::machine::HaltReason;
use mos6502::operators::OPCodes;
use mos6502::processor::LoadError;
use mos6502::processor::Processor;

#[test]
pub fn write_and_write_byte() {
    let mut processor = Processor::new();
    processor.pc = 0xff2f;
    processor.write_byte(0xff2f, 0x33);
    assert_eq!(processor.read_byte(), Some(0x33));
}

#[test]
pub fn write_and_read_word() {
    let mut processor = Processor::new();

    processor.pc = 0xff2f;
    processor.write_word(0xff2f, 0xf6e4);
    assert_eq!(processor.read_word(), Some(0xf6e4));
}

#[test]
pub fn test_lda() {
    let mut processor = Processor::new();

    // Write the value 0x30 into ff2f
    processor.write_byte(0xff2f, 0x30);

    // Write the program
    let loaded = processor.write_program(&vec![0xad, 0x2f, 0xff, 0x60]);
    assert!(loaded.is_ok());

    // Execute
    processor.execute(0xffff);

    // Check A
    assert_eq!(processor.a, 0x30);
}

#[test]
fn word_round_trip_at_address_space_top() {
    let mut processor = Processor::new();
    processor.write_word(0xffff, 0xabcd);
    assert_eq!(processor.read_byte_at_address(0xffff), Some(0xcd));
    assert_eq!(processor.read_byte_at_address(0x0000), Some(0xab));
    assert_eq!(processor.read_word_at_address(0xffff), Some(0xabcd));
}

#[test]
fn read_byte_wraps_program_counter() {
    let mut processor = Processor::new();
    processor.pc = 0xffff;
    processor.write_byte(0xffff, 0x5a);
    assert_eq!(processor.read_byte(), Some(0x5a));
    assert_eq!(processor.pc, 0x0000);
}

#[test]
fn load_immediate_flags_zero() {
    let mut processor = Processor::new();
    processor.handle_opcode(OPCodes::LDA_IMM(0x00));
    assert_eq!(processor.a, 0x00);
    assert_eq!(processor.sr & 0x02, 0x02, "Zero must be set");
    assert_eq!(processor.sr & 0x80, 0x00, "Negative must be clear");
}

#[test]
fn load_immediate_flags_negative() {
    let mut processor = Processor::new();
    processor.handle_opcode(OPCodes::LDA_IMM(0x80));
    assert_eq!(processor.a, 0x80);
    assert_eq!(processor.sr & 0x02, 0x00, "Zero must be clear");
    assert_eq!(processor.sr & 0x80, 0x80, "Negative must be set");
}

#[test]
fn load_immediate_flags_plain_value() {
    let mut processor = Processor::new();
    processor.handle_opcode(OPCodes::LDA_IMM(0x30));
    assert_eq!(processor.a, 0x30);
    assert_eq!(processor.sr & 0x02, 0x00, "Zero must be clear");
    assert_eq!(processor.sr & 0x80, 0x00, "Negative must be clear");
}

#[test]
fn zero_page_indexed_wraps_within_page_zero() {
    let mut processor = Processor::new();
    // Index 0xff plus operand 0x01 wraps to effective address 0x0000.
    processor.x = 0xff;
    processor.write_byte(0x0000, 0x77);
    processor.write_byte(0x0100, 0x99);
    processor.handle_opcode(OPCodes::LDA_XZPG(0x01));
    assert_eq!(processor.a, 0x77, "the access must stay in page zero, never reach 0x0100");
}

#[test]
fn zero_page_indexed_store_wraps_within_page_zero() {
    let mut processor = Processor::new();
    processor.y = 0xff;
    processor.x = 0x42;
    processor.handle_opcode(OPCodes::STX_YZPG(0x01));
    assert_eq!(processor.read_byte_at_address(0x0000), Some(0x42));
    assert_eq!(processor.read_byte_at_address(0x0100), Some(0x00));
}

#[test]
fn absolute_load_end_to_end() {
    let mut processor = Processor::new();
    processor.write_byte(0xff2f, 0x30);
    // Absolute load from 0xff2f, then the designated halt opcode.
    let loaded = processor.write_program(&vec![0xad, 0x2f, 0xff, 0x00]);
    assert!(loaded.is_ok());
    let report = processor.execute(0xffff);
    assert_eq!(processor.a, 0x30);
    assert_eq!(report.halt_reason, HaltReason::NormalHalt);
    // Absolute load costs 4 cycles; the halt instruction costs 7.
    assert_eq!(report.cycles_executed, 4 + 7);
}

#[test]
fn cycle_cost_immediate_load() {
    let mut processor = Processor::new();
    assert_eq!(processor.handle_opcode(OPCodes::LDA_IMM(0x10)), 2);
}

#[test]
fn cycle_cost_absolute_load() {
    let mut processor = Processor::new();
    assert_eq!(processor.handle_opcode(OPCodes::LDA_ABS(0x1234)), 4);
}

#[test]
fn cycle_cost_absolute_indexed_page_crossing() {
    let mut processor = Processor::new();
    // From the same base: 0x10f0 + 0x05 stays in page 0x10, 0x10f0 + 0x20
    // crosses into page 0x11 and costs the one-cycle penalty.
    processor.x = 0x05;
    assert_eq!(processor.handle_opcode(OPCodes::LDA_XABS(0x10f0)), 4);
    processor.x = 0x20;
    assert_eq!(processor.handle_opcode(OPCodes::LDA_XABS(0x10f0)), 5);
}

#[test]
fn undefined_opcode_halts_with_decode_failure() {
    let mut processor = Processor::new();
    // 0x02 has no table entry.
    let loaded = processor.write_program(&vec![0x02]);
    assert!(loaded.is_ok());
    let report = processor.execute(0xffff);
    assert_eq!(report.halt_reason, HaltReason::DecodeFailure);
    assert_eq!(report.cycles_executed, 0);
}

#[test]
fn cycle_budget_exhausted() {
    let mut processor = Processor::new();
    // An immediate load costs 2 cycles; a budget of 1 is exhausted after it.
    let loaded = processor.write_program(&vec![0xa9, 0x42, 0xea, 0xea]);
    assert!(loaded.is_ok());
    let report = processor.execute(1);
    assert_eq!(report.halt_reason, HaltReason::CycleBudgetExhausted);
    assert_eq!(report.cycles_executed, 2);
    assert_eq!(processor.a, 0x42);
}

#[test]
fn zero_cycle_budget_executes_nothing() {
    let mut processor = Processor::new();
    let loaded = processor.write_program(&vec![0xa9, 0x42]);
    assert!(loaded.is_ok());
    let report = processor.execute(0);
    assert_eq!(report.halt_reason, HaltReason::CycleBudgetExhausted);
    assert_eq!(report.cycles_executed, 0);
    assert_eq!(processor.a, 0x00);
}

#[test]
fn write_program_installs_reset_vector() {
    let mut processor = Processor::new();
    let loaded = processor.write_program(&vec![0xea, 0x00]);
    assert!(loaded.is_ok());
    assert_eq!(processor.pc, 0x0200);
    assert_eq!(processor.read_byte_at_address(0x0200), Some(0xea));
    assert_eq!(processor.read_byte_at_address(0x0201), Some(0x00));
    // The reset vector points at the base address, little-endian.
    assert_eq!(processor.read_word_at_address(0xfffc), Some(0x0200));
}

#[test]
fn write_program_refuses_overlong_program() {
    let mut processor = Processor::new();
    processor.a = 0x11;
    let too_long = vec![0xea; 0xfdfd];
    let refused = processor.write_program(&too_long);
    assert_eq!(refused, Err(LoadError::ProgramTooLong));
    // A refused program leaves the processor unchanged.
    assert_eq!(processor.pc, 0xfffc);
    assert_eq!(processor.a, 0x11);
    assert_eq!(processor.read_byte_at_address(0x0200), Some(0x00));

    let longest = vec![0xea; 0xfdfc];
    assert!(processor.write_program(&longest).is_ok());
}

#[test]
fn store_accumulator_absolute() {
    let mut processor = Processor::new();
    processor.a = 0x9c;
    assert_eq!(processor.handle_opcode(OPCodes::STA_ABS(0x1234)), 4);
    assert_eq!(processor.read_byte_at_address(0x1234), Some(0x9c));
}

#[test]
fn store_indirect_indexed() {
    let mut processor = Processor::new();
    // Pointer word at 0x0040 names 0x2000; Y adds 0x10.
    processor.write_word(0x0040, 0x2000);
    processor.a = 0x5e;
    processor.y = 0x10;
    assert_eq!(processor.handle_opcode(OPCodes::STA_YIND(0x40)), 5);
    assert_eq!(processor.read_byte_at_address(0x2010), Some(0x5e));
}

#[test]
fn load_indexed_indirect() {
    let mut processor = Processor::new();
    // Operand 0xfe plus X 0x03 wraps to pointer 0x0001 within page zero.
    processor.write_word(0x0001, 0x3000);
    processor.write_byte(0x3000, 0x21);
    processor.x = 0x03;
    assert_eq!(processor.handle_opcode(OPCodes::LDA_XIND(0xfe)), 6);
    assert_eq!(processor.a, 0x21);
}

#[test]
fn transfers_track_flags() {
    let mut processor = Processor::new();
    processor.handle_opcode(OPCodes::LDA_IMM(0x80));
    assert_eq!(processor.handle_opcode(OPCodes::TAX), 2);
    assert_eq!(processor.x, 0x80);
    assert_eq!(processor.sr & 0x80, 0x80);
    processor.handle_opcode(OPCodes::LDY_IMM(0x01));
    processor.handle_opcode(OPCodes::LDA_IMM(0x00));
    processor.handle_opcode(OPCodes::TYA);
    assert_eq!(processor.a, 0x01);
    assert_eq!(processor.sr & 0x02, 0x00);
    assert_eq!(processor.sr & 0x80, 0x00);
}

#[test]
fn transfer_to_stack_pointer_leaves_flags_alone() {
    let mut processor = Processor::new();
    processor.handle_opcode(OPCodes::LDA_IMM(0x30));
    let flags_before = processor.sr;
    processor.x = 0x00;
    assert_eq!(processor.handle_opcode(OPCodes::TXS), 2);
    assert_eq!(processor.sp, 0x00);
    assert_eq!(processor.sr, flags_before, "TXS must not touch the flags");
}

#[test]
fn flag_set_and_clear_instructions() {
    let mut processor = Processor::new();
    assert_eq!(processor.handle_opcode(OPCodes::CLC), 2);
    assert_eq!(processor.sr & 0x01, 0x00);
    assert_eq!(processor.handle_opcode(OPCodes::SEC), 2);
    assert_eq!(processor.sr & 0x01, 0x01);
    processor.handle_opcode(OPCodes::CLV);
    assert_eq!(processor.sr & 0x40, 0x00);
    processor.handle_opcode(OPCodes::CLI);
    assert_eq!(processor.sr & 0x04, 0x00);
    processor.handle_opcode(OPCodes::SEI);
    assert_eq!(processor.sr & 0x04, 0x04);
    processor.handle_opcode(OPCodes::CLD);
    assert_eq!(processor.sr & 0x08, 0x00);
    processor.handle_opcode(OPCodes::SED);
    assert_eq!(processor.sr & 0x08, 0x08);
}

#[test]
fn unimplemented_instruction_is_inert() {
    let mut processor = Processor::new();
    processor.a = 0x12;
    let sr_before = processor.sr;
    assert_eq!(processor.handle_opcode(OPCodes::ADC_IMM(0x01)), 2);
    assert_eq!(processor.a, 0x12);
    assert_eq!(processor.sr, sr_before);
}

#[test]
fn new_processor_documented_initial_state() {
    let processor = Processor::new();
    assert_eq!(processor.a, 0);
    assert_eq!(processor.x, 0);
    assert_eq!(processor.y, 0);
    assert_eq!(processor.pc, 0xfffc);
    assert_eq!(processor.sp, 0x00);
    assert_eq!(processor.sr, 0xff);
    assert_eq!(processor.ram.len(), 0x10000);
    assert_eq!(processor.read_byte_at_address(0x8000), Some(0));
}
