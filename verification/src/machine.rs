//! The mathematical model of the machine.
//!
//! A `Machine` is the abstract state of the emulator: the 64KB memory as a
//! sequence of bytes together with the register file.  The spec functions
//! here define the semantics every executable operation is proved against:
//! address arithmetic with its wraparound rules, little-endian words, status
//! flag updates, the effect and cycle cost of one instruction, and the
//! fetch-execute loop.

use vstd::prelude::*;
use crate::operators::OPCodes;
use crate::operators::decoded;
use crate::operators::operand_width;
use crate::operators::table_has;

verus! {

/// Size of the flat byte-addressable memory: the full 16-bit address space.
pub const MEM_SIZE: usize = 0x10000;

/// Abstract machine state: memory, accumulator, the two index registers,
/// program counter, stack pointer and status flags.
///
/// Status flag bit positions: 0 Carry, 1 Zero, 2 InterruptDisable,
/// 3 Decimal, 4 Break, 6 Overflow, 7 Negative.
pub ghost struct Machine {
    pub mem: Seq<u8>,
    pub a: u8,
    pub x: u8,
    pub y: u8,
    pub pc: u16,
    pub sp: u8,
    pub sr: u8,
}

/// Why a run stopped.  A run never aborts the host process: an opcode byte
/// without a table entry reports `DecodeFailure`, and an exhausted budget
/// reports `CycleBudgetExhausted`.  `MemoryFault` is reserved for an access
/// outside the 16-bit address space; every boundary of this core takes a
/// 16-bit address and wraps, so the core itself never reports it.
#[derive(Debug, PartialEq, Eq, Structural, Clone, Copy)]
pub enum HaltReason {
    NormalHalt,
    CycleBudgetExhausted,
    DecodeFailure,
    MemoryFault,
}

/// 16-bit address addition: all addresses wrap modulo 0x10000.
pub open spec fn add16(a: u16, b: u16) -> u16 {
    ((a + b) % 0x10000) as u16
}

/// Zero-page-indexed effective address: the index is added to the one-byte
/// operand modulo 0x100, so the address stays within page zero and never
/// carries into page one.
pub open spec fn zp_index(operand: u8, index: u8) -> u16 {
    ((operand + index) % 0x100) as u16
}

/// Absolute-indexed effective address: the index is added to the two-byte
/// base and wraps within the 64K space.
pub open spec fn abs_index(base: u16, index: u8) -> u16 {
    add16(base, index as u16)
}

/// True when adding the index to the base crosses a 256-byte page boundary;
/// such an access costs one extra cycle.
pub open spec fn crosses_page(base: u16, index: u8) -> bool {
    abs_index(base, index) / 0x100 != base / 0x100
}

/// Little-endian word composition: the low byte sits at the lower address.
pub open spec fn word_le(lo: u8, hi: u8) -> u16 {
    (lo + hi * 0x100) as u16
}

/// The byte of memory at an address.
pub open spec fn byte_at(m: Machine, address: u16) -> u8 {
    m.mem[address as int]
}

/// The little-endian word at an address; its high byte wraps around the top
/// of the address space.
pub open spec fn word_at(m: Machine, address: u16) -> u16 {
    word_le(byte_at(m, address), byte_at(m, add16(address, 1)))
}

/// The status register with the Zero flag set exactly when the value is 0.
pub open spec fn with_zero_flag(sr: u8, value: u8) -> u8 {
    if value == 0 {
        sr | 0x02
    } else {
        sr & 0xfd
    }
}

/// The status register with the Negative flag set exactly to bit 7 of the
/// value.
pub open spec fn with_negative_flag(sr: u8, value: u8) -> u8 {
    (sr & 0x7f) | (value & 0x80)
}

/// The status register after a load or transfer of a value: Zero and
/// Negative track the value, all other flags keep their state.
pub open spec fn with_zn(sr: u8, value: u8) -> u8 {
    with_negative_flag(with_zero_flag(sr, value), value)
}

/// The machine after loading a value into the accumulator.
pub open spec fn loaded_a(m: Machine, value: u8) -> Machine {
    Machine { a: value, sr: with_zn(m.sr, value), ..m }
}

/// The machine after loading a value into the X register.
pub open spec fn loaded_x(m: Machine, value: u8) -> Machine {
    Machine { x: value, sr: with_zn(m.sr, value), ..m }
}

/// The machine after loading a value into the Y register.
pub open spec fn loaded_y(m: Machine, value: u8) -> Machine {
    Machine { y: value, sr: with_zn(m.sr, value), ..m }
}

/// The machine after storing a value into memory; registers and flags are
/// untouched.
pub open spec fn stored(m: Machine, address: u16, value: u8) -> Machine {
    Machine { mem: m.mem.update(address as int, value), ..m }
}

/// The effect of one instruction on the machine, and its cycle cost.
///
/// Cycle costs are a fixed base per addressing mode — implied and immediate
/// 2, zero page 3, zero-page indexed 4, absolute 4, indexed indirect 6,
/// indirect indexed 5 — plus one cycle when an absolute-indexed or
/// indirect-indexed access crosses a page boundary.  `BRK`, the designated
/// halt, costs 7.  Instructions outside the implemented subset (arithmetic,
/// shifts, branches, jumps and stack discipline) leave the machine unchanged
/// and cost 2 cycles, so a run always makes progress against its budget.
#[verifier::opaque]
pub open spec fn spec_step(m: Machine, instruction: OPCodes) -> (Machine, nat) {
    match instruction {
        // Flag setters and clearers.
        OPCodes::SEC => ((Machine { sr: m.sr | 0x01, ..m }), 2),
        OPCodes::SEI => ((Machine { sr: m.sr | 0x04, ..m }), 2),
        OPCodes::SED => ((Machine { sr: m.sr | 0x08, ..m }), 2),
        OPCodes::CLC => ((Machine { sr: m.sr & 0xfe, ..m }), 2),
        OPCodes::CLV => ((Machine { sr: m.sr & 0xbf, ..m }), 2),
        OPCodes::CLI => ((Machine { sr: m.sr & 0xfb, ..m }), 2),
        OPCodes::CLD => ((Machine { sr: m.sr & 0xf7, ..m }), 2),
        // Loads into the accumulator.
        OPCodes::LDA_IMM(value) => (loaded_a(m, value), 2),
        OPCodes::LDA_ZPG(operand) => (loaded_a(m, byte_at(m, operand as u16)), 3),
        OPCodes::LDA_XZPG(operand) => (loaded_a(m, byte_at(m, zp_index(operand, m.x))), 4),
        OPCodes::LDA_ABS(address) => (loaded_a(m, byte_at(m, address)), 4),
        OPCodes::LDA_XABS(base) => (
            loaded_a(m, byte_at(m, abs_index(base, m.x))),
            if crosses_page(base, m.x) { 5 as nat } else { 4 as nat },
        ),
        OPCodes::LDA_YABS(base) => (
            loaded_a(m, byte_at(m, abs_index(base, m.y))),
            if crosses_page(base, m.y) { 5 as nat } else { 4 as nat },
        ),
        OPCodes::LDA_XIND(operand) => (
            loaded_a(m, byte_at(m, word_at(m, zp_index(operand, m.x)))),
            6,
        ),
        OPCodes::LDA_YIND(operand) => (
            loaded_a(m, byte_at(m, abs_index(word_at(m, operand as u16), m.y))),
            if crosses_page(word_at(m, operand as u16), m.y) { 6 as nat } else { 5 as nat },
        ),
        // Loads into the X register.
        OPCodes::LDX_IMM(value) => (loaded_x(m, value), 2),
        OPCodes::LDX_ZPG(operand) => (loaded_x(m, byte_at(m, operand as u16)), 3),
        OPCodes::LDX_YZPG(operand) => (loaded_x(m, byte_at(m, zp_index(operand, m.y))), 4),
        OPCodes::LDX_ABS(address) => (loaded_x(m, byte_at(m, address)), 4),
        OPCodes::LDX_YABS(base) => (
            loaded_x(m, byte_at(m, abs_index(base, m.y))),
            if crosses_page(base, m.y) { 5 as nat } else { 4 as nat },
        ),
        // Loads into the Y register.
        OPCodes::LDY_IMM(value) => (loaded_y(m, value), 2),
        OPCodes::LDY_ZPG(operand) => (loaded_y(m, byte_at(m, operand as u16)), 3),
        OPCodes::LDY_XZPG(operand) => (loaded_y(m, byte_at(m, zp_index(operand, m.x))), 4),
        OPCodes::LDY_ABS(address) => (loaded_y(m, byte_at(m, address)), 4),
        OPCodes::LDY_XABS(base) => (
            loaded_y(m, byte_at(m, abs_index(base, m.x))),
            if crosses_page(base, m.x) { 5 as nat } else { 4 as nat },
        ),
        // Stores from the accumulator.
        OPCodes::STA_ZPG(operand) => (stored(m, operand as u16, m.a), 3),
        OPCodes::STA_XZPG(operand) => (stored(m, zp_index(operand, m.x), m.a), 4),
        OPCodes::STA_ABS(address) => (stored(m, address, m.a), 4),
        OPCodes::STA_XABS(base) => (
            stored(m, abs_index(base, m.x), m.a),
            if crosses_page(base, m.x) { 5 as nat } else { 4 as nat },
        ),
        OPCodes::STA_YABS(base) => (
            stored(m, abs_index(base, m.y), m.a),
            if crosses_page(base, m.y) { 5 as nat } else { 4 as nat },
        ),
        OPCodes::STA_XIND(operand) => (
            stored(m, word_at(m, zp_index(operand, m.x)), m.a),
            6,
        ),
        OPCodes::STA_YIND(operand) => (
            stored(m, abs_index(word_at(m, operand as u16), m.y), m.a),
            if crosses_page(word_at(m, operand as u16), m.y) { 6 as nat } else { 5 as nat },
        ),
        // Stores from the index registers.
        OPCodes::STX_ZPG(operand) => (stored(m, operand as u16, m.x), 3),
        OPCodes::STX_YZPG(operand) => (stored(m, zp_index(operand, m.y), m.x), 4),
        OPCodes::STX_ABS(address) => (stored(m, address, m.x), 4),
        OPCodes::STY_ZPG(operand) => (stored(m, operand as u16, m.y), 3),
        OPCodes::STY_XZPG(operand) => (stored(m, zp_index(operand, m.x), m.y), 4),
        OPCodes::STY_ABS(address) => (stored(m, address, m.y), 4),
        // Transfers.  TXS is the one transfer that touches no flags.
        OPCodes::TAX => (loaded_x(m, m.a), 2),
        OPCodes::TAY => (loaded_y(m, m.a), 2),
        OPCodes::TXA => (loaded_a(m, m.x), 2),
        OPCodes::TYA => (loaded_a(m, m.y), 2),
        OPCodes::TSX => (loaded_x(m, m.sp), 2),
        OPCodes::TXS => ((Machine { sp: m.x, ..m }), 2),
        // The designated halt condition, and the explicit no-op.
        OPCodes::BRK => (m, 7),
        OPCodes::NOP => (m, 2),
        // Outside the implemented subset: no effect, 2 cycles.
        _ => (m, 2),
    }
}

/// Every instruction costs between 1 and 7 cycles, so a run always makes
/// progress against its cycle budget.
pub proof fn lemma_step_cycles(m: Machine, instruction: OPCodes)
    ensures
        1 <= spec_step(m, instruction).1 <= 7,
{
    reveal(spec_step);
}

/// Reading the operand that follows an opcode byte: the machine with the
/// program counter advanced past the operand, and the operand value, absent
/// for zero-width operands, a byte for one-byte operands, and a
/// little-endian word for two-byte operands.
pub open spec fn fetch_operand(m: Machine, opcode: u8) -> (Machine, Option<isize>) {
    if operand_width(opcode) == 0 {
        (m, None)
    } else if operand_width(opcode) == 1 {
        ((Machine { pc: add16(m.pc, 1), ..m }), Some(byte_at(m, m.pc) as isize))
    } else {
        ((Machine { pc: add16(m.pc, 2), ..m }), Some(word_at(m, m.pc) as isize))
    }
}

/// The fetch-execute loop.
///
/// Starting from `cycles` already spent against the budget `limit`: while
/// the budget is not exhausted, fetch the opcode byte at the program
/// counter, advance past it, halt with `DecodeFailure` if it has no table
/// entry, otherwise fetch its operand, decode, execute, and account the
/// instruction's cycles.  `BRK` is the designated terminal halt.  The budget
/// is checked once per completed instruction, never mid-instruction, so the
/// total may exceed the limit by up to 6 cycles.
pub open spec fn spec_run(m: Machine, cycles: nat, limit: nat) -> (Machine, nat, HaltReason)
    decreases (if cycles <= limit { limit - cycles } else { 0 }),
{
    if cycles >= limit {
        (m, cycles, HaltReason::CycleBudgetExhausted)
    } else {
        let opcode = byte_at(m, m.pc);
        let m1 = Machine { pc: add16(m.pc, 1), ..m };
        if !table_has(opcode) {
            (m1, cycles, HaltReason::DecodeFailure)
        } else {
            let fetched = fetch_operand(m1, opcode);
            let instruction = decoded(opcode, fetched.1);
            let stepped = spec_step(fetched.0, instruction);
            if instruction == OPCodes::BRK {
                (stepped.0, cycles + stepped.1, HaltReason::NormalHalt)
            } else {
                proof {
                    lemma_step_cycles(fetched.0, instruction);
                }
                spec_run(stepped.0, cycles + stepped.1, limit)
            }
        }
    }
}

/// How a load's flag update reads back: after loading a value, the Zero
/// flag (bit 1) is set exactly when the value is zero, the Negative flag
/// (bit 7) is set exactly when bit 7 of the value is set, and every other
/// flag keeps its state.
pub proof fn lemma_with_zn_flags(sr: u8, value: u8)
    ensures
        (with_zn(sr, value) & 0x02 == 0x02) <==> (value == 0),
        (with_zn(sr, value) & 0x80 == 0x80) <==> (value >= 0x80),
        with_zn(sr, value) & 0x7d == sr & 0x7d,
{
    if value == 0 {
        assert(value == 0 ==> ((((sr | 0x02) & 0x7f) | (value & 0x80)) & 0x02 == 0x02
            && (((((sr | 0x02) & 0x7f) | (value & 0x80)) & 0x80 == 0x80) <==> (value >= 0x80))
            && ((((sr | 0x02) & 0x7f) | (value & 0x80)) & 0x7d == sr & 0x7d))) by (bit_vector);
    } else {
        assert(value != 0 ==> ((((sr & 0xfd) & 0x7f) | (value & 0x80)) & 0x02 != 0x02
            && (((((sr & 0xfd) & 0x7f) | (value & 0x80)) & 0x80 == 0x80) <==> (value >= 0x80))
            && ((((sr & 0xfd) & 0x7f) | (value & 0x80)) & 0x7d == sr & 0x7d))) by (bit_vector);
    }
}

/// A zero-page-indexed effective address never leaves page zero: the index
/// is folded into the operand modulo 0x100, so the address is always below
/// 0x100 and never carries into page one.
pub proof fn lemma_zp_index_in_page(operand: u8, index: u8)
    ensures
        zp_index(operand, index) < 0x100,
        zp_index(operand, index) == (operand + index) % 0x100,
{
}

/// Advancing the program counter twice by one is advancing it by two: the
/// two reads of a word fetch land where a single two-byte step would.
pub proof fn lemma_add16_twice(a: u16)
    ensures
        add16(add16(a, 1), 1) == add16(a, 2),
{
    if a < 0xfffe {
        assert(add16(a, 1) == a + 1);
        assert(add16((a + 1) as u16, 1) == a + 2);
        assert(add16(a, 2) == a + 2);
    } else if a == 0xfffe {
        assert(add16(a, 1) == 0xffff);
        assert(add16(0xffff, 1) == 0);
        assert(add16(a, 2) == 0);
    } else {
        assert(add16(a, 1) == 0);
        assert(add16(0, 1) == 1);
        assert(add16(a, 2) == 1);
    }
}

} // verus!
