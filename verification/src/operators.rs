//! The opcode table: the mapping between opcode bytes and typed instructions.
//!
//! An instruction is a (mnemonic, addressing mode) pair together with an
//! operand sized per mode: none, an unsigned byte, an unsigned word, or a
//! signed byte for relative branches.  The table is a closed sum type; the
//! spec functions in this module are the authoritative statement of which
//! opcode bytes have entries, how wide their operands are, and which
//! instruction each byte decodes to.

use vstd::prelude::*;

verus! {

/// One tag per (mnemonic, addressing mode) pair of the table.
///
/// Suffix conventions: `IMM` immediate, `ZPG` zero page, `XZPG`/`YZPG`
/// zero page indexed by X/Y, `ABS` absolute, `XABS`/`YABS` absolute indexed,
/// `XIND` indexed indirect, `YIND` indirect indexed, `A` accumulator.
/// Branches carry a signed two's-complement offset.
#[allow(non_camel_case_types)]
#[derive(Debug, PartialEq, Eq, Structural, Clone, Copy)]
pub enum OPCodes {
    ORA_XIND(u8),
    ORA_YIND(u8),
    ORA_ZPG(u8),
    ORA_XZPG(u8),
    ORA_ABS(u16),
    ORA_YABS(u16),
    ORA_XABS(u16),
    ORA_IMM(u8),
    AND_XIND(u8),
    AND_YIND(u8),
    AND_ZPG(u8),
    AND_XZPG(u8),
    AND_ABS(u16),
    AND_YABS(u16),
    AND_XABS(u16),
    AND_IMM(u8),
    EOR_XIND(u8),
    EOR_YIND(u8),
    EOR_ZPG(u8),
    EOR_XZPG(u8),
    EOR_ABS(u16),
    EOR_YABS(u16),
    EOR_XABS(u16),
    EOR_IMM(u8),
    ADC_XIND(u8),
    ADC_YIND(u8),
    ADC_ZPG(u8),
    ADC_XZPG(u8),
    ADC_ABS(u16),
    ADC_YABS(u16),
    ADC_XABS(u16),
    ADC_IMM(u8),
    CMP_XIND(u8),
    CMP_YIND(u8),
    CMP_ZPG(u8),
    CMP_XZPG(u8),
    CMP_ABS(u16),
    CMP_YABS(u16),
    CMP_XABS(u16),
    CMP_IMM(u8),
    LDA_XIND(u8),
    LDA_YIND(u8),
    LDA_ZPG(u8),
    LDA_XZPG(u8),
    LDA_ABS(u16),
    LDA_YABS(u16),
    LDA_XABS(u16),
    LDA_IMM(u8),
    SBC_XIND(u8),
    SBC_YIND(u8),
    SBC_ZPG(u8),
    SBC_XZPG(u8),
    SBC_ABS(u16),
    SBC_YABS(u16),
    SBC_XABS(u16),
    SBC_IMM(u8),
    STA_XIND(u8),
    STA_YIND(u8),
    STA_ZPG(u8),
    STA_XZPG(u8),
    STA_ABS(u16),
    STA_YABS(u16),
    STA_XABS(u16),
    BMI(i8),
    BCC(i8),
    BCS(i8),
    BEQ(i8),
    BNE(i8),
    BPL(i8),
    BVC(i8),
    BVS(i8),
    ASL_ZPG(u8),
    ASL_XZPG(u8),
    ASL_A,
    ASL_ABS(u16),
    ASL_XABS(u16),
    ROL_ZPG(u8),
    ROL_XZPG(u8),
    ROL_A,
    ROL_ABS(u16),
    ROL_XABS(u16),
    LSR_ZPG(u8),
    LSR_XZPG(u8),
    LSR_A,
    LSR_ABS(u16),
    LSR_XABS(u16),
    ROR_ZPG(u8),
    ROR_XZPG(u8),
    ROR_A,
    ROR_ABS(u16),
    ROR_XABS(u16),
    LDX_ZPG(u8),
    LDX_YZPG(u8),
    LDX_ABS(u16),
    LDX_YABS(u16),
    LDX_IMM(u8),
    LDY_ZPG(u8),
    LDY_XZPG(u8),
    LDY_ABS(u16),
    LDY_XABS(u16),
    LDY_IMM(u8),
    DEC_ZPG(u8),
    DEC_XZPG(u8),
    DEC_ABS(u16),
    DEC_XABS(u16),
    INC_ZPG(u8),
    INC_XZPG(u8),
    INC_ABS(u16),
    INC_XABS(u16),
    STX_ZPG(u8),
    STX_YZPG(u8),
    STX_ABS(u16),
    STY_ZPG(u8),
    STY_XZPG(u8),
    STY_ABS(u16),
    CPX_ZPG(u8),
    CPX_ABS(u16),
    CPX_IMM(u8),
    CPY_ZPG(u8),
    CPY_ABS(u16),
    CPY_IMM(u8),
    BIT_ZPG(u8),
    BIT_ABS(u16),
    JMP_IND(u16),
    JMP_ABS(u16),
    CLC,
    CLD,
    CLI,
    CLV,
    SEC,
    SED,
    SEI,
    PHP,
    PHA,
    PLP,
    PLA,
    RTI,
    RTS,
    TAX,
    TAY,
    TSX,
    TXA,
    TXS,
    TYA,
    BRK,
    JSR(u16),
    NOP,
    DEX,
    DEY,
    INX,
    INY,
}

/// Width in bytes of the operand that follows an opcode byte: 0, 1 or 2.
///
/// The width is a function of the opcode byte alone, so a fetcher knows how
/// many bytes to read before it decodes.
#[verifier::opaque]
pub open spec fn operand_width(opcode: u8) -> u16 {
    if opcode == 0x00 || opcode == 0x08 || opcode == 0x0a || opcode == 0x18 || opcode == 0x28
        || opcode == 0x2a || opcode == 0x38 || opcode == 0x40 || opcode == 0x48 || opcode == 0x4a
        || opcode == 0x58 || opcode == 0x60 || opcode == 0x68 || opcode == 0x6a || opcode == 0x78
        || opcode == 0x88 || opcode == 0x8a || opcode == 0x98 || opcode == 0x9a || opcode == 0xa8
        || opcode == 0xaa || opcode == 0xb8 || opcode == 0xba || opcode == 0xc8 || opcode == 0xca
        || opcode == 0xd8 || opcode == 0xe8 || opcode == 0xea || opcode == 0xf8 {
        0
    } else if (0x01 <= opcode && opcode <= 0x06) || opcode == 0x09
        || (0x10 <= opcode && opcode <= 0x16) || (0x21 <= opcode && opcode <= 0x26)
        || opcode == 0x29 || (0x30 <= opcode && opcode <= 0x36)
        || (0x41 <= opcode && opcode <= 0x46) || opcode == 0x49
        || (0x50 <= opcode && opcode <= 0x56) || (0x61 <= opcode && opcode <= 0x66)
        || opcode == 0x69 || (0x70 <= opcode && opcode <= 0x76)
        || (0x81 <= opcode && opcode <= 0x86) || (0x90 <= opcode && opcode <= 0x96)
        || (0xa0 <= opcode && opcode <= 0xa6) || opcode == 0xa9
        || (0xb0 <= opcode && opcode <= 0xb6) || (0xc0 <= opcode && opcode <= 0xc6)
        || opcode == 0xc9 || (0xd0 <= opcode && opcode <= 0xd6)
        || (0xe0 <= opcode && opcode <= 0xe6) || opcode == 0xe9
        || (0xf0 <= opcode && opcode <= 0xf6) {
        1
    } else {
        2
    }
}

impl OPCodes {
    /// Returns the amount of bytes that will be read after the opcode byte.
    pub fn param_count(opcode: u8) -> (r: u16)
        ensures
            r == operand_width(opcode),
    {
        proof {
            reveal(operand_width);
        }
        match opcode {
            // Zero length parameters
            0x00 | 0x08 | 0x0a | 0x18 | 0x28 | 0x2a | 0x38 | 0x40 | 0x48 | 0x4a | 0x58 | 0x60
            | 0x68 | 0x6a | 0x78 | 0x88 | 0x8a | 0x98 | 0x9a | 0xa8 | 0xaa | 0xb8 | 0xba | 0xc8
            | 0xca | 0xd8 | 0xe8 | 0xea | 0xf8 => 0,

            // Byte parameters
            0x01..=0x06
            | 0x09
            | 0x10..=0x16
            | 0x21..=0x26
            | 0x29
            | 0x30..=0x36
            | 0x41..=0x46
            | 0x49
            | 0x50..=0x56
            | 0x61..=0x66
            | 0x69
            | 0x70..=0x76
            | 0x81..=0x86
            | 0x90..=0x96
            | 0xa0..=0xa6
            | 0xa9
            | 0xb0..=0xb6
            | 0xc0..=0xc6
            | 0xc9
            | 0xd0..=0xd6
            | 0xe0..=0xe6
            | 0xe9
            | 0xf0..=0xf6 => 1,

            // Word parameters
            _ => 2,
        }
    }
}


/// True when the opcode byte has an entry in the table.
#[verifier::opaque]
pub open spec fn table_has(opcode: u8) -> bool {
    match opcode {
        0x00 | 0x01 | 0x05 | 0x06 | 0x08 | 0x09 | 0x0a | 0x0d
            | 0x0e | 0x10 | 0x11 | 0x15 | 0x16 | 0x18 | 0x19 | 0x1d
            | 0x1e | 0x20 | 0x21 | 0x24 | 0x25 | 0x26 | 0x28 | 0x29
            | 0x2a | 0x2c | 0x2d | 0x2e | 0x30 | 0x31 | 0x35 | 0x36
            | 0x38 | 0x39 | 0x3d | 0x3e | 0x40 | 0x41 | 0x45 | 0x46
            | 0x48 | 0x49 | 0x4a | 0x4c | 0x4d | 0x4e | 0x51 | 0x52
            | 0x55 | 0x56 | 0x58 | 0x59 | 0x5d | 0x5e | 0x60 | 0x61
            | 0x65 | 0x66 | 0x68 | 0x69 | 0x6a | 0x6c | 0x6d | 0x6e
            | 0x70 | 0x71 | 0x75 | 0x76 | 0x78 | 0x79 | 0x7d | 0x7e
            | 0x81 | 0x84 | 0x85 | 0x86 | 0x88 | 0x8a | 0x8c | 0x8d
            | 0x8e | 0x90 | 0x91 | 0x94 | 0x95 | 0x96 | 0x98 | 0x99
            | 0x9a | 0x9d | 0xa0 | 0xa1 | 0xa2 | 0xa4 | 0xa5 | 0xa6
            | 0xa8 | 0xa9 | 0xaa | 0xac | 0xad | 0xae | 0xb0 | 0xb1
            | 0xb4 | 0xb5 | 0xb6 | 0xb8 | 0xb9 | 0xba | 0xbc | 0xbd
            | 0xbe | 0xc0 | 0xc1 | 0xc4 | 0xc5 | 0xc6 | 0xc8 | 0xc9
            | 0xca | 0xcc | 0xcd | 0xce | 0xd0 | 0xd1 | 0xd5 | 0xd6
            | 0xd8 | 0xd9 | 0xdd | 0xde | 0xe0 | 0xe1 | 0xe4 | 0xe5
            | 0xe6 | 0xe8 | 0xe9 | 0xea | 0xec | 0xed | 0xee | 0xf0
            | 0xf1 | 0xf5 | 0xf6 | 0xf8 | 0xf9 | 0xfd | 0xfe => true,
            _ => false,
    }
}

/// Whether an operand value has the shape the opcode byte calls for: absent
/// when the opcode takes no operand, a byte value for one-byte operands, and
/// a word value for two-byte operands.
pub open spec fn operand_fits(opcode: u8, value: Option<isize>) -> bool {
    if operand_width(opcode) == 0 {
        value is None
    } else if operand_width(opcode) == 1 {
        value is Some && 0 <= value->0 < 0x100
    } else {
        value is Some && 0 <= value->0 < 0x10000
    }
}

/// The instruction an opcode byte decodes to, given the operand value read
/// after it.  Relative branch operands are reinterpreted as signed
/// two's-complement offsets.  Meaningful only when the opcode byte has a
/// table entry and the operand fits.
#[verifier::opaque]
pub open spec fn decoded(opcode: u8, value: Option<isize>) -> OPCodes {
    let v: int = value->0 as int;
    match opcode {
        0x00 => OPCodes::BRK,
        0x01 => OPCodes::ORA_XIND(v as u8),
        0x05 => OPCodes::ORA_ZPG(v as u8),
        0x06 => OPCodes::ASL_ZPG(v as u8),
        0x08 => OPCodes::PHP,
        0x09 => OPCodes::ORA_IMM(v as u8),
        0x0a => OPCodes::ASL_A,
        0x0d => OPCodes::ORA_ABS(v as u16),
        0x0e => OPCodes::ASL_ABS(v as u16),
        0x10 => OPCodes::BPL(if v >= 0x80 { (v - 0x100) as i8 } else { v as i8 }),
        0x11 => OPCodes::ORA_YIND(v as u8),
        0x15 => OPCodes::ORA_XZPG(v as u8),
        0x16 => OPCodes::ASL_XZPG(v as u8),
        0x18 => OPCodes::CLC,
        0x19 => OPCodes::ORA_YABS(v as u16),
        0x1d => OPCodes::ORA_XABS(v as u16),
        0x1e => OPCodes::ASL_XABS(v as u16),
        0x20 => OPCodes::JSR(v as u16),
        0x21 => OPCodes::AND_XIND(v as u8),
        0x24 => OPCodes::BIT_ZPG(v as u8),
        0x25 => OPCodes::AND_ZPG(v as u8),
        0x26 => OPCodes::ROL_ZPG(v as u8),
        0x28 => OPCodes::PLP,
        0x29 => OPCodes::AND_IMM(v as u8),
        0x2a => OPCodes::ROL_A,
        0x2c => OPCodes::BIT_ABS(v as u16),
        0x2d => OPCodes::AND_ABS(v as u16),
        0x2e => OPCodes::ROL_ABS(v as u16),
        0x30 => OPCodes::BMI(if v >= 0x80 { (v - 0x100) as i8 } else { v as i8 }),
        0x31 => OPCodes::AND_YIND(v as u8),
        0x35 => OPCodes::AND_XZPG(v as u8),
        0x36 => OPCodes::ROL_XZPG(v as u8),
        0x38 => OPCodes::SEC,
        0x39 => OPCodes::AND_YABS(v as u16),
        0x3d => OPCodes::AND_XABS(v as u16),
        0x3e => OPCodes::ROL_XABS(v as u16),
        0x40 => OPCodes::RTI,
        0x41 => OPCodes::EOR_XIND(v as u8),
        0x45 => OPCodes::EOR_ZPG(v as u8),
        0x46 => OPCodes::LSR_ZPG(v as u8),
        0x48 => OPCodes::PHA,
        0x49 => OPCodes::EOR_IMM(v as u8),
        0x4a => OPCodes::LSR_A,
        0x4c => OPCodes::JMP_ABS(v as u16),
        0x4d => OPCodes::EOR_ABS(v as u16),
        0x4e => OPCodes::LSR_ABS(v as u16),
        0x51 => OPCodes::BVC(if v >= 0x80 { (v - 0x100) as i8 } else { v as i8 }),
        0x52 => OPCodes::EOR_YIND(v as u8),
        0x55 => OPCodes::EOR_XZPG(v as u8),
        0x56 => OPCodes::LSR_XZPG(v as u8),
        0x58 => OPCodes::CLI,
        0x59 => OPCodes::EOR_YABS(v as u16),
        0x5d => OPCodes::EOR_XABS(v as u16),
        0x5e => OPCodes::LSR_XABS(v as u16),
        0x60 => OPCodes::RTS,
        0x61 => OPCodes::ADC_XIND(v as u8),
        0x65 => OPCodes::ADC_ZPG(v as u8),
        0x66 => OPCodes::ROR_ZPG(v as u8),
        0x68 => OPCodes::PLA,
        0x69 => OPCodes::ADC_IMM(v as u8),
        0x6a => OPCodes::ROR_A,
        0x6c => OPCodes::JMP_IND(v as u16),
        0x6d => OPCodes::ADC_ABS(v as u16),
        0x6e => OPCodes::ROR_ABS(v as u16),
        0x70 => OPCodes::BVS(if v >= 0x80 { (v - 0x100) as i8 } else { v as i8 }),
        0x71 => OPCodes::ADC_YIND(v as u8),
        0x75 => OPCodes::ADC_XZPG(v as u8),
        0x76 => OPCodes::ROR_XZPG(v as u8),
        0x78 => OPCodes::SEI,
        0x79 => OPCodes::ADC_YABS(v as u16),
        0x7d => OPCodes::ADC_XABS(v as u16),
        0x7e => OPCodes::ROR_XABS(v as u16),
        0x81 => OPCodes::STA_XIND(v as u8),
        0x84 => OPCodes::STY_ZPG(v as u8),
        0x85 => OPCodes::STA_ZPG(v as u8),
        0x86 => OPCodes::STX_ZPG(v as u8),
        0x88 => OPCodes::DEY,
        0x8a => OPCodes::TXA,
        0x8c => OPCodes::STY_ABS(v as u16),
        0x8d => OPCodes::STA_ABS(v as u16),
        0x8e => OPCodes::STX_ABS(v as u16),
        0x90 => OPCodes::BCC(if v >= 0x80 { (v - 0x100) as i8 } else { v as i8 }),
        0x91 => OPCodes::STA_YIND(v as u8),
        0x94 => OPCodes::STY_XZPG(v as u8),
        0x95 => OPCodes::STA_XZPG(v as u8),
        0x96 => OPCodes::STX_YZPG(v as u8),
        0x98 => OPCodes::TYA,
        0x99 => OPCodes::STA_YABS(v as u16),
        0x9a => OPCodes::TXS,
        0x9d => OPCodes::STA_XABS(v as u16),
        0xa0 => OPCodes::LDY_IMM(v as u8),
        0xa1 => OPCodes::LDA_XIND(v as u8),
        0xa2 => OPCodes::LDX_IMM(v as u8),
        0xa4 => OPCodes::LDY_ZPG(v as u8),
        0xa5 => OPCodes::LDA_ZPG(v as u8),
        0xa6 => OPCodes::LDX_ZPG(v as u8),
        0xa8 => OPCodes::TAY,
        0xa9 => OPCodes::LDA_IMM(v as u8),
        0xaa => OPCodes::TAX,
        0xac => OPCodes::LDY_ABS(v as u16),
        0xad => OPCodes::LDA_ABS(v as u16),
        0xae => OPCodes::LDX_ABS(v as u16),
        0xb0 => OPCodes::BCS(if v >= 0x80 { (v - 0x100) as i8 } else { v as i8 }),
        0xb1 => OPCodes::LDA_YIND(v as u8),
        0xb4 => OPCodes::LDY_XZPG(v as u8),
        0xb5 => OPCodes::LDA_XZPG(v as u8),
        0xb6 => OPCodes::LDX_YZPG(v as u8),
        0xb8 => OPCodes::CLV,
        0xb9 => OPCodes::LDA_YABS(v as u16),
        0xba => OPCodes::TSX,
        0xbc => OPCodes::LDY_XABS(v as u16),
        0xbd => OPCodes::LDA_XABS(v as u16),
        0xbe => OPCodes::LDX_YABS(v as u16),
        0xc0 => OPCodes::CPY_IMM(v as u8),
        0xc1 => OPCodes::CMP_XIND(v as u8),
        0xc4 => OPCodes::CPY_ZPG(v as u8),
        0xc5 => OPCodes::CMP_ZPG(v as u8),
        0xc6 => OPCodes::DEC_ZPG(v as u8),
        0xc8 => OPCodes::INY,
        0xc9 => OPCodes::CMP_IMM(v as u8),
        0xca => OPCodes::DEX,
        0xcc => OPCodes::CPY_ABS(v as u16),
        0xcd => OPCodes::CMP_ABS(v as u16),
        0xce => OPCodes::DEC_ABS(v as u16),
        0xd0 => OPCodes::BNE(if v >= 0x80 { (v - 0x100) as i8 } else { v as i8 }),
        0xd1 => OPCodes::CMP_YIND(v as u8),
        0xd5 => OPCodes::CMP_XZPG(v as u8),
        0xd6 => OPCodes::DEC_XZPG(v as u8),
        0xd8 => OPCodes::CLD,
        0xd9 => OPCodes::CMP_YABS(v as u16),
        0xdd => OPCodes::CMP_XABS(v as u16),
        0xde => OPCodes::DEC_XABS(v as u16),
        0xe0 => OPCodes::CPX_IMM(v as u8),
        0xe1 => OPCodes::SBC_XIND(v as u8),
        0xe4 => OPCodes::CPX_ZPG(v as u8),
        0xe5 => OPCodes::SBC_ZPG(v as u8),
        0xe6 => OPCodes::INC_ZPG(v as u8),
        0xe8 => OPCodes::INX,
        0xe9 => OPCodes::SBC_IMM(v as u8),
        0xea => OPCodes::NOP,
        0xec => OPCodes::CPX_ABS(v as u16),
        0xed => OPCodes::SBC_ABS(v as u16),
        0xee => OPCodes::INC_ABS(v as u16),
        0xf0 => OPCodes::BEQ(if v >= 0x80 { (v - 0x100) as i8 } else { v as i8 }),
        0xf1 => OPCodes::SBC_YIND(v as u8),
        0xf5 => OPCodes::SBC_XZPG(v as u8),
        0xf6 => OPCodes::INC_XZPG(v as u8),
        0xf8 => OPCodes::SED,
        0xf9 => OPCodes::SBC_YABS(v as u16),
        0xfd => OPCodes::SBC_XABS(v as u16),
        0xfe => OPCodes::INC_XABS(v as u16),
        _ => OPCodes::NOP,
    }
}

/// The opcode byte of an instruction: the inverse of the decode table over
/// the (mnemonic, addressing mode) pair, with the operand ignored.
#[verifier::opaque]
pub open spec fn opcode_of(instruction: OPCodes) -> u8 {
    match instruction {
        OPCodes::BRK => 0x00,
        OPCodes::ORA_XIND(_) => 0x01,
        OPCodes::ORA_ZPG(_) => 0x05,
        OPCodes::ASL_ZPG(_) => 0x06,
        OPCodes::PHP => 0x08,
        OPCodes::ORA_IMM(_) => 0x09,
        OPCodes::ASL_A => 0x0a,
        OPCodes::ORA_ABS(_) => 0x0d,
        OPCodes::ASL_ABS(_) => 0x0e,
        OPCodes::BPL(_) => 0x10,
        OPCodes::ORA_YIND(_) => 0x11,
        OPCodes::ORA_XZPG(_) => 0x15,
        OPCodes::ASL_XZPG(_) => 0x16,
        OPCodes::CLC => 0x18,
        OPCodes::ORA_YABS(_) => 0x19,
        OPCodes::ORA_XABS(_) => 0x1d,
        OPCodes::ASL_XABS(_) => 0x1e,
        OPCodes::JSR(_) => 0x20,
        OPCodes::AND_XIND(_) => 0x21,
        OPCodes::BIT_ZPG(_) => 0x24,
        OPCodes::AND_ZPG(_) => 0x25,
        OPCodes::ROL_ZPG(_) => 0x26,
        OPCodes::PLP => 0x28,
        OPCodes::AND_IMM(_) => 0x29,
        OPCodes::ROL_A => 0x2a,
        OPCodes::BIT_ABS(_) => 0x2c,
        OPCodes::AND_ABS(_) => 0x2d,
        OPCodes::ROL_ABS(_) => 0x2e,
        OPCodes::BMI(_) => 0x30,
        OPCodes::AND_YIND(_) => 0x31,
        OPCodes::AND_XZPG(_) => 0x35,
        OPCodes::ROL_XZPG(_) => 0x36,
        OPCodes::SEC => 0x38,
        OPCodes::AND_YABS(_) => 0x39,
        OPCodes::AND_XABS(_) => 0x3d,
        OPCodes::ROL_XABS(_) => 0x3e,
        OPCodes::RTI => 0x40,
        OPCodes::EOR_XIND(_) => 0x41,
        OPCodes::EOR_ZPG(_) => 0x45,
        OPCodes::LSR_ZPG(_) => 0x46,
        OPCodes::PHA => 0x48,
        OPCodes::EOR_IMM(_) => 0x49,
        OPCodes::LSR_A => 0x4a,
        OPCodes::JMP_ABS(_) => 0x4c,
        OPCodes::EOR_ABS(_) => 0x4d,
        OPCodes::LSR_ABS(_) => 0x4e,
        OPCodes::BVC(_) => 0x51,
        OPCodes::EOR_YIND(_) => 0x52,
        OPCodes::EOR_XZPG(_) => 0x55,
        OPCodes::LSR_XZPG(_) => 0x56,
        OPCodes::CLI => 0x58,
        OPCodes::EOR_YABS(_) => 0x59,
        OPCodes::EOR_XABS(_) => 0x5d,
        OPCodes::LSR_XABS(_) => 0x5e,
        OPCodes::RTS => 0x60,
        OPCodes::ADC_XIND(_) => 0x61,
        OPCodes::ADC_ZPG(_) => 0x65,
        OPCodes::ROR_ZPG(_) => 0x66,
        OPCodes::PLA => 0x68,
        OPCodes::ADC_IMM(_) => 0x69,
        OPCodes::ROR_A => 0x6a,
        OPCodes::JMP_IND(_) => 0x6c,
        OPCodes::ADC_ABS(_) => 0x6d,
        OPCodes::ROR_ABS(_) => 0x6e,
        OPCodes::BVS(_) => 0x70,
        OPCodes::ADC_YIND(_) => 0x71,
        OPCodes::ADC_XZPG(_) => 0x75,
        OPCodes::ROR_XZPG(_) => 0x76,
        OPCodes::SEI => 0x78,
        OPCodes::ADC_YABS(_) => 0x79,
        OPCodes::ADC_XABS(_) => 0x7d,
        OPCodes::ROR_XABS(_) => 0x7e,
        OPCodes::STA_XIND(_) => 0x81,
        OPCodes::STY_ZPG(_) => 0x84,
        OPCodes::STA_ZPG(_) => 0x85,
        OPCodes::STX_ZPG(_) => 0x86,
        OPCodes::DEY => 0x88,
        OPCodes::TXA => 0x8a,
        OPCodes::STY_ABS(_) => 0x8c,
        OPCodes::STA_ABS(_) => 0x8d,
        OPCodes::STX_ABS(_) => 0x8e,
        OPCodes::BCC(_) => 0x90,
        OPCodes::STA_YIND(_) => 0x91,
        OPCodes::STY_XZPG(_) => 0x94,
        OPCodes::STA_XZPG(_) => 0x95,
        OPCodes::STX_YZPG(_) => 0x96,
        OPCodes::TYA => 0x98,
        OPCodes::STA_YABS(_) => 0x99,
        OPCodes::TXS => 0x9a,
        OPCodes::STA_XABS(_) => 0x9d,
        OPCodes::LDY_IMM(_) => 0xa0,
        OPCodes::LDA_XIND(_) => 0xa1,
        OPCodes::LDX_IMM(_) => 0xa2,
        OPCodes::LDY_ZPG(_) => 0xa4,
        OPCodes::LDA_ZPG(_) => 0xa5,
        OPCodes::LDX_ZPG(_) => 0xa6,
        OPCodes::TAY => 0xa8,
        OPCodes::LDA_IMM(_) => 0xa9,
        OPCodes::TAX => 0xaa,
        OPCodes::LDY_ABS(_) => 0xac,
        OPCodes::LDA_ABS(_) => 0xad,
        OPCodes::LDX_ABS(_) => 0xae,
        OPCodes::BCS(_) => 0xb0,
        OPCodes::LDA_YIND(_) => 0xb1,
        OPCodes::LDY_XZPG(_) => 0xb4,
        OPCodes::LDA_XZPG(_) => 0xb5,
        OPCodes::LDX_YZPG(_) => 0xb6,
        OPCodes::CLV => 0xb8,
        OPCodes::LDA_YABS(_) => 0xb9,
        OPCodes::TSX => 0xba,
        OPCodes::LDY_XABS(_) => 0xbc,
        OPCodes::LDA_XABS(_) => 0xbd,
        OPCodes::LDX_YABS(_) => 0xbe,
        OPCodes::CPY_IMM(_) => 0xc0,
        OPCodes::CMP_XIND(_) => 0xc1,
        OPCodes::CPY_ZPG(_) => 0xc4,
        OPCodes::CMP_ZPG(_) => 0xc5,
        OPCodes::DEC_ZPG(_) => 0xc6,
        OPCodes::INY => 0xc8,
        OPCodes::CMP_IMM(_) => 0xc9,
        OPCodes::DEX => 0xca,
        OPCodes::CPY_ABS(_) => 0xcc,
        OPCodes::CMP_ABS(_) => 0xcd,
        OPCodes::DEC_ABS(_) => 0xce,
        OPCodes::BNE(_) => 0xd0,
        OPCodes::CMP_YIND(_) => 0xd1,
        OPCodes::CMP_XZPG(_) => 0xd5,
        OPCodes::DEC_XZPG(_) => 0xd6,
        OPCodes::CLD => 0xd8,
        OPCodes::CMP_YABS(_) => 0xd9,
        OPCodes::CMP_XABS(_) => 0xdd,
        OPCodes::DEC_XABS(_) => 0xde,
        OPCodes::CPX_IMM(_) => 0xe0,
        OPCodes::SBC_XIND(_) => 0xe1,
        OPCodes::CPX_ZPG(_) => 0xe4,
        OPCodes::SBC_ZPG(_) => 0xe5,
        OPCodes::INC_ZPG(_) => 0xe6,
        OPCodes::INX => 0xe8,
        OPCodes::SBC_IMM(_) => 0xe9,
        OPCodes::NOP => 0xea,
        OPCodes::CPX_ABS(_) => 0xec,
        OPCodes::SBC_ABS(_) => 0xed,
        OPCodes::INC_ABS(_) => 0xee,
        OPCodes::BEQ(_) => 0xf0,
        OPCodes::SBC_YIND(_) => 0xf1,
        OPCodes::SBC_XZPG(_) => 0xf5,
        OPCodes::INC_XZPG(_) => 0xf6,
        OPCodes::SED => 0xf8,
        OPCodes::SBC_YABS(_) => 0xf9,
        OPCodes::SBC_XABS(_) => 0xfd,
        OPCodes::INC_XABS(_) => 0xfe,
    }
}

/// Decoding an opcode byte that has a table entry and re-encoding the
/// resulting instruction recovers the identical opcode byte, for every
/// operand value of the right shape: the table is a bijection over the
/// defined opcode space.
pub proof fn lemma_opcode_round_trip(opcode: u8, value: Option<isize>)
    requires
        table_has(opcode),
        operand_fits(opcode, value),
    ensures
        opcode_of(decoded(opcode, value)) == opcode,
{
    reveal(table_has);
    reveal(operand_width);
    reveal(decoded);
    reveal(opcode_of);
}

impl OPCodes {
    /// True when the opcode byte has an entry in the table; bytes without an
    /// entry are unofficial or illegal opcodes and cannot be decoded.
    pub fn has_entry(opcode: u8) -> (r: bool)
        ensures
            r == table_has(opcode),
    {
        proof {
            reveal(table_has);
        }
        match opcode {
            0x00 | 0x01 | 0x05 | 0x06 | 0x08 | 0x09 | 0x0a | 0x0d
            | 0x0e | 0x10 | 0x11 | 0x15 | 0x16 | 0x18 | 0x19 | 0x1d
            | 0x1e | 0x20 | 0x21 | 0x24 | 0x25 | 0x26 | 0x28 | 0x29
            | 0x2a | 0x2c | 0x2d | 0x2e | 0x30 | 0x31 | 0x35 | 0x36
            | 0x38 | 0x39 | 0x3d | 0x3e | 0x40 | 0x41 | 0x45 | 0x46
            | 0x48 | 0x49 | 0x4a | 0x4c | 0x4d | 0x4e | 0x51 | 0x52
            | 0x55 | 0x56 | 0x58 | 0x59 | 0x5d | 0x5e | 0x60 | 0x61
            | 0x65 | 0x66 | 0x68 | 0x69 | 0x6a | 0x6c | 0x6d | 0x6e
            | 0x70 | 0x71 | 0x75 | 0x76 | 0x78 | 0x79 | 0x7d | 0x7e
            | 0x81 | 0x84 | 0x85 | 0x86 | 0x88 | 0x8a | 0x8c | 0x8d
            | 0x8e | 0x90 | 0x91 | 0x94 | 0x95 | 0x96 | 0x98 | 0x99
            | 0x9a | 0x9d | 0xa0 | 0xa1 | 0xa2 | 0xa4 | 0xa5 | 0xa6
            | 0xa8 | 0xa9 | 0xaa | 0xac | 0xad | 0xae | 0xb0 | 0xb1
            | 0xb4 | 0xb5 | 0xb6 | 0xb8 | 0xb9 | 0xba | 0xbc | 0xbd
            | 0xbe | 0xc0 | 0xc1 | 0xc4 | 0xc5 | 0xc6 | 0xc8 | 0xc9
            | 0xca | 0xcc | 0xcd | 0xce | 0xd0 | 0xd1 | 0xd5 | 0xd6
            | 0xd8 | 0xd9 | 0xdd | 0xde | 0xe0 | 0xe1 | 0xe4 | 0xe5
            | 0xe6 | 0xe8 | 0xe9 | 0xea | 0xec | 0xed | 0xee | 0xf0
            | 0xf1 | 0xf5 | 0xf6 | 0xf8 | 0xf9 | 0xfd | 0xfe => true,
            _ => false,
        }
    }

    /// Looks the opcode byte up in the table and builds the typed
    /// instruction from the operand value read after it.
    pub fn instruction_to_opcode(opcode: u8, value: Option<isize>) -> (r: OPCodes)
        requires
            table_has(opcode),
            operand_fits(opcode, value),
        ensures
            r == decoded(opcode, value),
    {
        proof {
            reveal(operand_width);
            reveal(decoded);
        }
        let v: isize = match value {
            Some(x) => x,
            None => 0,
        };
        match opcode {
            0x00 => OPCodes::BRK,
            0x01 => OPCodes::ORA_XIND(v as u8),
            0x05 => OPCodes::ORA_ZPG(v as u8),
            0x06 => OPCodes::ASL_ZPG(v as u8),
            0x08 => OPCodes::PHP,
            0x09 => OPCodes::ORA_IMM(v as u8),
            0x0a => OPCodes::ASL_A,
            0x0d => OPCodes::ORA_ABS(v as u16),
            0x0e => OPCodes::ASL_ABS(v as u16),
            0x10 => OPCodes::BPL(if v >= 0x80 { (v - 0x100) as i8 } else { v as i8 }),
            0x11 => OPCodes::ORA_YIND(v as u8),
            0x15 => OPCodes::ORA_XZPG(v as u8),
            0x16 => OPCodes::ASL_XZPG(v as u8),
            0x18 => OPCodes::CLC,
            0x19 => OPCodes::ORA_YABS(v as u16),
            0x1d => OPCodes::ORA_XABS(v as u16),
            0x1e => OPCodes::ASL_XABS(v as u16),
            0x20 => OPCodes::JSR(v as u16),
            0x21 => OPCodes::AND_XIND(v as u8),
            0x24 => OPCodes::BIT_ZPG(v as u8),
            0x25 => OPCodes::AND_ZPG(v as u8),
            0x26 => OPCodes::ROL_ZPG(v as u8),
            0x28 => OPCodes::PLP,
            0x29 => OPCodes::AND_IMM(v as u8),
            0x2a => OPCodes::ROL_A,
            0x2c => OPCodes::BIT_ABS(v as u16),
            0x2d => OPCodes::AND_ABS(v as u16),
            0x2e => OPCodes::ROL_ABS(v as u16),
            0x30 => OPCodes::BMI(if v >= 0x80 { (v - 0x100) as i8 } else { v as i8 }),
            0x31 => OPCodes::AND_YIND(v as u8),
            0x35 => OPCodes::AND_XZPG(v as u8),
            0x36 => OPCodes::ROL_XZPG(v as u8),
            0x38 => OPCodes::SEC,
            0x39 => OPCodes::AND_YABS(v as u16),
            0x3d => OPCodes::AND_XABS(v as u16),
            0x3e => OPCodes::ROL_XABS(v as u16),
            0x40 => OPCodes::RTI,
            0x41 => OPCodes::EOR_XIND(v as u8),
            0x45 => OPCodes::EOR_ZPG(v as u8),
            0x46 => OPCodes::LSR_ZPG(v as u8),
            0x48 => OPCodes::PHA,
            0x49 => OPCodes::EOR_IMM(v as u8),
            0x4a => OPCodes::LSR_A,
            0x4c => OPCodes::JMP_ABS(v as u16),
            0x4d => OPCodes::EOR_ABS(v as u16),
            0x4e => OPCodes::LSR_ABS(v as u16),
            0x51 => OPCodes::BVC(if v >= 0x80 { (v - 0x100) as i8 } else { v as i8 }),
            0x52 => OPCodes::EOR_YIND(v as u8),
            0x55 => OPCodes::EOR_XZPG(v as u8),
            0x56 => OPCodes::LSR_XZPG(v as u8),
            0x58 => OPCodes::CLI,
            0x59 => OPCodes::EOR_YABS(v as u16),
            0x5d => OPCodes::EOR_XABS(v as u16),
            0x5e => OPCodes::LSR_XABS(v as u16),
            0x60 => OPCodes::RTS,
            0x61 => OPCodes::ADC_XIND(v as u8),
            0x65 => OPCodes::ADC_ZPG(v as u8),
            0x66 => OPCodes::ROR_ZPG(v as u8),
            0x68 => OPCodes::PLA,
            0x69 => OPCodes::ADC_IMM(v as u8),
            0x6a => OPCodes::ROR_A,
            0x6c => OPCodes::JMP_IND(v as u16),
            0x6d => OPCodes::ADC_ABS(v as u16),
            0x6e => OPCodes::ROR_ABS(v as u16),
            0x70 => OPCodes::BVS(if v >= 0x80 { (v - 0x100) as i8 } else { v as i8 }),
            0x71 => OPCodes::ADC_YIND(v as u8),
            0x75 => OPCodes::ADC_XZPG(v as u8),
            0x76 => OPCodes::ROR_XZPG(v as u8),
            0x78 => OPCodes::SEI,
            0x79 => OPCodes::ADC_YABS(v as u16),
            0x7d => OPCodes::ADC_XABS(v as u16),
            0x7e => OPCodes::ROR_XABS(v as u16),
            0x81 => OPCodes::STA_XIND(v as u8),
            0x84 => OPCodes::STY_ZPG(v as u8),
            0x85 => OPCodes::STA_ZPG(v as u8),
            0x86 => OPCodes::STX_ZPG(v as u8),
            0x88 => OPCodes::DEY,
            0x8a => OPCodes::TXA,
            0x8c => OPCodes::STY_ABS(v as u16),
            0x8d => OPCodes::STA_ABS(v as u16),
            0x8e => OPCodes::STX_ABS(v as u16),
            0x90 => OPCodes::BCC(if v >= 0x80 { (v - 0x100) as i8 } else { v as i8 }),
            0x91 => OPCodes::STA_YIND(v as u8),
            0x94 => OPCodes::STY_XZPG(v as u8),
            0x95 => OPCodes::STA_XZPG(v as u8),
            0x96 => OPCodes::STX_YZPG(v as u8),
            0x98 => OPCodes::TYA,
            0x99 => OPCodes::STA_YABS(v as u16),
            0x9a => OPCodes::TXS,
            0x9d => OPCodes::STA_XABS(v as u16),
            0xa0 => OPCodes::LDY_IMM(v as u8),
            0xa1 => OPCodes::LDA_XIND(v as u8),
            0xa2 => OPCodes::LDX_IMM(v as u8),
            0xa4 => OPCodes::LDY_ZPG(v as u8),
            0xa5 => OPCodes::LDA_ZPG(v as u8),
            0xa6 => OPCodes::LDX_ZPG(v as u8),
            0xa8 => OPCodes::TAY,
            0xa9 => OPCodes::LDA_IMM(v as u8),
            0xaa => OPCodes::TAX,
            0xac => OPCodes::LDY_ABS(v as u16),
            0xad => OPCodes::LDA_ABS(v as u16),
            0xae => OPCodes::LDX_ABS(v as u16),
            0xb0 => OPCodes::BCS(if v >= 0x80 { (v - 0x100) as i8 } else { v as i8 }),
            0xb1 => OPCodes::LDA_YIND(v as u8),
            0xb4 => OPCodes::LDY_XZPG(v as u8),
            0xb5 => OPCodes::LDA_XZPG(v as u8),
            0xb6 => OPCodes::LDX_YZPG(v as u8),
            0xb8 => OPCodes::CLV,
            0xb9 => OPCodes::LDA_YABS(v as u16),
            0xba => OPCodes::TSX,
            0xbc => OPCodes::LDY_XABS(v as u16),
            0xbd => OPCodes::LDA_XABS(v as u16),
            0xbe => OPCodes::LDX_YABS(v as u16),
            0xc0 => OPCodes::CPY_IMM(v as u8),
            0xc1 => OPCodes::CMP_XIND(v as u8),
            0xc4 => OPCodes::CPY_ZPG(v as u8),
            0xc5 => OPCodes::CMP_ZPG(v as u8),
            0xc6 => OPCodes::DEC_ZPG(v as u8),
            0xc8 => OPCodes::INY,
            0xc9 => OPCodes::CMP_IMM(v as u8),
            0xca => OPCodes::DEX,
            0xcc => OPCodes::CPY_ABS(v as u16),
            0xcd => OPCodes::CMP_ABS(v as u16),
            0xce => OPCodes::DEC_ABS(v as u16),
            0xd0 => OPCodes::BNE(if v >= 0x80 { (v - 0x100) as i8 } else { v as i8 }),
            0xd1 => OPCodes::CMP_YIND(v as u8),
            0xd5 => OPCodes::CMP_XZPG(v as u8),
            0xd6 => OPCodes::DEC_XZPG(v as u8),
            0xd8 => OPCodes::CLD,
            0xd9 => OPCodes::CMP_YABS(v as u16),
            0xdd => OPCodes::CMP_XABS(v as u16),
            0xde => OPCodes::DEC_XABS(v as u16),
            0xe0 => OPCodes::CPX_IMM(v as u8),
            0xe1 => OPCodes::SBC_XIND(v as u8),
            0xe4 => OPCodes::CPX_ZPG(v as u8),
            0xe5 => OPCodes::SBC_ZPG(v as u8),
            0xe6 => OPCodes::INC_ZPG(v as u8),
            0xe8 => OPCodes::INX,
            0xe9 => OPCodes::SBC_IMM(v as u8),
            0xea => OPCodes::NOP,
            0xec => OPCodes::CPX_ABS(v as u16),
            0xed => OPCodes::SBC_ABS(v as u16),
            0xee => OPCodes::INC_ABS(v as u16),
            0xf0 => OPCodes::BEQ(if v >= 0x80 { (v - 0x100) as i8 } else { v as i8 }),
            0xf1 => OPCodes::SBC_YIND(v as u8),
            0xf5 => OPCodes::SBC_XZPG(v as u8),
            0xf6 => OPCodes::INC_XZPG(v as u8),
            0xf8 => OPCodes::SED,
            0xf9 => OPCodes::SBC_YABS(v as u16),
            0xfd => OPCodes::SBC_XABS(v as u16),
            0xfe => OPCodes::INC_XABS(v as u16),
            _ => OPCodes::NOP,
        }
    }

    /// The opcode byte this instruction encodes to.
    pub fn opcode_byte(&self) -> (r: u8)
        ensures
            r == opcode_of(*self),
    {
        proof {
            reveal(opcode_of);
        }
        match *self {
    OPCodes::BRK => 0x00,
    OPCodes::ORA_XIND(_) => 0x01,
    OPCodes::ORA_ZPG(_) => 0x05,
    OPCodes::ASL_ZPG(_) => 0x06,
    OPCodes::PHP => 0x08,
    OPCodes::ORA_IMM(_) => 0x09,
    OPCodes::ASL_A => 0x0a,
    OPCodes::ORA_ABS(_) => 0x0d,
    OPCodes::ASL_ABS(_) => 0x0e,
    OPCodes::BPL(_) => 0x10,
    OPCodes::ORA_YIND(_) => 0x11,
    OPCodes::ORA_XZPG(_) => 0x15,
    OPCodes::ASL_XZPG(_) => 0x16,
    OPCodes::CLC => 0x18,
    OPCodes::ORA_YABS(_) => 0x19,
    OPCodes::ORA_XABS(_) => 0x1d,
    OPCodes::ASL_XABS(_) => 0x1e,
    OPCodes::JSR(_) => 0x20,
    OPCodes::AND_XIND(_) => 0x21,
    OPCodes::BIT_ZPG(_) => 0x24,
    OPCodes::AND_ZPG(_) => 0x25,
    OPCodes::ROL_ZPG(_) => 0x26,
    OPCodes::PLP => 0x28,
    OPCodes::AND_IMM(_) => 0x29,
    OPCodes::ROL_A => 0x2a,
    OPCodes::BIT_ABS(_) => 0x2c,
    OPCodes::AND_ABS(_) => 0x2d,
    OPCodes::ROL_ABS(_) => 0x2e,
    OPCodes::BMI(_) => 0x30,
    OPCodes::AND_YIND(_) => 0x31,
    OPCodes::AND_XZPG(_) => 0x35,
    OPCodes::ROL_XZPG(_) => 0x36,
    OPCodes::SEC => 0x38,
    OPCodes::AND_YABS(_) => 0x39,
    OPCodes::AND_XABS(_) => 0x3d,
    OPCodes::ROL_XABS(_) => 0x3e,
    OPCodes::RTI => 0x40,
    OPCodes::EOR_XIND(_) => 0x41,
    OPCodes::EOR_ZPG(_) => 0x45,
    OPCodes::LSR_ZPG(_) => 0x46,
    OPCodes::PHA => 0x48,
    OPCodes::EOR_IMM(_) => 0x49,
    OPCodes::LSR_A => 0x4a,
    OPCodes::JMP_ABS(_) => 0x4c,
    OPCodes::EOR_ABS(_) => 0x4d,
    OPCodes::LSR_ABS(_) => 0x4e,
    OPCodes::BVC(_) => 0x51,
    OPCodes::EOR_YIND(_) => 0x52,
    OPCodes::EOR_XZPG(_) => 0x55,
    OPCodes::LSR_XZPG(_) => 0x56,
    OPCodes::CLI => 0x58,
    OPCodes::EOR_YABS(_) => 0x59,
    OPCodes::EOR_XABS(_) => 0x5d,
    OPCodes::LSR_XABS(_) => 0x5e,
    OPCodes::RTS => 0x60,
    OPCodes::ADC_XIND(_) => 0x61,
    OPCodes::ADC_ZPG(_) => 0x65,
    OPCodes::ROR_ZPG(_) => 0x66,
    OPCodes::PLA => 0x68,
    OPCodes::ADC_IMM(_) => 0x69,
    OPCodes::ROR_A => 0x6a,
    OPCodes::JMP_IND(_) => 0x6c,
    OPCodes::ADC_ABS(_) => 0x6d,
    OPCodes::ROR_ABS(_) => 0x6e,
    OPCodes::BVS(_) => 0x70,
    OPCodes::ADC_YIND(_) => 0x71,
    OPCodes::ADC_XZPG(_) => 0x75,
    OPCodes::ROR_XZPG(_) => 0x76,
    OPCodes::SEI => 0x78,
    OPCodes::ADC_YABS(_) => 0x79,
    OPCodes::ADC_XABS(_) => 0x7d,
    OPCodes::ROR_XABS(_) => 0x7e,
    OPCodes::STA_XIND(_) => 0x81,
    OPCodes::STY_ZPG(_) => 0x84,
    OPCodes::STA_ZPG(_) => 0x85,
    OPCodes::STX_ZPG(_) => 0x86,
    OPCodes::DEY => 0x88,
    OPCodes::TXA => 0x8a,
    OPCodes::STY_ABS(_) => 0x8c,
    OPCodes::STA_ABS(_) => 0x8d,
    OPCodes::STX_ABS(_) => 0x8e,
    OPCodes::BCC(_) => 0x90,
    OPCodes::STA_YIND(_) => 0x91,
    OPCodes::STY_XZPG(_) => 0x94,
    OPCodes::STA_XZPG(_) => 0x95,
    OPCodes::STX_YZPG(_) => 0x96,
    OPCodes::TYA => 0x98,
    OPCodes::STA_YABS(_) => 0x99,
    OPCodes::TXS => 0x9a,
    OPCodes::STA_XABS(_) => 0x9d,
    OPCodes::LDY_IMM(_) => 0xa0,
    OPCodes::LDA_XIND(_) => 0xa1,
    OPCodes::LDX_IMM(_) => 0xa2,
    OPCodes::LDY_ZPG(_) => 0xa4,
    OPCodes::LDA_ZPG(_) => 0xa5,
    OPCodes::LDX_ZPG(_) => 0xa6,
    OPCodes::TAY => 0xa8,
    OPCodes::LDA_IMM(_) => 0xa9,
    OPCodes::TAX => 0xaa,
    OPCodes::LDY_ABS(_) => 0xac,
    OPCodes::LDA_ABS(_) => 0xad,
    OPCodes::LDX_ABS(_) => 0xae,
    OPCodes::BCS(_) => 0xb0,
    OPCodes::LDA_YIND(_) => 0xb1,
    OPCodes::LDY_XZPG(_) => 0xb4,
    OPCodes::LDA_XZPG(_) => 0xb5,
    OPCodes::LDX_YZPG(_) => 0xb6,
    OPCodes::CLV => 0xb8,
    OPCodes::LDA_YABS(_) => 0xb9,
    OPCodes::TSX => 0xba,
    OPCodes::LDY_XABS(_) => 0xbc,
    OPCodes::LDA_XABS(_) => 0xbd,
    OPCodes::LDX_YABS(_) => 0xbe,
    OPCodes::CPY_IMM(_) => 0xc0,
    OPCodes::CMP_XIND(_) => 0xc1,
    OPCodes::CPY_ZPG(_) => 0xc4,
    OPCodes::CMP_ZPG(_) => 0xc5,
    OPCodes::DEC_ZPG(_) => 0xc6,
    OPCodes::INY => 0xc8,
    OPCodes::CMP_IMM(_) => 0xc9,
    OPCodes::DEX => 0xca,
    OPCodes::CPY_ABS(_) => 0xcc,
    OPCodes::CMP_ABS(_) => 0xcd,
    OPCodes::DEC_ABS(_) => 0xce,
    OPCodes::BNE(_) => 0xd0,
    OPCodes::CMP_YIND(_) => 0xd1,
    OPCodes::CMP_XZPG(_) => 0xd5,
    OPCodes::DEC_XZPG(_) => 0xd6,
    OPCodes::CLD => 0xd8,
    OPCodes::CMP_YABS(_) => 0xd9,
    OPCodes::CMP_XABS(_) => 0xdd,
    OPCodes::DEC_XABS(_) => 0xde,
    OPCodes::CPX_IMM(_) => 0xe0,
    OPCodes::SBC_XIND(_) => 0xe1,
    OPCodes::CPX_ZPG(_) => 0xe4,
    OPCodes::SBC_ZPG(_) => 0xe5,
    OPCodes::INC_ZPG(_) => 0xe6,
    OPCodes::INX => 0xe8,
    OPCodes::SBC_IMM(_) => 0xe9,
    OPCodes::NOP => 0xea,
    OPCodes::CPX_ABS(_) => 0xec,
    OPCodes::SBC_ABS(_) => 0xed,
    OPCodes::INC_ABS(_) => 0xee,
    OPCodes::BEQ(_) => 0xf0,
    OPCodes::SBC_YIND(_) => 0xf1,
    OPCodes::SBC_XZPG(_) => 0xf5,
    OPCodes::INC_XZPG(_) => 0xf6,
    OPCodes::SED => 0xf8,
    OPCodes::SBC_YABS(_) => 0xf9,
    OPCodes::SBC_XABS(_) => 0xfd,
    OPCodes::INC_XABS(_) => 0xfe,
        }
    }
}

} // verus!
