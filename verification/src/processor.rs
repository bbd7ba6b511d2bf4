//! The executable emulator: register file, flat memory, decoder dispatch and
//! the fetch-execute loop.
//!
//! Every operation is proved against the model in [`crate::machine`]: the
//! view of a `Processor` is a [`Machine`], and each method's contract states
//! its effect as a function of that view.

use vstd::prelude::*;
use crate::machine::Machine;
use crate::machine::HaltReason;
use crate::machine::MEM_SIZE;
use crate::machine::add16;
use crate::machine::byte_at;
use crate::machine::word_at;
use crate::machine::zp_index;
use crate::machine::abs_index;
use crate::machine::crosses_page;
use crate::machine::with_zero_flag;
use crate::machine::with_negative_flag;
use crate::machine::loaded_a;
use crate::machine::loaded_x;
use crate::machine::loaded_y;
use crate::machine::stored;
use crate::machine::spec_step;
use crate::machine::fetch_operand;
use crate::machine::spec_run;
use crate::machine::lemma_step_cycles;
use crate::machine::lemma_add16_twice;
use crate::operators::OPCodes;

verus! {

/// Base address at which programs are loaded.
pub const PROGRAM_BASE: u16 = 0x0200;

/// Address of the reset vector: the little-endian word here names the
/// address execution starts from.
pub const RESET_VECTOR: u16 = 0xfffc;

/// A program may not overrun the two bytes reserved for the reset vector,
/// so its length is capped at `RESET_VECTOR - PROGRAM_BASE` bytes.
pub const MAX_PROGRAM_LEN: usize = 0xfdfc;

/// Why loading a program was refused.
#[derive(Debug, PartialEq, Eq, Structural, Clone, Copy)]
pub enum LoadError {
    /// The program would overrun the addressable space reserved for the
    /// reset vector.
    ProgramTooLong,
}

/// The outcome of a run: how many cycles were executed, and why the run
/// stopped.
#[derive(Debug, PartialEq, Eq, Structural, Clone, Copy)]
pub struct ExecutionReport {
    pub cycles_executed: u64,
    pub halt_reason: HaltReason,
}

/// A 6502-family processor: flat 64KB memory and the register file.
///
/// Memory regions by convention (not enforced): zero page 0x0000-0x00ff,
/// stack page 0x0100-0x01ff, reset vector at 0xfffc-0xfffd.
pub struct Processor {
    pub ram: Vec<u8>,
    pub a: u8,
    pub x: u8,
    pub y: u8,
    pub pc: u16,
    pub sp: u8,
    pub sr: u8,
}

impl View for Processor {
    type V = Machine;

    open spec fn view(&self) -> Machine {
        Machine {
            mem: self.ram@,
            a: self.a,
            x: self.x,
            y: self.y,
            pc: self.pc,
            sp: self.sp,
            sr: self.sr,
        }
    }
}

impl Processor {
    /// Well-formedness: the memory covers the whole 16-bit address space, so
    /// every 16-bit address is in bounds.
    pub open spec fn wf(&self) -> bool {
        self.ram@.len() == MEM_SIZE
    }

    /// A fresh processor: zeroed memory and registers, the program counter
    /// at the reset vector, and all status flags raised (the documented
    /// initial status value).
    pub fn new() -> (r: Self)
        ensures
            r.wf(),
            r@.a == 0,
            r@.x == 0,
            r@.y == 0,
            r@.pc == 0xfffc,
            r@.sp == 0,
            r@.sr == 0xff,
            forall|i: int| 0 <= i < MEM_SIZE ==> r@.mem[i] == 0,
    {
        Self {
            ram: vec![0u8; MEM_SIZE],
            a: 0,
            x: 0,
            y: 0,
            pc: 0xfffc,
            sp: 0x00,
            sr: 0xff,
        }
    }

    /// Reads the byte at the program counter and advances the counter by
    /// one, wrapping at the top of the address space.  With a well-formed
    /// processor the read always succeeds.
    pub fn read_byte(&mut self) -> (r: Option<u8>)
        requires
            old(self).wf(),
        ensures
            final(self).wf(),
            r == Some(byte_at(old(self)@, old(self)@.pc)),
            final(self)@ == (Machine { pc: add16(old(self)@.pc, 1), ..old(self)@ }),
    {
        let b = self.ram[self.pc as usize];
        self.pc = if self.pc == 0xffff {
            0
        } else {
            self.pc + 1
        };
        Some(b)
    }

    /// Reads the byte at an address.  With a well-formed processor the read
    /// always succeeds.
    pub fn read_byte_at_address(&self, address: u16) -> (r: Option<u8>)
        requires
            self.wf(),
        ensures
            r == Some(byte_at(self@, address)),
    {
        Some(self.ram[address as usize])
    }

    /// Writes a byte at an address; registers are untouched.
    pub fn write_byte(&mut self, address: u16, data: u8)
        requires
            old(self).wf(),
        ensures
            final(self).wf(),
            final(self)@ == stored(old(self)@, address, data),
    {
        self.ram[address as usize] = data;
    }

    /// Reads the little-endian word at the program counter and advances the
    /// counter by two, wrapping at the top of the address space.
    pub fn read_word(&mut self) -> (r: Option<u16>)
        requires
            old(self).wf(),
        ensures
            final(self).wf(),
            r == Some(word_at(old(self)@, old(self)@.pc)),
            final(self)@ == (Machine { pc: add16(old(self)@.pc, 2), ..old(self)@ }),
    {
        proof {
            lemma_add16_twice(self.pc);
        }
        let lo = self.read_byte().unwrap();
        let hi = self.read_byte().unwrap();
        Some(lo as u16 + (hi as u16) * 0x100)
    }

    /// Reads the little-endian word at an address; the high byte wraps
    /// around the top of the address space.  The processor is unchanged.
    pub fn read_word_at_address(&mut self, address: u16) -> (r: Option<u16>)
        requires
            old(self).wf(),
        ensures
            final(self).wf(),
            final(self)@ == old(self)@,
            r == Some(word_at(old(self)@, address)),
    {
        let lo = self.read_byte_at_address(address).unwrap();
        let hi = self.read_byte_at_address(Self::next_address(address)).unwrap();
        Some(lo as u16 + (hi as u16) * 0x100)
    }

    /// Writes a little-endian word at an address: the low byte at the
    /// address, the high byte just above it, wrapping at the top of the
    /// address space.  Reading a word back from the same address recovers
    /// the value written.
    pub fn write_word(&mut self, address: u16, data: u16)
        requires
            old(self).wf(),
        ensures
            final(self).wf(),
            final(self)@ == stored(
                stored(old(self)@, address, (data % 0x100) as u8),
                add16(address, 1),
                (data / 0x100) as u8,
            ),
            word_at(final(self)@, address) == data,
    {
        let lo = (data % 0x100) as u8;
        let hi = (data / 0x100) as u8;
        self.write_byte(address, lo);
        self.write_byte(Self::next_address(address), hi);
    }

    /// The address one above the given one, wrapping at the top of the
    /// address space.
    fn next_address(address: u16) -> (r: u16)
        ensures
            r == add16(address, 1),
    {
        if address == 0xffff {
            0
        } else {
            address + 1
        }
    }

    /// Writes the program at the base address, refusing one that would
    /// overrun the space reserved for the reset vector, installs the reset
    /// vector pointing at the base address, and sets the program counter
    /// there.  A refused program leaves the processor unchanged.
    pub fn write_program(&mut self, program: &Vec<u8>) -> (r: Result<(), LoadError>)
        requires
            old(self).wf(),
        ensures
            final(self).wf(),
            program@.len() > MAX_PROGRAM_LEN ==> {
                &&& r == Err::<(), LoadError>(LoadError::ProgramTooLong)
                &&& final(self)@ == old(self)@
            },
            program@.len() <= MAX_PROGRAM_LEN ==> {
                &&& r == Ok::<(), LoadError>(())
                &&& final(self)@.a == old(self)@.a
                &&& final(self)@.x == old(self)@.x
                &&& final(self)@.y == old(self)@.y
                &&& final(self)@.sp == old(self)@.sp
                &&& final(self)@.sr == old(self)@.sr
                &&& final(self)@.pc == PROGRAM_BASE
                &&& final(self)@.mem.len() == MEM_SIZE
                &&& forall|i: int|
                    0 <= i < MEM_SIZE ==> final(self)@.mem[i] == (
                        if PROGRAM_BASE <= i < PROGRAM_BASE + program@.len() {
                            program@[i - PROGRAM_BASE]
                        } else if i == RESET_VECTOR {
                            (PROGRAM_BASE % 0x100) as u8
                        } else if i == RESET_VECTOR + 1 {
                            (PROGRAM_BASE / 0x100) as u8
                        } else {
                            old(self)@.mem[i]
                        })
            },
    {
        if program.len() > MAX_PROGRAM_LEN {
            return Err(LoadError::ProgramTooLong);
        }
        let ghost pre = self@;
        let mut address: usize = 0;
        while address < program.len()
            invariant
                self.wf(),
                program@.len() <= MAX_PROGRAM_LEN,
                address <= program@.len(),
                self@.a == pre.a,
                self@.x == pre.x,
                self@.y == pre.y,
                self@.pc == pre.pc,
                self@.sp == pre.sp,
                self@.sr == pre.sr,
                forall|i: int|
                    0 <= i < MEM_SIZE ==> self@.mem[i] == (
                        if PROGRAM_BASE <= i < PROGRAM_BASE + address {
                            program@[i - PROGRAM_BASE]
                        } else {
                            pre.mem[i]
                        }),
            decreases program@.len() - address,
        {
            self.write_byte(address as u16 + PROGRAM_BASE, program[address]);
            address += 1;
        }
        self.write_word(RESET_VECTOR, PROGRAM_BASE);
        self.pc = PROGRAM_BASE;
        Ok(())
    }

    /// Sets the Zero flag exactly when the value is 0, clearing it
    /// otherwise; no other flag moves.
    fn zero_flag(&mut self, value: u8)
        requires
            old(self).wf(),
        ensures
            final(self).wf(),
            final(self)@ == (Machine { sr: with_zero_flag(old(self)@.sr, value), ..old(self)@ }),
    {
        if value == 0 {
            self.sr = self.sr | 0x02;
        } else {
            self.sr = self.sr & 0xfd;
        }
    }

    /// Sets the Negative flag exactly to bit 7 of the value; no other flag
    /// moves.
    fn negative_flag(&mut self, value: u8)
        requires
            old(self).wf(),
        ensures
            final(self).wf(),
            final(self)@ == (Machine { sr: with_negative_flag(old(self)@.sr, value), ..old(self)@ }),
    {
        self.sr = (self.sr & 0x7f) | (value & 0x80);
    }

    /// Loads a value into the accumulator, tracking Zero and Negative.
    fn load_a(&mut self, value: u8)
        requires
            old(self).wf(),
        ensures
            final(self).wf(),
            final(self)@ == loaded_a(old(self)@, value),
    {
        self.a = value;
        self.zero_flag(value);
        self.negative_flag(value);
    }

    /// Loads a value into the X register, tracking Zero and Negative.
    fn load_x(&mut self, value: u8)
        requires
            old(self).wf(),
        ensures
            final(self).wf(),
            final(self)@ == loaded_x(old(self)@, value),
    {
        self.x = value;
        self.zero_flag(value);
        self.negative_flag(value);
    }

    /// Loads a value into the Y register, tracking Zero and Negative.
    fn load_y(&mut self, value: u8)
        requires
            old(self).wf(),
        ensures
            final(self).wf(),
            final(self)@ == loaded_y(old(self)@, value),
    {
        self.y = value;
        self.zero_flag(value);
        self.negative_flag(value);
    }

    /// Zero-page-indexed effective address: wraps within page zero.
    fn zp_indexed(operand: u8, index: u8) -> (r: u16)
        ensures
            r == zp_index(operand, index),
    {
        (operand as u16 + index as u16) % 0x100
    }

    /// Absolute-indexed effective address: wraps within the 64K space.
    fn abs_indexed(base: u16, index: u8) -> (r: u16)
        ensures
            r == abs_index(base, index),
    {
        ((base as u32 + index as u32) % 0x10000) as u16
    }

    /// Whether adding the index to the base crosses a 256-byte page
    /// boundary, which costs one extra cycle.
    fn page_crossed(base: u16, index: u8) -> (r: bool)
        ensures
            r == crosses_page(base, index),
    {
        Self::abs_indexed(base, index) / 0x100 != base / 0x100
    }

    /// Applies one instruction to the processor and returns its cycle cost,
    /// exactly as [`spec_step`] states.
    ///
    /// Instructions outside the implemented subset leave the processor
    /// unchanged and cost 2 cycles.
    pub fn handle_opcode(&mut self, instruction: OPCodes) -> (r: u64)
        requires
            old(self).wf(),
        ensures
            final(self).wf(),
            final(self)@ == spec_step(old(self)@, instruction).0,
            r == spec_step(old(self)@, instruction).1,
    {
        proof {
            reveal(spec_step);
        }
        match instruction {
            // Flag setters.
            OPCodes::SEC => {
                self.sr = self.sr | 0x01;
                2
            }
            OPCodes::SEI => {
                self.sr = self.sr | 0x04;
                2
            }
            OPCodes::SED => {
                self.sr = self.sr | 0x08;
                2
            }
            // Flag clearers.
            OPCodes::CLC => {
                self.sr = self.sr & 0xfe;
                2
            }
            OPCodes::CLV => {
                self.sr = self.sr & 0xbf;
                2
            }
            OPCodes::CLI => {
                self.sr = self.sr & 0xfb;
                2
            }
            OPCodes::CLD => {
                self.sr = self.sr & 0xf7;
                2
            }
            // Loads into the accumulator.
            OPCodes::LDA_IMM(value) => {
                self.load_a(value);
                2
            }
            OPCodes::LDA_ZPG(operand) => {
                let value = self.read_byte_at_address(operand as u16).unwrap();
                self.load_a(value);
                3
            }
            OPCodes::LDA_XZPG(operand) => {
                let value = self.read_byte_at_address(Self::zp_indexed(operand, self.x)).unwrap();
                self.load_a(value);
                4
            }
            OPCodes::LDA_ABS(address) => {
                let value = self.read_byte_at_address(address).unwrap();
                self.load_a(value);
                4
            }
            OPCodes::LDA_XABS(base) => {
                let crossed = Self::page_crossed(base, self.x);
                let value = self.read_byte_at_address(Self::abs_indexed(base, self.x)).unwrap();
                self.load_a(value);
                if crossed {
                    5
                } else {
                    4
                }
            }
            OPCodes::LDA_YABS(base) => {
                let crossed = Self::page_crossed(base, self.y);
                let value = self.read_byte_at_address(Self::abs_indexed(base, self.y)).unwrap();
                self.load_a(value);
                if crossed {
                    5
                } else {
                    4
                }
            }
            OPCodes::LDA_XIND(operand) => {
                let address = self.read_word_at_address(Self::zp_indexed(operand, self.x)).unwrap();
                let value = self.read_byte_at_address(address).unwrap();
                self.load_a(value);
                6
            }
            OPCodes::LDA_YIND(operand) => {
                let base = self.read_word_at_address(operand as u16).unwrap();
                let crossed = Self::page_crossed(base, self.y);
                let value = self.read_byte_at_address(Self::abs_indexed(base, self.y)).unwrap();
                self.load_a(value);
                if crossed {
                    6
                } else {
                    5
                }
            }
            // Loads into the X register.
            OPCodes::LDX_IMM(value) => {
                self.load_x(value);
                2
            }
            OPCodes::LDX_ZPG(operand) => {
                let value = self.read_byte_at_address(operand as u16).unwrap();
                self.load_x(value);
                3
            }
            OPCodes::LDX_YZPG(operand) => {
                let value = self.read_byte_at_address(Self::zp_indexed(operand, self.y)).unwrap();
                self.load_x(value);
                4
            }
            OPCodes::LDX_ABS(address) => {
                let value = self.read_byte_at_address(address).unwrap();
                self.load_x(value);
                4
            }
            OPCodes::LDX_YABS(base) => {
                let crossed = Self::page_crossed(base, self.y);
                let value = self.read_byte_at_address(Self::abs_indexed(base, self.y)).unwrap();
                self.load_x(value);
                if crossed {
                    5
                } else {
                    4
                }
            }
            // Loads into the Y register.
            OPCodes::LDY_IMM(value) => {
                self.load_y(value);
                2
            }
            OPCodes::LDY_ZPG(operand) => {
                let value = self.read_byte_at_address(operand as u16).unwrap();
                self.load_y(value);
                3
            }
            OPCodes::LDY_XZPG(operand) => {
                let value = self.read_byte_at_address(Self::zp_indexed(operand, self.x)).unwrap();
                self.load_y(value);
                4
            }
            OPCodes::LDY_ABS(address) => {
                let value = self.read_byte_at_address(address).unwrap();
                self.load_y(value);
                4
            }
            OPCodes::LDY_XABS(base) => {
                let crossed = Self::page_crossed(base, self.x);
                let value = self.read_byte_at_address(Self::abs_indexed(base, self.x)).unwrap();
                self.load_y(value);
                if crossed {
                    5
                } else {
                    4
                }
            }
            // Stores from the accumulator.
            OPCodes::STA_ZPG(operand) => {
                self.write_byte(operand as u16, self.a);
                3
            }
            OPCodes::STA_XZPG(operand) => {
                let ea = Self::zp_indexed(operand, self.x);
                self.write_byte(ea, self.a);
                4
            }
            OPCodes::STA_ABS(address) => {
                self.write_byte(address, self.a);
                4
            }
            OPCodes::STA_XABS(base) => {
                let crossed = Self::page_crossed(base, self.x);
                let ea = Self::abs_indexed(base, self.x);
                self.write_byte(ea, self.a);
                if crossed {
                    5
                } else {
                    4
                }
            }
            OPCodes::STA_YABS(base) => {
                let crossed = Self::page_crossed(base, self.y);
                let ea = Self::abs_indexed(base, self.y);
                self.write_byte(ea, self.a);
                if crossed {
                    5
                } else {
                    4
                }
            }
            OPCodes::STA_XIND(operand) => {
                let address = self.read_word_at_address(Self::zp_indexed(operand, self.x)).unwrap();
                self.write_byte(address, self.a);
                6
            }
            OPCodes::STA_YIND(operand) => {
                let base = self.read_word_at_address(operand as u16).unwrap();
                let crossed = Self::page_crossed(base, self.y);
                let ea = Self::abs_indexed(base, self.y);
                self.write_byte(ea, self.a);
                if crossed {
                    6
                } else {
                    5
                }
            }
            // Stores from the index registers.
            OPCodes::STX_ZPG(operand) => {
                self.write_byte(operand as u16, self.x);
                3
            }
            OPCodes::STX_YZPG(operand) => {
                let ea = Self::zp_indexed(operand, self.y);
                self.write_byte(ea, self.x);
                4
            }
            OPCodes::STX_ABS(address) => {
                self.write_byte(address, self.x);
                4
            }
            OPCodes::STY_ZPG(operand) => {
                self.write_byte(operand as u16, self.y);
                3
            }
            OPCodes::STY_XZPG(operand) => {
                let ea = Self::zp_indexed(operand, self.x);
                self.write_byte(ea, self.y);
                4
            }
            OPCodes::STY_ABS(address) => {
                self.write_byte(address, self.y);
                4
            }
            // Transfers.  TXS is the one transfer that touches no flags.
            OPCodes::TAX => {
                let value = self.a;
                self.load_x(value);
                2
            }
            OPCodes::TAY => {
                let value = self.a;
                self.load_y(value);
                2
            }
            OPCodes::TXA => {
                let value = self.x;
                self.load_a(value);
                2
            }
            OPCodes::TYA => {
                let value = self.y;
                self.load_a(value);
                2
            }
            OPCodes::TSX => {
                let value = self.sp;
                self.load_x(value);
                2
            }
            OPCodes::TXS => {
                self.sp = self.x;
                2
            }
            // The designated halt condition, and the explicit no-op.
            OPCodes::BRK => 7,
            OPCodes::NOP => 2,
            // Outside the implemented subset: no effect, 2 cycles.
            _ => 2,
        }
    }

    /// Runs the fetch-execute loop until the designated halt instruction,
    /// a decode failure, or an exhausted cycle budget, exactly as
    /// [`spec_run`] states from the starting state.
    ///
    /// Each step decodes at the program counter, advances it past the whole
    /// instruction before executing, executes, and accounts the cycles.
    /// A decode or memory hazard halts with a reported reason instead of
    /// crashing.  The budget is checked once per completed instruction, so
    /// the cap on the limit merely keeps the final total within `u64`.
    #[verifier::rlimit(100)]
    pub fn execute(&mut self, cycle_limit: u64) -> (r: ExecutionReport)
        requires
            old(self).wf(),
            cycle_limit <= u64::MAX - 7,
        ensures
            final(self).wf(),
            final(self)@ == spec_run(old(self)@, 0, cycle_limit as nat).0,
            r.cycles_executed == spec_run(old(self)@, 0, cycle_limit as nat).1,
            r.halt_reason == spec_run(old(self)@, 0, cycle_limit as nat).2,
    {
        let ghost start = self@;
        let mut cycles: u64 = 0;
        loop
            invariant
                self.wf(),
                start == old(self)@,
                cycle_limit <= u64::MAX - 7,
                cycles <= cycle_limit + 6,
                spec_run(start, 0, cycle_limit as nat) == spec_run(
                    self@,
                    cycles as nat,
                    cycle_limit as nat,
                ),
            decreases cycle_limit + 7 - cycles,
        {
            if cycles >= cycle_limit {
                proof {
                    assert(spec_run(self@, cycles as nat, cycle_limit as nat) == (
                        self@,
                        cycles as nat,
                        HaltReason::CycleBudgetExhausted,
                    ));
                }
                return ExecutionReport {
                    cycles_executed: cycles,
                    halt_reason: HaltReason::CycleBudgetExhausted,
                };
            }
            let ghost pre = self@;
            let opcode = self.read_byte().unwrap();
            if !OPCodes::has_entry(opcode) {
                proof {
                    assert(spec_run(pre, cycles as nat, cycle_limit as nat) == (
                        self@,
                        cycles as nat,
                        HaltReason::DecodeFailure,
                    ));
                }
                return ExecutionReport {
                    cycles_executed: cycles,
                    halt_reason: HaltReason::DecodeFailure,
                };
            }
            let width = OPCodes::param_count(opcode);
            let value: Option<isize> = if width == 0 {
                None
            } else if width == 1 {
                Some(self.read_byte().unwrap() as isize)
            } else {
                Some(self.read_word().unwrap() as isize)
            };
            let ghost after_fetch = self@;
            assert(fetch_operand((Machine { pc: add16(pre.pc, 1), ..pre }), opcode) == (
                after_fetch,
                value,
            ));
            let instruction = OPCodes::instruction_to_opcode(opcode, value);
            let cost = self.handle_opcode(instruction);
            proof {
                lemma_step_cycles(after_fetch, instruction);
                assert(spec_run(pre, cycles as nat, cycle_limit as nat) == (
                    if instruction == OPCodes::BRK {
                        (self@, (cycles + cost) as nat, HaltReason::NormalHalt)
                    } else {
                        spec_run(self@, (cycles + cost) as nat, cycle_limit as nat)
                    }
                ));
            }
            cycles = cycles + cost;
            if instruction == OPCodes::BRK {
                return ExecutionReport {
                    cycles_executed: cycles,
                    halt_reason: HaltReason::NormalHalt,
                };
            }
        }
    }
}

} // verus!
