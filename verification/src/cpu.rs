//! The processor: its registers and memories, and one step of its
//! fetch, decode, execute cycle.

use vstd::prelude::*;
use vstd::pervasive::unreached;
use crate::instruction::{
    addressing_mode, instruction, instruction_of, operand_len, Instruction,
};
use crate::memory::Memory;
use crate::status::{Flag, Status};

verus! {

/// The size of the working memory, in bytes.
pub const WRAM_SIZE: usize = 0x0800;

/// The size of the program memory, in bytes.
pub const ROM_SIZE: usize = 0x0F00;

/// The value of the stack pointer in a new processor.
pub const INITIAL_SP: u8 = 0xFD;

/// The status byte of a new processor: Unused and Interrupt-disable are set,
/// and no other flag is.
pub const INITIAL_STATUS: u8 = 0x24;

/// Why a step could not be carried out.
#[derive(Debug, Clone, Copy, PartialEq, Eq, Structural)]
pub enum Fault {
    /// The program holds a byte that the instruction table does not map.
    IllegalOpcode(u8),
    /// The program asks for a software interrupt, for which the processor
    /// has no behaviour.
    Interrupt,
    /// The program counter points past the end of the program memory.
    OutOfRange(u16),
}

/// The processor as a mathematical value.
pub struct Machine {
    pub acc: u8,
    pub x: u8,
    pub y: u8,
    pub sr: Status,
    pub sp: u8,
    pub pc: u16,
    pub wram: Seq<u8>,
    pub rom: Seq<u8>,
}

/// `v + 1` modulo 256.
pub open spec fn wrapping_inc(v: u8) -> u8 {
    ((v + 1) % 256) as u8
}

/// `v - 1` modulo 256.
pub open spec fn wrapping_dec(v: u8) -> u8 {
    ((v + 255) % 256) as u8
}

/// The offset of a branch as a signed number: `-128..=127`.
pub open spec fn signed(offset: u8) -> int {
    if offset < 0x80 {
        offset as int
    } else {
        offset - 0x100
    }
}

/// Where a taken branch leads from `pc`: `pc` plus the signed offset,
/// modulo 65536.
pub open spec fn branch_target(pc: u16, offset: u8) -> u16 {
    ((pc + signed(offset)) % 0x1_0000) as u16
}

impl Machine {
    /// Both memories have their full size.
    pub open spec fn wf(self) -> bool {
        self.wram.len() == WRAM_SIZE && self.rom.len() == ROM_SIZE
    }

    /// The next byte of the program, and the machine with its program counter
    /// one further; a fault where the program counter is past the program.
    pub open spec fn fetched(self) -> Result<(u8, Machine), Fault> {
        if self.pc < ROM_SIZE {
            Ok((self.rom[self.pc as int], Machine { pc: (self.pc + 1) as u16, ..self }))
        } else {
            Err(Fault::OutOfRange(self.pc))
        }
    }

    /// The instruction that `opcode` stands for here, and the machine after
    /// the operand byte, if `opcode` has one, has been taken from the program.
    pub open spec fn decoded(self, opcode: u8) -> Result<(Instruction, Machine), Fault> {
        if operand_len(opcode) == 0 {
            Ok((instruction_of(opcode, 0), self))
        } else {
            match self.fetched() {
                Ok((operand, next)) => Ok((instruction_of(opcode, operand), next)),
                Err(fault) => Err(fault),
            }
        }
    }

    /// The machine with `val` in the accumulator, and Zero and Negative set from it.
    pub open spec fn with_acc(self, val: u8) -> Machine {
        Machine { acc: val, sr: self.sr.with_zn(val), ..self }
    }

    /// The machine with `val` in X, and Zero and Negative set from it.
    pub open spec fn with_x(self, val: u8) -> Machine {
        Machine { x: val, sr: self.sr.with_zn(val), ..self }
    }

    /// The machine with `val` in Y, and Zero and Negative set from it.
    pub open spec fn with_y(self, val: u8) -> Machine {
        Machine { y: val, sr: self.sr.with_zn(val), ..self }
    }

    /// The machine with `flag` set to `value`.
    pub open spec fn with_flag(self, flag: Flag, value: bool) -> Machine {
        Machine { sr: self.sr.with(flag, value), ..self }
    }

    /// The machine after `inst`, or the fault that `inst` ends in.
    pub open spec fn executed(self, inst: Instruction) -> Result<Machine, Fault> {
        match inst {
            Instruction::BRK => Err(Fault::Interrupt),
            Instruction::Illegal(opcode) => Err(Fault::IllegalOpcode(opcode)),
            Instruction::ASL(addr) => {
                let data = self.wram[addr as int];
                let shifted = ((data * 2) % 256) as u8;
                Ok(
                    Machine {
                        wram: self.wram.update(addr as int, shifted),
                        sr: self.sr.with(Flag::C, data >= 0x80).with_zn(shifted),
                        ..self
                    },
                )
            },
            Instruction::AND(addr) => Ok(self.with_acc(self.acc & self.wram[addr as int])),
            Instruction::ADC(addr) => {
                let sum = self.acc + self.wram[addr as int];
                Ok(self.with_acc((sum % 256) as u8).with_flag(Flag::C, sum > 0xFF))
            },
            Instruction::CLC => Ok(self.with_flag(Flag::C, false)),
            Instruction::CLD => Ok(self.with_flag(Flag::D, false)),
            Instruction::CLI => Ok(self.with_flag(Flag::I, false)),
            Instruction::CLV => Ok(self.with_flag(Flag::V, false)),
            Instruction::SEC => Ok(self.with_flag(Flag::C, true)),
            Instruction::SED => Ok(self.with_flag(Flag::D, true)),
            Instruction::SEI => Ok(self.with_flag(Flag::I, true)),
            Instruction::DEX => Ok(self.with_x(wrapping_dec(self.x))),
            Instruction::DEY => Ok(self.with_y(wrapping_dec(self.y))),
            Instruction::INX => Ok(self.with_x(wrapping_inc(self.x))),
            Instruction::INY => Ok(self.with_y(wrapping_inc(self.y))),
            Instruction::INC(addr) => {
                let val = wrapping_inc(self.wram[addr as int]);
                Ok(
                    Machine {
                        wram: self.wram.update(addr as int, val),
                        sr: self.sr.with_zn(val),
                        ..self
                    },
                )
            },
            Instruction::LDA(data) => Ok(self.with_acc(data)),
            Instruction::LDX(addr) => Ok(self.with_x(self.wram[addr as int])),
            Instruction::LDY(addr) => Ok(self.with_y(self.wram[addr as int])),
            Instruction::STA(addr) => Ok(
                Machine { wram: self.wram.update(addr as int, self.acc), ..self },
            ),
            Instruction::BCC(offset) => Ok(
                if self.sr.has(Flag::C) {
                    Machine { pc: branch_target(self.pc, offset), ..self }
                } else {
                    self
                },
            ),
            Instruction::NOP => Ok(self),
            Instruction::TAX => Ok(self.with_x(self.acc)),
            Instruction::TAY => Ok(self.with_y(self.acc)),
            Instruction::TXA => Ok(self.with_acc(self.x)),
            Instruction::TYA => Ok(self.with_acc(self.y)),
        }
    }

    /// The machine after one step: a fetch of the opcode, the decoding of it,
    /// and the execution of the instruction; or the fault that the first of
    /// these to fail ends in.
    pub open spec fn step(self) -> Result<Machine, Fault> {
        match self.fetched() {
            Err(fault) => Err(fault),
            Ok((opcode, after_fetch)) => match after_fetch.decoded(opcode) {
                Err(fault) => Err(fault),
                Ok((inst, after_decode)) => after_decode.executed(inst),
            },
        }
    }
}

/// The processor: accumulator, index registers, status register, stack
/// pointer, program counter, working memory and program memory.
#[derive(Debug, Clone, Copy)]
pub struct CPU {
    /// Accumulator.
    pub acc: u8,
    /// X register.
    pub x: u8,
    /// Y register.
    pub y: u8,
    /// Status register.
    pub sr: Status,
    /// Stack pointer.
    pub sp: u8,
    /// Program counter: the address in `rom` of the next byte of the program.
    pub pc: u16,
    /// Working memory; zero-page operands are addresses in it.
    pub wram: Memory<WRAM_SIZE>,
    /// Program memory.
    pub rom: Memory<ROM_SIZE>,
}

impl View for CPU {
    type V = Machine;

    open spec fn view(&self) -> Machine {
        Machine {
            acc: self.acc,
            x: self.x,
            y: self.y,
            sr: self.sr,
            sp: self.sp,
            pc: self.pc,
            wram: self.wram@,
            rom: self.rom@,
        }
    }
}

impl CPU {
    /// A processor that is about to run the program in `rom`: registers and
    /// working memory are zero, the stack pointer is `INITIAL_SP`, and the
    /// status register holds `INITIAL_STATUS`: Unused and Interrupt-disable
    /// are set, and no other flag is.
    pub fn new(rom: Memory<ROM_SIZE>) -> (cpu: CPU)
        ensures
            cpu@ == (Machine {
                acc: 0,
                x: 0,
                y: 0,
                sr: Status { bits: INITIAL_STATUS },
                sp: INITIAL_SP,
                pc: 0,
                wram: Seq::new(WRAM_SIZE as nat, |i: int| 0u8),
                rom: rom@,
            }),
            cpu@.wf(),
            forall|flag: Flag| cpu.sr.has(flag) == (flag == Flag::U || flag == Flag::I),
    {
        let wram = Memory::new();
        let sr = Status::from_bits(INITIAL_STATUS);
        proof {
            rom.lemma_len();
            assert forall|flag: Flag| sr.has(flag) == (flag == Flag::U || flag == Flag::I) by {
                let m = flag.mask();
                assert((0x24u8 & m == m) == (m == 0x20 || m == 0x04 || m == 0x24 || m == 0))
                    by (bit_vector);
            }
        }
        CPU { acc: 0, x: 0, y: 0, sr, sp: INITIAL_SP, pc: 0, wram, rom }
    }

    /// Every processor's memories have their full size.
    pub proof fn lemma_wf(&self)
        ensures
            self@.wf(),
    {
        self.wram.lemma_len();
        self.rom.lemma_len();
    }

    /// The fault that the next step would end in, or `None` where the next
    /// step can be taken. The processor is only looked at.
    pub fn next_fault(&self) -> (r: Option<Fault>)
        ensures
            r == match self@.step() {
                Ok(_) => None::<Fault>,
                Err(fault) => Some(fault),
            },
    {
        if (self.pc as usize) >= ROM_SIZE {
            return Some(Fault::OutOfRange(self.pc));
        }
        let opcode: u8 = self.rom.read_u8(self.pc);
        match addressing_mode(opcode) {
            None => Some(Fault::IllegalOpcode(opcode)),
            Some(mode) => {
                if mode.operand_bytes() != 0 && (self.pc as usize) + 1 >= ROM_SIZE {
                    Some(Fault::OutOfRange(self.pc + 1))
                } else if opcode == 0x00 {
                    Some(Fault::Interrupt)
                } else {
                    None
                }
            },
        }
    }

    /// Takes the next byte from the program and moves the program counter
    /// past it. The program counter must point into the program memory.
    pub fn fetch(&mut self) -> (byte: u8)
        requires
            old(self)@.fetched() is Ok,
        ensures
            old(self)@.fetched() == Ok::<(u8, Machine), Fault>((byte, final(self)@)),
            final(self).pc == old(self).pc + 1,
    {
        let byte = self.rom.read_u8(self.pc);
        self.pc = self.pc + 1;
        byte
    }

    /// Turns `opcode` into its instruction. Where the table gives `opcode`
    /// an operand, the operand is the next byte of the program, and the
    /// program counter moves past it; no other byte is taken. A byte that the
    /// table does not map becomes `Illegal`, and nothing is taken. An
    /// operand that is taken must lie in the program memory.
    pub fn decode(&mut self, opcode: u8) -> (inst: Instruction)
        requires
            old(self)@.decoded(opcode) is Ok,
        ensures
            old(self)@.decoded(opcode) == Ok::<(Instruction, Machine), Fault>(
                (inst, final(self)@),
            ),
            final(self).pc == old(self).pc + operand_len(opcode),
    {
        let operands: u16 = match addressing_mode(opcode) {
            Some(mode) => mode.operand_bytes(),
            None => 0,
        };
        if operands == 0 {
            instruction(opcode, 0)
        } else {
            let operand = self.fetch();
            instruction(opcode, operand)
        }
    }

    /// Sets the accumulator, and Zero and Negative from the new value.
    fn load_acc(&mut self, val: u8)
        ensures
            final(self)@ == old(self)@.with_acc(val),
    {
        self.acc = val;
        self.sr.set_zn_flags(val);
    }

    /// Sets X, and Zero and Negative from the new value.
    fn load_x(&mut self, val: u8)
        ensures
            final(self)@ == old(self)@.with_x(val),
    {
        self.x = val;
        self.sr.set_zn_flags(val);
    }

    /// Sets Y, and Zero and Negative from the new value.
    fn load_y(&mut self, val: u8)
        ensures
            final(self)@ == old(self)@.with_y(val),
    {
        self.y = val;
        self.sr.set_zn_flags(val);
    }

    /// Carries out `inst` on registers, flags and working memory. The
    /// software interrupt and an unmapped byte have no behaviour: neither
    /// may be handed in.
    pub fn execute(&mut self, inst: Instruction)
        requires
            !(inst is BRK),
            !(inst is Illegal),
        ensures
            old(self)@.executed(inst) == Ok::<Machine, Fault>(final(self)@),
    {
        match inst {
            Instruction::BRK => {
                unreached::<()>();
            },
            Instruction::Illegal(_) => {
                unreached::<()>();
            },
            Instruction::ASL(addr) => {
                let data = self.wram.read_u8(addr as u16);
                self.sr.set(Flag::C, data >= 0x80);
                let shifted: u8 = if data >= 0x80 {
                    (data - 0x80) * 2
                } else {
                    data * 2
                };
                self.sr.set_zn_flags(shifted);
                self.wram.write_u8(addr as u16, shifted);
            },
            Instruction::AND(addr) => {
                let data = self.wram.read_u8(addr as u16);
                self.load_acc(self.acc & data);
            },
            Instruction::ADC(addr) => {
                let data = self.wram.read_u8(addr as u16);
                let sum: u16 = self.acc as u16 + data as u16;
                self.load_acc((sum % 256) as u8);
                self.sr.set(Flag::C, sum > 0xFF);
            },
            Instruction::CLC => {
                self.sr.set(Flag::C, false);
            },
            Instruction::CLD => {
                self.sr.set(Flag::D, false);
            },
            Instruction::CLI => {
                self.sr.set(Flag::I, false);
            },
            Instruction::CLV => {
                self.sr.set(Flag::V, false);
            },
            Instruction::SEC => {
                self.sr.set(Flag::C, true);
            },
            Instruction::SED => {
                self.sr.set(Flag::D, true);
            },
            Instruction::SEI => {
                self.sr.set(Flag::I, true);
            },
            Instruction::DEX => {
                self.load_x(decrement(self.x));
            },
            Instruction::DEY => {
                self.load_y(decrement(self.y));
            },
            Instruction::INX => {
                self.load_x(increment(self.x));
            },
            Instruction::INY => {
                self.load_y(increment(self.y));
            },
            Instruction::INC(addr) => {
                let data = self.wram.read_u8(addr as u16);
                let val = increment(data);
                self.wram.write_u8(addr as u16, val);
                self.sr.set_zn_flags(val);
            },
            Instruction::LDA(data) => {
                self.load_acc(data);
            },
            Instruction::LDX(addr) => {
                let data = self.wram.read_u8(addr as u16);
                self.load_x(data);
            },
            Instruction::LDY(addr) => {
                let data = self.wram.read_u8(addr as u16);
                self.load_y(data);
            },
            Instruction::STA(addr) => {
                self.wram.write_u8(addr as u16, self.acc);
            },
            Instruction::BCC(offset) => {
                if self.sr.contains(Flag::C) {
                    self.pc = branch(self.pc, offset);
                }
            },
            Instruction::NOP => {},
            Instruction::TAX => {
                self.load_x(self.acc);
            },
            Instruction::TAY => {
                self.load_y(self.acc);
            },
            Instruction::TXA => {
                self.load_acc(self.x);
            },
            Instruction::TYA => {
                self.load_acc(self.y);
            },
        }
    }

    /// One step: fetches the opcode at the program counter, decodes it, which
    /// takes the operand byte where the opcode has one, and executes the
    /// instruction. The step must be one that can be taken: `next_fault`
    /// tells whether it is.
    pub fn tick(&mut self)
        requires
            old(self)@.step() is Ok,
        ensures
            old(self)@.step() == Ok::<Machine, Fault>(final(self)@),
    {
        let opcode = self.fetch();
        let inst = self.decode(opcode);
        self.execute(inst);
    }
}

/// `v + 1`, wrapping from 255 to 0.
pub fn increment(v: u8) -> (r: u8)
    ensures
        r == wrapping_inc(v),
{
    if v == 0xFF {
        0
    } else {
        v + 1
    }
}

/// `v - 1`, wrapping from 0 to 255.
pub fn decrement(v: u8) -> (r: u8)
    ensures
        r == wrapping_dec(v),
{
    if v == 0 {
        0xFF
    } else {
        v - 1
    }
}

/// Where a taken branch leads from `pc`: `pc` plus the signed `offset`,
/// wrapping at both ends of the address space.
pub fn branch(pc: u16, offset: u8) -> (target: u16)
    ensures
        target == branch_target(pc, offset),
{
    let extended: u32 = if offset < 0x80 {
        offset as u32
    } else {
        offset as u32 + 0xFF00
    };
    ((pc as u32 + extended) % 0x1_0000) as u16
}

} // verus!
