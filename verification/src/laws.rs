//! What holds of every step: which flags an instruction may touch, how far
//! the program counter moves, and what a fault leaves behind.

use vstd::prelude::*;
use crate::cpu::{branch_target, Fault, Machine, ROM_SIZE};
use crate::instruction::{mode_of, operand_len, Instruction};
use crate::status::Flag;

verus! {

/// The byte that `inst` has produced in `after`: the register or the byte of
/// working memory that it wrote and set Zero and Negative from. `None` for an
/// instruction that produces no such byte.
pub open spec fn produced(inst: Instruction, after: Machine) -> Option<u8> {
    match inst {
        Instruction::ADC(_)
        | Instruction::AND(_)
        | Instruction::LDA(_)
        | Instruction::TXA
        | Instruction::TYA => Some(after.acc),
        Instruction::DEX | Instruction::INX | Instruction::LDX(_) | Instruction::TAX => Some(
            after.x,
        ),
        Instruction::DEY | Instruction::INY | Instruction::LDY(_) | Instruction::TAY => Some(
            after.y,
        ),
        Instruction::ASL(addr) | Instruction::INC(addr) => Some(after.wram[addr as int]),
        _ => None,
    }
}

/// Whether `inst` sets Carry besides Zero and Negative.
pub open spec fn produces_carry(inst: Instruction) -> bool {
    inst is ADC || inst is ASL
}

/// The flag that a flag instruction writes, and the value that it gives it.
pub open spec fn flag_written(inst: Instruction) -> Option<(Flag, bool)> {
    match inst {
        Instruction::CLC => Some((Flag::C, false)),
        Instruction::CLD => Some((Flag::D, false)),
        Instruction::CLI => Some((Flag::I, false)),
        Instruction::CLV => Some((Flag::V, false)),
        Instruction::SEC => Some((Flag::C, true)),
        Instruction::SED => Some((Flag::D, true)),
        Instruction::SEI => Some((Flag::I, true)),
        _ => None,
    }
}

/// After an instruction that produces a byte, Zero is set exactly when that
/// byte is 0 and Negative exactly when its bit 7 is set. Of the other flags
/// only Carry can have changed, and only after an addition or a shift.
pub proof fn lemma_zero_negative(before: Machine, inst: Instruction, after: Machine, val: u8)
    requires
        before.wf(),
        before.executed(inst) == Ok::<Machine, Fault>(after),
        produced(inst, after) == Some(val),
    ensures
        after.sr.has(Flag::Z) == (val == 0),
        after.sr.has(Flag::N) == (val & 0x80 == 0x80),
        forall|g: Flag|
            g != Flag::Z && g != Flag::N && !(g == Flag::C && produces_carry(inst))
                ==> after.sr.has(g) == before.sr.has(g),
{
    match inst {
        Instruction::ADC(addr) => {
            let sum = before.acc + before.wram[addr as int];
            before.sr.lemma_with_zn(val);
            before.sr.with_zn(val).lemma_with(Flag::C, sum > 0xFF);
        },
        Instruction::ASL(addr) => {
            let data = before.wram[addr as int];
            before.sr.lemma_with(Flag::C, data >= 0x80);
            before.sr.with(Flag::C, data >= 0x80).lemma_with_zn(val);
        },
        _ => {
            before.sr.lemma_with_zn(val);
        },
    }
}

/// An instruction that produces no byte leaves the status register as it
/// was, but for the one flag that a flag instruction writes.
pub proof fn lemma_flags_kept(before: Machine, inst: Instruction, after: Machine)
    requires
        before.executed(inst) == Ok::<Machine, Fault>(after),
        produced(inst, after) is None,
    ensures
        match flag_written(inst) {
            Some((flag, value)) => after.sr.has(flag) == value && forall|g: Flag|
                g != flag ==> after.sr.has(g) == before.sr.has(g),
            None => after.sr == before.sr,
        },
{
    match flag_written(inst) {
        Some((flag, value)) => {
            before.sr.lemma_with(flag, value);
        },
        None => {},
    }
}

/// A step that succeeds has decoded a byte that the table maps, and has
/// taken from the program that byte and the operand bytes that the table
/// gives it, no more: the program counter stands that many bytes further,
/// or, after a taken branch, at the branch's target from there.
pub proof fn lemma_step_length(before: Machine, after: Machine)
    requires
        before.wf(),
        before.step() == Ok::<Machine, Fault>(after),
    ensures
        before.pc < ROM_SIZE,
        mode_of(before.rom[before.pc as int]) is Some,
        ({
            let opcode = before.rom[before.pc as int];
            let next = before.pc + 1 + operand_len(opcode);
            &&& operand_len(opcode) <= 1
            &&& next <= ROM_SIZE
            &&& if opcode == 0x90 && before.sr.has(Flag::C) {
                after.pc == branch_target(next as u16, before.rom[before.pc + 1])
            } else {
                after.pc == next
            }
        }),
{
}

/// A step that succeeds leaves the program memory and the stack pointer as
/// they were, and both memories at their full size.
pub proof fn lemma_step_frame(before: Machine, after: Machine)
    requires
        before.wf(),
        before.step() == Ok::<Machine, Fault>(after),
    ensures
        after.wf(),
        after.rom == before.rom,
        after.sp == before.sp,
{
}

/// A step reads the program at the program counter and, where the opcode
/// there has an operand, at the byte after it, and nowhere else: two
/// machines that differ only in the rest of the program step alike.
pub proof fn lemma_step_reads(one: Machine, other: Machine)
    requires
        one.wf(),
        other.wf(),
        other == (Machine { rom: other.rom, ..one }),
        one.pc < ROM_SIZE ==> other.rom[one.pc as int] == one.rom[one.pc as int],
        one.pc + 1 < ROM_SIZE && operand_len(one.rom[one.pc as int]) == 1 ==> other.rom[one.pc
            + 1] == one.rom[one.pc + 1],
    ensures
        match one.step() {
            Ok(after) => other.step() == Ok::<Machine, Fault>(Machine { rom: other.rom, ..after }),
            Err(fault) => other.step() == Err::<Machine, Fault>(fault),
        },
{
}

/// A step onto a byte that the table does not map cannot be taken: it ends
/// in the fault that carries that byte, whatever the rest of the machine
/// holds.
pub proof fn lemma_illegal_opcode(before: Machine)
    requires
        before.wf(),
        before.pc < ROM_SIZE,
        mode_of(before.rom[before.pc as int]) is None,
    ensures
        before.step() == Err::<Machine, Fault>(
            Fault::IllegalOpcode(before.rom[before.pc as int]),
        ),
{
}

/// Why a step cannot be taken: the program counter or the operand lies past
/// the program memory, the byte at the program counter is not in the table,
/// or it is the software interrupt. Every other step can be taken.
pub proof fn lemma_faults(before: Machine)
    requires
        before.wf(),
    ensures
        ({
            let opcode = before.rom[before.pc as int];
            if before.pc >= ROM_SIZE {
                before.step() == Err::<Machine, Fault>(Fault::OutOfRange(before.pc))
            } else if mode_of(opcode) is None {
                before.step() == Err::<Machine, Fault>(Fault::IllegalOpcode(opcode))
            } else if operand_len(opcode) == 1 && before.pc + 1 >= ROM_SIZE {
                before.step() == Err::<Machine, Fault>(
                    Fault::OutOfRange((before.pc + 1) as u16),
                )
            } else if opcode == 0x00 {
                before.step() == Err::<Machine, Fault>(Fault::Interrupt)
            } else {
                before.step() is Ok
            }
        }),
{
}

} // verus!
