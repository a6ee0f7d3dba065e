//! The instruction set: the operations, and the table from opcode bytes to them.

use vstd::prelude::*;

verus! {

/// The ways in which an instruction names its operand.
#[derive(Debug, Clone, Copy, PartialEq, Eq, Structural)]
pub enum AddressingMode {
    Implicit,
    Accumulator,
    Immediate,
    ZeroPage,
    ZeroPageX,
    ZeroPageY,
    Relative,
    Absolute,
    AbsoluteX,
    AbsoluteY,
    Indirect,
    IndexedIndirect,
    IndirectIndexed,
}

impl AddressingMode {
    /// The number of bytes that follow the opcode in this mode.
    pub open spec fn operand_len(self) -> nat {
        match self {
            AddressingMode::Implicit | AddressingMode::Accumulator => 0,
            AddressingMode::Absolute
            | AddressingMode::AbsoluteX
            | AddressingMode::AbsoluteY
            | AddressingMode::Indirect => 2,
            _ => 1,
        }
    }

    /// The number of bytes that follow the opcode in this mode.
    pub fn operand_bytes(&self) -> (n: u16)
        ensures
            n == self.operand_len(),
    {
        match self {
            AddressingMode::Implicit | AddressingMode::Accumulator => 0,
            AddressingMode::Absolute
            | AddressingMode::AbsoluteX
            | AddressingMode::AbsoluteY
            | AddressingMode::Indirect => 2,
            _ => 1,
        }
    }
}

/// One decoded operation. A variant with a byte carries its operand: the
/// value for the load of the accumulator, a relative offset for the branch,
/// and a zero-page address for the rest.
#[derive(Debug, Clone, Copy, PartialEq, Eq, Structural)]
pub enum Instruction {
    ADC(u8),
    AND(u8),
    ASL(u8),
    BRK,
    BCC(u8),
    CLC,
    CLD,
    CLI,
    CLV,
    DEX,
    DEY,
    INC(u8),
    INX,
    INY,
    LDA(u8),
    LDX(u8),
    LDY(u8),
    NOP,
    SEC,
    SED,
    SEI,
    STA(u8),
    TAX,
    TAY,
    TXA,
    TYA,
    /// A byte that the table does not map; the fault that it ends in names it.
    Illegal(u8),
}

/// The addressing mode that the table gives `opcode`, or `None` where the
/// table does not map the byte.
pub open spec fn mode_of(opcode: u8) -> Option<AddressingMode> {
    if opcode == 0x06 || opcode == 0x25 || opcode == 0x65 || opcode == 0x85 || opcode == 0xA4
        || opcode == 0xA6 || opcode == 0xE6 {
        Some(AddressingMode::ZeroPage)
    } else if opcode == 0xA9 {
        Some(AddressingMode::Immediate)
    } else if opcode == 0x90 {
        Some(AddressingMode::Relative)
    } else if opcode == 0x00 || opcode == 0x18 || opcode == 0x38 || opcode == 0x58 || opcode
        == 0x78 || opcode == 0x88 || opcode == 0x8A || opcode == 0x98 || opcode == 0xA8 || opcode
        == 0xAA || opcode == 0xB8 || opcode == 0xC8 || opcode == 0xCA || opcode == 0xD8 || opcode
        == 0xE8 || opcode == 0xEA || opcode == 0xF8 {
        Some(AddressingMode::Implicit)
    } else {
        None
    }
}

/// The number of operand bytes that follow `opcode` in the program: that of
/// its addressing mode, and none after a byte that the table does not map.
pub open spec fn operand_len(opcode: u8) -> nat {
    match mode_of(opcode) {
        Some(mode) => mode.operand_len(),
        None => 0,
    }
}

/// The instruction that `opcode` stands for. `operand` is the byte that
/// follows it in the program, and counts only where `operand_len(opcode)` is 1.
pub open spec fn instruction_of(opcode: u8, operand: u8) -> Instruction {
    match opcode {
        0x00u8 => Instruction::BRK,
        0x06u8 => Instruction::ASL(operand),
        0x18u8 => Instruction::CLC,
        0x25u8 => Instruction::AND(operand),
        0x38u8 => Instruction::SEC,
        0x58u8 => Instruction::CLI,
        0x65u8 => Instruction::ADC(operand),
        0x78u8 => Instruction::SEI,
        0x85u8 => Instruction::STA(operand),
        0x88u8 => Instruction::DEY,
        0x8Au8 => Instruction::TXA,
        0x90u8 => Instruction::BCC(operand),
        0x98u8 => Instruction::TYA,
        0xA4u8 => Instruction::LDY(operand),
        0xA6u8 => Instruction::LDX(operand),
        0xA8u8 => Instruction::TAY,
        0xA9u8 => Instruction::LDA(operand),
        0xAAu8 => Instruction::TAX,
        0xB8u8 => Instruction::CLV,
        0xC8u8 => Instruction::INY,
        0xCAu8 => Instruction::DEX,
        0xD8u8 => Instruction::CLD,
        0xE6u8 => Instruction::INC(operand),
        0xE8u8 => Instruction::INX,
        0xEAu8 => Instruction::NOP,
        0xF8u8 => Instruction::SED,
        _ => Instruction::Illegal(opcode),
    }
}

/// The addressing mode that the table gives `opcode`, or `None` where the
/// table does not map the byte.
pub fn addressing_mode(opcode: u8) -> (mode: Option<AddressingMode>)
    ensures
        mode == mode_of(opcode),
{
    match opcode {
        0x06 | 0x25 | 0x65 | 0x85 | 0xA4 | 0xA6 | 0xE6 => Some(AddressingMode::ZeroPage),
        0xA9 => Some(AddressingMode::Immediate),
        0x90 => Some(AddressingMode::Relative),
        0x00 | 0x18 | 0x38 | 0x58 | 0x78 | 0x88 | 0x8A | 0x98 | 0xA8 | 0xAA | 0xB8 | 0xC8 | 0xCA
        | 0xD8 | 0xE8 | 0xEA | 0xF8 => Some(AddressingMode::Implicit),
        _ => None,
    }
}

/// The instruction that `opcode` stands for, with `operand` as its operand
/// where it takes one.
pub fn instruction(opcode: u8, operand: u8) -> (inst: Instruction)
    ensures
        inst == instruction_of(opcode, operand),
{
    match opcode {
        0x00 => Instruction::BRK,
        0x06 => Instruction::ASL(operand),
        0x18 => Instruction::CLC,
        0x25 => Instruction::AND(operand),
        0x38 => Instruction::SEC,
        0x58 => Instruction::CLI,
        0x65 => Instruction::ADC(operand),
        0x78 => Instruction::SEI,
        0x85 => Instruction::STA(operand),
        0x88 => Instruction::DEY,
        0x8A => Instruction::TXA,
        0x90 => Instruction::BCC(operand),
        0x98 => Instruction::TYA,
        0xA4 => Instruction::LDY(operand),
        0xA6 => Instruction::LDX(operand),
        0xA8 => Instruction::TAY,
        0xA9 => Instruction::LDA(operand),
        0xAA => Instruction::TAX,
        0xB8 => Instruction::CLV,
        0xC8 => Instruction::INY,
        0xCA => Instruction::DEX,
        0xD8 => Instruction::CLD,
        0xE6 => Instruction::INC(operand),
        0xE8 => Instruction::INX,
        0xEA => Instruction::NOP,
        0xF8 => Instruction::SED,
        _ => Instruction::Illegal(opcode),
    }
}

/// The table maps a byte exactly when it gives it an addressing mode, and a
/// mapped byte is followed by at most one operand byte.
pub proof fn lemma_table(opcode: u8, operand: u8)
    ensures
        (instruction_of(opcode, operand) == Instruction::Illegal(opcode)) == (mode_of(opcode)
            is None),
        operand_len(opcode) <= 1,
        operand_len(opcode) == 0 ==> instruction_of(opcode, operand) == instruction_of(opcode, 0),
{
}

} // verus!
