//! The instruction set: which operation each opcode byte stands for, how it
//! finds its operand, and how many cycles it takes.

use vstd::prelude::*;
use crate::cpu::AddressMode;

verus! {

/// The operations of the processor, by their mnemonics.
#[derive(Clone, Copy, Debug, PartialEq, Eq, Structural)]
pub enum Instruction {
    /// Add memory and carry to the accumulator.
    ADC,
    /// And memory into the accumulator.
    AND,
    /// Shift left by one bit.
    ASL,
    /// Branch if carry is clear.
    BCC,
    /// Branch if carry is set.
    BCS,
    /// Branch if zero is set.
    BEQ,
    /// Test bits of memory against the accumulator.
    BIT,
    /// Branch if negative is set.
    BMI,
    /// Branch if zero is clear.
    BNE,
    /// Branch if negative is clear.
    BPL,
    /// Software interrupt.
    BRK,
    /// Branch if overflow is clear.
    BVC,
    /// Branch if overflow is set.
    BVS,
    /// Clear carry.
    CLC,
    /// Clear decimal mode.
    CLD,
    /// Clear interrupt disable.
    CLI,
    /// Clear overflow.
    CLV,
    /// Compare memory with the accumulator (the mnemonic of the data sheets ends in MP).
    CPA,
    /// Compare memory with X.
    CPX,
    /// Compare memory with Y.
    CPY,
    /// Decrement memory.
    DEC,
    /// Decrement X.
    DEX,
    /// Decrement Y.
    DEY,
    /// Exclusive-or memory into the accumulator.
    EOR,
    /// Increment memory.
    INC,
    /// Increment X.
    INX,
    /// Increment Y.
    INY,
    /// Jump.
    JMP,
    /// Jump to a subroutine.
    JSR,
    /// Load the accumulator.
    LDA,
    /// Load X.
    LDX,
    /// Load Y.
    LDY,
    /// Shift right by one bit.
    LSR,
    /// Do nothing.
    NOP,
    /// Or memory into the accumulator.
    ORA,
    /// Push the accumulator.
    PHA,
    /// Push the status byte.
    PHP,
    /// Pull the accumulator.
    PLA,
    /// Pull the status byte.
    PLP,
    /// Rotate left through carry.
    ROL,
    /// Rotate right through carry.
    ROR,
    /// Return from an interrupt.
    RTI,
    /// Return from a subroutine.
    RTS,
    /// Subtract memory and borrow from the accumulator.
    SBC,
    /// Set carry.
    SEC,
    /// Set decimal mode.
    SED,
    /// Set interrupt disable.
    SEI,
    /// Store the accumulator.
    STA,
    /// Store X.
    STX,
    /// Store Y.
    STY,
    /// Copy the accumulator to X.
    TAX,
    /// Copy the accumulator to Y.
    TAY,
    /// Copy the stack pointer to X.
    TSX,
    /// Copy X to the accumulator.
    TXA,
    /// Copy X to the stack pointer.
    TXS,
    /// Copy Y to the accumulator.
    TYA,
}

/// One decoded opcode.
#[derive(Clone, Copy, Debug, PartialEq, Eq, Structural)]
pub struct Operation {
    pub instruction: Instruction,
    pub mode: AddressMode,
    /// Cycles that the instruction takes at least.
    pub cycles: u8,
    /// Cycles more when indexing crosses into another page.
    pub page_cycles: u8,
}

/// Bytes that an instruction with this addressing mode occupies.
pub open spec fn spec_size(mode: AddressMode) -> u16 {
    match mode {
        AddressMode::Implied | AddressMode::Accumulator => 1,
        AddressMode::Absolute
        | AddressMode::AbsoluteX
        | AddressMode::AbsoluteY
        | AddressMode::Indirect => 3,
        _ => 2,
    }
}

/// Bytes that an instruction with this addressing mode occupies.
#[verifier::when_used_as_spec(spec_size)]
pub fn size(mode: AddressMode) -> (bytes: u16)
    ensures
        bytes == spec_size(mode),
        1 <= bytes <= 3,
{
    match mode {
        AddressMode::Implied | AddressMode::Accumulator => 1,
        AddressMode::Absolute
        | AddressMode::AbsoluteX
        | AddressMode::AbsoluteY
        | AddressMode::Indirect => 3,
        _ => 2,
    }
}

/// A decoded opcode from its four parts.
pub open spec fn spec_operation(
    instruction: Instruction,
    mode: AddressMode,
    cycles: u8,
    page_cycles: u8,
) -> Operation {
    Operation { instruction, mode, cycles, page_cycles }
}

/// A decoded opcode from its four parts.
#[verifier::when_used_as_spec(spec_operation)]
pub fn operation(instruction: Instruction, mode: AddressMode, cycles: u8, page_cycles: u8) -> (op:
    Operation)
    ensures
        op == spec_operation(instruction, mode, cycles, page_cycles),
{
    Operation { instruction, mode, cycles, page_cycles }
}

/// What opcode byte `opcode` stands for. The 151 opcodes of the data sheets
/// are decoded; each of the other 105 is a one-byte no-operation of two
/// cycles. The table is written in eight blocks of 32 opcodes.
pub open spec fn spec_decode(opcode: u8) -> Operation {
    match opcode / 32 {
        0 => spec_decode_00(opcode),
        1 => spec_decode_20(opcode),
        2 => spec_decode_40(opcode),
        3 => spec_decode_60(opcode),
        4 => spec_decode_80(opcode),
        5 => spec_decode_a0(opcode),
        6 => spec_decode_c0(opcode),
        _ => spec_decode_e0(opcode),
    }
}

/// Decodes an opcode byte.
#[verifier::when_used_as_spec(spec_decode)]
pub fn decode(opcode: u8) -> (op: Operation)
    ensures
        op == spec_decode(opcode),
        2 <= op.cycles <= 7,
        op.page_cycles <= 1,
{
    match opcode / 32 {
        0 => decode_00(opcode),
        1 => decode_20(opcode),
        2 => decode_40(opcode),
        3 => decode_60(opcode),
        4 => decode_80(opcode),
        5 => decode_a0(opcode),
        6 => decode_c0(opcode),
        _ => decode_e0(opcode),
    }
}


/// Opcodes `0x00` to `0x1F`.
pub open spec fn spec_decode_00(opcode: u8) -> Operation {
    match opcode {
        0x00 => spec_operation(Instruction::BRK, AddressMode::Implied, 7, 0),
        0x01 => spec_operation(Instruction::ORA, AddressMode::IndexedIndirect, 6, 0),
        0x05 => spec_operation(Instruction::ORA, AddressMode::ZeroPage, 3, 0),
        0x06 => spec_operation(Instruction::ASL, AddressMode::ZeroPage, 5, 0),
        0x08 => spec_operation(Instruction::PHP, AddressMode::Implied, 3, 0),
        0x09 => spec_operation(Instruction::ORA, AddressMode::Immediate, 2, 0),
        0x0A => spec_operation(Instruction::ASL, AddressMode::Accumulator, 2, 0),
        0x0D => spec_operation(Instruction::ORA, AddressMode::Absolute, 4, 0),
        0x0E => spec_operation(Instruction::ASL, AddressMode::Absolute, 6, 0),
        0x10 => spec_operation(Instruction::BPL, AddressMode::Relative, 2, 0),
        0x11 => spec_operation(Instruction::ORA, AddressMode::IndirectIndexed, 5, 1),
        0x15 => spec_operation(Instruction::ORA, AddressMode::ZeroPageX, 4, 0),
        0x16 => spec_operation(Instruction::ASL, AddressMode::ZeroPageX, 6, 0),
        0x18 => spec_operation(Instruction::CLC, AddressMode::Implied, 2, 0),
        0x19 => spec_operation(Instruction::ORA, AddressMode::AbsoluteY, 4, 1),
        0x1D => spec_operation(Instruction::ORA, AddressMode::AbsoluteX, 4, 1),
        0x1E => spec_operation(Instruction::ASL, AddressMode::AbsoluteX, 7, 0),
        _ => spec_operation(Instruction::NOP, AddressMode::Implied, 2, 0),
    }
}

#[verifier::when_used_as_spec(spec_decode_00)]
pub fn decode_00(opcode: u8) -> (op: Operation)
    ensures
        op == spec_decode_00(opcode),
        2 <= op.cycles <= 7,
        op.page_cycles <= 1,
{
    match opcode {
        0x00 => operation(Instruction::BRK, AddressMode::Implied, 7, 0),
        0x01 => operation(Instruction::ORA, AddressMode::IndexedIndirect, 6, 0),
        0x05 => operation(Instruction::ORA, AddressMode::ZeroPage, 3, 0),
        0x06 => operation(Instruction::ASL, AddressMode::ZeroPage, 5, 0),
        0x08 => operation(Instruction::PHP, AddressMode::Implied, 3, 0),
        0x09 => operation(Instruction::ORA, AddressMode::Immediate, 2, 0),
        0x0A => operation(Instruction::ASL, AddressMode::Accumulator, 2, 0),
        0x0D => operation(Instruction::ORA, AddressMode::Absolute, 4, 0),
        0x0E => operation(Instruction::ASL, AddressMode::Absolute, 6, 0),
        0x10 => operation(Instruction::BPL, AddressMode::Relative, 2, 0),
        0x11 => operation(Instruction::ORA, AddressMode::IndirectIndexed, 5, 1),
        0x15 => operation(Instruction::ORA, AddressMode::ZeroPageX, 4, 0),
        0x16 => operation(Instruction::ASL, AddressMode::ZeroPageX, 6, 0),
        0x18 => operation(Instruction::CLC, AddressMode::Implied, 2, 0),
        0x19 => operation(Instruction::ORA, AddressMode::AbsoluteY, 4, 1),
        0x1D => operation(Instruction::ORA, AddressMode::AbsoluteX, 4, 1),
        0x1E => operation(Instruction::ASL, AddressMode::AbsoluteX, 7, 0),
        _ => operation(Instruction::NOP, AddressMode::Implied, 2, 0),
    }
}

/// Opcodes `0x20` to `0x3F`.
pub open spec fn spec_decode_20(opcode: u8) -> Operation {
    match opcode {
        0x20 => spec_operation(Instruction::JSR, AddressMode::Absolute, 6, 0),
        0x21 => spec_operation(Instruction::AND, AddressMode::IndexedIndirect, 6, 0),
        0x24 => spec_operation(Instruction::BIT, AddressMode::ZeroPage, 3, 0),
        0x25 => spec_operation(Instruction::AND, AddressMode::ZeroPage, 3, 0),
        0x26 => spec_operation(Instruction::ROL, AddressMode::ZeroPage, 5, 0),
        0x28 => spec_operation(Instruction::PLP, AddressMode::Implied, 4, 0),
        0x29 => spec_operation(Instruction::AND, AddressMode::Immediate, 2, 0),
        0x2A => spec_operation(Instruction::ROL, AddressMode::Accumulator, 2, 0),
        0x2C => spec_operation(Instruction::BIT, AddressMode::Absolute, 4, 0),
        0x2D => spec_operation(Instruction::AND, AddressMode::Absolute, 4, 0),
        0x2E => spec_operation(Instruction::ROL, AddressMode::Absolute, 6, 0),
        0x30 => spec_operation(Instruction::BMI, AddressMode::Relative, 2, 0),
        0x31 => spec_operation(Instruction::AND, AddressMode::IndirectIndexed, 5, 1),
        0x35 => spec_operation(Instruction::AND, AddressMode::ZeroPageX, 4, 0),
        0x36 => spec_operation(Instruction::ROL, AddressMode::ZeroPageX, 6, 0),
        0x38 => spec_operation(Instruction::SEC, AddressMode::Implied, 2, 0),
        0x39 => spec_operation(Instruction::AND, AddressMode::AbsoluteY, 4, 1),
        0x3D => spec_operation(Instruction::AND, AddressMode::AbsoluteX, 4, 1),
        0x3E => spec_operation(Instruction::ROL, AddressMode::AbsoluteX, 7, 0),
        _ => spec_operation(Instruction::NOP, AddressMode::Implied, 2, 0),
    }
}

#[verifier::when_used_as_spec(spec_decode_20)]
pub fn decode_20(opcode: u8) -> (op: Operation)
    ensures
        op == spec_decode_20(opcode),
        2 <= op.cycles <= 7,
        op.page_cycles <= 1,
{
    match opcode {
        0x20 => operation(Instruction::JSR, AddressMode::Absolute, 6, 0),
        0x21 => operation(Instruction::AND, AddressMode::IndexedIndirect, 6, 0),
        0x24 => operation(Instruction::BIT, AddressMode::ZeroPage, 3, 0),
        0x25 => operation(Instruction::AND, AddressMode::ZeroPage, 3, 0),
        0x26 => operation(Instruction::ROL, AddressMode::ZeroPage, 5, 0),
        0x28 => operation(Instruction::PLP, AddressMode::Implied, 4, 0),
        0x29 => operation(Instruction::AND, AddressMode::Immediate, 2, 0),
        0x2A => operation(Instruction::ROL, AddressMode::Accumulator, 2, 0),
        0x2C => operation(Instruction::BIT, AddressMode::Absolute, 4, 0),
        0x2D => operation(Instruction::AND, AddressMode::Absolute, 4, 0),
        0x2E => operation(Instruction::ROL, AddressMode::Absolute, 6, 0),
        0x30 => operation(Instruction::BMI, AddressMode::Relative, 2, 0),
        0x31 => operation(Instruction::AND, AddressMode::IndirectIndexed, 5, 1),
        0x35 => operation(Instruction::AND, AddressMode::ZeroPageX, 4, 0),
        0x36 => operation(Instruction::ROL, AddressMode::ZeroPageX, 6, 0),
        0x38 => operation(Instruction::SEC, AddressMode::Implied, 2, 0),
        0x39 => operation(Instruction::AND, AddressMode::AbsoluteY, 4, 1),
        0x3D => operation(Instruction::AND, AddressMode::AbsoluteX, 4, 1),
        0x3E => operation(Instruction::ROL, AddressMode::AbsoluteX, 7, 0),
        _ => operation(Instruction::NOP, AddressMode::Implied, 2, 0),
    }
}

/// Opcodes `0x40` to `0x5F`.
pub open spec fn spec_decode_40(opcode: u8) -> Operation {
    match opcode {
        0x40 => spec_operation(Instruction::RTI, AddressMode::Implied, 6, 0),
        0x41 => spec_operation(Instruction::EOR, AddressMode::IndexedIndirect, 6, 0),
        0x45 => spec_operation(Instruction::EOR, AddressMode::ZeroPage, 3, 0),
        0x46 => spec_operation(Instruction::LSR, AddressMode::ZeroPage, 5, 0),
        0x48 => spec_operation(Instruction::PHA, AddressMode::Implied, 3, 0),
        0x49 => spec_operation(Instruction::EOR, AddressMode::Immediate, 2, 0),
        0x4A => spec_operation(Instruction::LSR, AddressMode::Accumulator, 2, 0),
        0x4C => spec_operation(Instruction::JMP, AddressMode::Absolute, 3, 0),
        0x4D => spec_operation(Instruction::EOR, AddressMode::Absolute, 4, 0),
        0x4E => spec_operation(Instruction::LSR, AddressMode::Absolute, 6, 0),
        0x50 => spec_operation(Instruction::BVC, AddressMode::Relative, 2, 0),
        0x51 => spec_operation(Instruction::EOR, AddressMode::IndirectIndexed, 5, 1),
        0x55 => spec_operation(Instruction::EOR, AddressMode::ZeroPageX, 4, 0),
        0x56 => spec_operation(Instruction::LSR, AddressMode::ZeroPageX, 6, 0),
        0x58 => spec_operation(Instruction::CLI, AddressMode::Implied, 2, 0),
        0x59 => spec_operation(Instruction::EOR, AddressMode::AbsoluteY, 4, 1),
        0x5D => spec_operation(Instruction::EOR, AddressMode::AbsoluteX, 4, 1),
        0x5E => spec_operation(Instruction::LSR, AddressMode::AbsoluteX, 7, 0),
        _ => spec_operation(Instruction::NOP, AddressMode::Implied, 2, 0),
    }
}

#[verifier::when_used_as_spec(spec_decode_40)]
pub fn decode_40(opcode: u8) -> (op: Operation)
    ensures
        op == spec_decode_40(opcode),
        2 <= op.cycles <= 7,
        op.page_cycles <= 1,
{
    match opcode {
        0x40 => operation(Instruction::RTI, AddressMode::Implied, 6, 0),
        0x41 => operation(Instruction::EOR, AddressMode::IndexedIndirect, 6, 0),
        0x45 => operation(Instruction::EOR, AddressMode::ZeroPage, 3, 0),
        0x46 => operation(Instruction::LSR, AddressMode::ZeroPage, 5, 0),
        0x48 => operation(Instruction::PHA, AddressMode::Implied, 3, 0),
        0x49 => operation(Instruction::EOR, AddressMode::Immediate, 2, 0),
        0x4A => operation(Instruction::LSR, AddressMode::Accumulator, 2, 0),
        0x4C => operation(Instruction::JMP, AddressMode::Absolute, 3, 0),
        0x4D => operation(Instruction::EOR, AddressMode::Absolute, 4, 0),
        0x4E => operation(Instruction::LSR, AddressMode::Absolute, 6, 0),
        0x50 => operation(Instruction::BVC, AddressMode::Relative, 2, 0),
        0x51 => operation(Instruction::EOR, AddressMode::IndirectIndexed, 5, 1),
        0x55 => operation(Instruction::EOR, AddressMode::ZeroPageX, 4, 0),
        0x56 => operation(Instruction::LSR, AddressMode::ZeroPageX, 6, 0),
        0x58 => operation(Instruction::CLI, AddressMode::Implied, 2, 0),
        0x59 => operation(Instruction::EOR, AddressMode::AbsoluteY, 4, 1),
        0x5D => operation(Instruction::EOR, AddressMode::AbsoluteX, 4, 1),
        0x5E => operation(Instruction::LSR, AddressMode::AbsoluteX, 7, 0),
        _ => operation(Instruction::NOP, AddressMode::Implied, 2, 0),
    }
}

/// Opcodes `0x60` to `0x7F`.
pub open spec fn spec_decode_60(opcode: u8) -> Operation {
    match opcode {
        0x60 => spec_operation(Instruction::RTS, AddressMode::Implied, 6, 0),
        0x61 => spec_operation(Instruction::ADC, AddressMode::IndexedIndirect, 6, 0),
        0x65 => spec_operation(Instruction::ADC, AddressMode::ZeroPage, 3, 0),
        0x66 => spec_operation(Instruction::ROR, AddressMode::ZeroPage, 5, 0),
        0x68 => spec_operation(Instruction::PLA, AddressMode::Implied, 4, 0),
        0x69 => spec_operation(Instruction::ADC, AddressMode::Immediate, 2, 0),
        0x6A => spec_operation(Instruction::ROR, AddressMode::Accumulator, 2, 0),
        0x6C => spec_operation(Instruction::JMP, AddressMode::Indirect, 5, 0),
        0x6D => spec_operation(Instruction::ADC, AddressMode::Absolute, 4, 0),
        0x6E => spec_operation(Instruction::ROR, AddressMode::Absolute, 6, 0),
        0x70 => spec_operation(Instruction::BVS, AddressMode::Relative, 2, 0),
        0x71 => spec_operation(Instruction::ADC, AddressMode::IndirectIndexed, 5, 1),
        0x75 => spec_operation(Instruction::ADC, AddressMode::ZeroPageX, 4, 0),
        0x76 => spec_operation(Instruction::ROR, AddressMode::ZeroPageX, 6, 0),
        0x78 => spec_operation(Instruction::SEI, AddressMode::Implied, 2, 0),
        0x79 => spec_operation(Instruction::ADC, AddressMode::AbsoluteY, 4, 1),
        0x7D => spec_operation(Instruction::ADC, AddressMode::AbsoluteX, 4, 1),
        0x7E => spec_operation(Instruction::ROR, AddressMode::AbsoluteX, 7, 0),
        _ => spec_operation(Instruction::NOP, AddressMode::Implied, 2, 0),
    }
}

#[verifier::when_used_as_spec(spec_decode_60)]
pub fn decode_60(opcode: u8) -> (op: Operation)
    ensures
        op == spec_decode_60(opcode),
        2 <= op.cycles <= 7,
        op.page_cycles <= 1,
{
    match opcode {
        0x60 => operation(Instruction::RTS, AddressMode::Implied, 6, 0),
        0x61 => operation(Instruction::ADC, AddressMode::IndexedIndirect, 6, 0),
        0x65 => operation(Instruction::ADC, AddressMode::ZeroPage, 3, 0),
        0x66 => operation(Instruction::ROR, AddressMode::ZeroPage, 5, 0),
        0x68 => operation(Instruction::PLA, AddressMode::Implied, 4, 0),
        0x69 => operation(Instruction::ADC, AddressMode::Immediate, 2, 0),
        0x6A => operation(Instruction::ROR, AddressMode::Accumulator, 2, 0),
        0x6C => operation(Instruction::JMP, AddressMode::Indirect, 5, 0),
        0x6D => operation(Instruction::ADC, AddressMode::Absolute, 4, 0),
        0x6E => operation(Instruction::ROR, AddressMode::Absolute, 6, 0),
        0x70 => operation(Instruction::BVS, AddressMode::Relative, 2, 0),
        0x71 => operation(Instruction::ADC, AddressMode::IndirectIndexed, 5, 1),
        0x75 => operation(Instruction::ADC, AddressMode::ZeroPageX, 4, 0),
        0x76 => operation(Instruction::ROR, AddressMode::ZeroPageX, 6, 0),
        0x78 => operation(Instruction::SEI, AddressMode::Implied, 2, 0),
        0x79 => operation(Instruction::ADC, AddressMode::AbsoluteY, 4, 1),
        0x7D => operation(Instruction::ADC, AddressMode::AbsoluteX, 4, 1),
        0x7E => operation(Instruction::ROR, AddressMode::AbsoluteX, 7, 0),
        _ => operation(Instruction::NOP, AddressMode::Implied, 2, 0),
    }
}

/// Opcodes `0x80` to `0x9F`.
pub open spec fn spec_decode_80(opcode: u8) -> Operation {
    match opcode {
        0x81 => spec_operation(Instruction::STA, AddressMode::IndexedIndirect, 6, 0),
        0x84 => spec_operation(Instruction::STY, AddressMode::ZeroPage, 3, 0),
        0x85 => spec_operation(Instruction::STA, AddressMode::ZeroPage, 3, 0),
        0x86 => spec_operation(Instruction::STX, AddressMode::ZeroPage, 3, 0),
        0x88 => spec_operation(Instruction::DEY, AddressMode::Implied, 2, 0),
        0x8A => spec_operation(Instruction::TXA, AddressMode::Implied, 2, 0),
        0x8C => spec_operation(Instruction::STY, AddressMode::Absolute, 4, 0),
        0x8D => spec_operation(Instruction::STA, AddressMode::Absolute, 4, 0),
        0x8E => spec_operation(Instruction::STX, AddressMode::Absolute, 4, 0),
        0x90 => spec_operation(Instruction::BCC, AddressMode::Relative, 2, 0),
        0x91 => spec_operation(Instruction::STA, AddressMode::IndirectIndexed, 6, 0),
        0x94 => spec_operation(Instruction::STY, AddressMode::ZeroPageX, 4, 0),
        0x95 => spec_operation(Instruction::STA, AddressMode::ZeroPageX, 4, 0),
        0x96 => spec_operation(Instruction::STX, AddressMode::ZeroPageY, 4, 0),
        0x98 => spec_operation(Instruction::TYA, AddressMode::Implied, 2, 0),
        0x99 => spec_operation(Instruction::STA, AddressMode::AbsoluteY, 5, 0),
        0x9A => spec_operation(Instruction::TXS, AddressMode::Implied, 2, 0),
        0x9D => spec_operation(Instruction::STA, AddressMode::AbsoluteX, 5, 0),
        _ => spec_operation(Instruction::NOP, AddressMode::Implied, 2, 0),
    }
}

#[verifier::when_used_as_spec(spec_decode_80)]
pub fn decode_80(opcode: u8) -> (op: Operation)
    ensures
        op == spec_decode_80(opcode),
        2 <= op.cycles <= 7,
        op.page_cycles <= 1,
{
    match opcode {
        0x81 => operation(Instruction::STA, AddressMode::IndexedIndirect, 6, 0),
        0x84 => operation(Instruction::STY, AddressMode::ZeroPage, 3, 0),
        0x85 => operation(Instruction::STA, AddressMode::ZeroPage, 3, 0),
        0x86 => operation(Instruction::STX, AddressMode::ZeroPage, 3, 0),
        0x88 => operation(Instruction::DEY, AddressMode::Implied, 2, 0),
        0x8A => operation(Instruction::TXA, AddressMode::Implied, 2, 0),
        0x8C => operation(Instruction::STY, AddressMode::Absolute, 4, 0),
        0x8D => operation(Instruction::STA, AddressMode::Absolute, 4, 0),
        0x8E => operation(Instruction::STX, AddressMode::Absolute, 4, 0),
        0x90 => operation(Instruction::BCC, AddressMode::Relative, 2, 0),
        0x91 => operation(Instruction::STA, AddressMode::IndirectIndexed, 6, 0),
        0x94 => operation(Instruction::STY, AddressMode::ZeroPageX, 4, 0),
        0x95 => operation(Instruction::STA, AddressMode::ZeroPageX, 4, 0),
        0x96 => operation(Instruction::STX, AddressMode::ZeroPageY, 4, 0),
        0x98 => operation(Instruction::TYA, AddressMode::Implied, 2, 0),
        0x99 => operation(Instruction::STA, AddressMode::AbsoluteY, 5, 0),
        0x9A => operation(Instruction::TXS, AddressMode::Implied, 2, 0),
        0x9D => operation(Instruction::STA, AddressMode::AbsoluteX, 5, 0),
        _ => operation(Instruction::NOP, AddressMode::Implied, 2, 0),
    }
}

/// Opcodes `0xA0` to `0xBF`.
pub open spec fn spec_decode_a0(opcode: u8) -> Operation {
    match opcode {
        0xA0 => spec_operation(Instruction::LDY, AddressMode::Immediate, 2, 0),
        0xA1 => spec_operation(Instruction::LDA, AddressMode::IndexedIndirect, 6, 0),
        0xA2 => spec_operation(Instruction::LDX, AddressMode::Immediate, 2, 0),
        0xA4 => spec_operation(Instruction::LDY, AddressMode::ZeroPage, 3, 0),
        0xA5 => spec_operation(Instruction::LDA, AddressMode::ZeroPage, 3, 0),
        0xA6 => spec_operation(Instruction::LDX, AddressMode::ZeroPage, 3, 0),
        0xA8 => spec_operation(Instruction::TAY, AddressMode::Implied, 2, 0),
        0xA9 => spec_operation(Instruction::LDA, AddressMode::Immediate, 2, 0),
        0xAA => spec_operation(Instruction::TAX, AddressMode::Implied, 2, 0),
        0xAC => spec_operation(Instruction::LDY, AddressMode::Absolute, 4, 0),
        0xAD => spec_operation(Instruction::LDA, AddressMode::Absolute, 4, 0),
        0xAE => spec_operation(Instruction::LDX, AddressMode::Absolute, 4, 0),
        0xB0 => spec_operation(Instruction::BCS, AddressMode::Relative, 2, 0),
        0xB1 => spec_operation(Instruction::LDA, AddressMode::IndirectIndexed, 5, 1),
        0xB4 => spec_operation(Instruction::LDY, AddressMode::ZeroPageX, 4, 0),
        0xB5 => spec_operation(Instruction::LDA, AddressMode::ZeroPageX, 4, 0),
        0xB6 => spec_operation(Instruction::LDX, AddressMode::ZeroPageY, 4, 0),
        0xB8 => spec_operation(Instruction::CLV, AddressMode::Implied, 2, 0),
        0xB9 => spec_operation(Instruction::LDA, AddressMode::AbsoluteY, 4, 1),
        0xBA => spec_operation(Instruction::TSX, AddressMode::Implied, 2, 0),
        0xBC => spec_operation(Instruction::LDY, AddressMode::AbsoluteX, 4, 1),
        0xBD => spec_operation(Instruction::LDA, AddressMode::AbsoluteX, 4, 1),
        0xBE => spec_operation(Instruction::LDX, AddressMode::AbsoluteY, 4, 1),
        _ => spec_operation(Instruction::NOP, AddressMode::Implied, 2, 0),
    }
}

#[verifier::when_used_as_spec(spec_decode_a0)]
pub fn decode_a0(opcode: u8) -> (op: Operation)
    ensures
        op == spec_decode_a0(opcode),
        2 <= op.cycles <= 7,
        op.page_cycles <= 1,
{
    match opcode {
        0xA0 => operation(Instruction::LDY, AddressMode::Immediate, 2, 0),
        0xA1 => operation(Instruction::LDA, AddressMode::IndexedIndirect, 6, 0),
        0xA2 => operation(Instruction::LDX, AddressMode::Immediate, 2, 0),
        0xA4 => operation(Instruction::LDY, AddressMode::ZeroPage, 3, 0),
        0xA5 => operation(Instruction::LDA, AddressMode::ZeroPage, 3, 0),
        0xA6 => operation(Instruction::LDX, AddressMode::ZeroPage, 3, 0),
        0xA8 => operation(Instruction::TAY, AddressMode::Implied, 2, 0),
        0xA9 => operation(Instruction::LDA, AddressMode::Immediate, 2, 0),
        0xAA => operation(Instruction::TAX, AddressMode::Implied, 2, 0),
        0xAC => operation(Instruction::LDY, AddressMode::Absolute, 4, 0),
        0xAD => operation(Instruction::LDA, AddressMode::Absolute, 4, 0),
        0xAE => operation(Instruction::LDX, AddressMode::Absolute, 4, 0),
        0xB0 => operation(Instruction::BCS, AddressMode::Relative, 2, 0),
        0xB1 => operation(Instruction::LDA, AddressMode::IndirectIndexed, 5, 1),
        0xB4 => operation(Instruction::LDY, AddressMode::ZeroPageX, 4, 0),
        0xB5 => operation(Instruction::LDA, AddressMode::ZeroPageX, 4, 0),
        0xB6 => operation(Instruction::LDX, AddressMode::ZeroPageY, 4, 0),
        0xB8 => operation(Instruction::CLV, AddressMode::Implied, 2, 0),
        0xB9 => operation(Instruction::LDA, AddressMode::AbsoluteY, 4, 1),
        0xBA => operation(Instruction::TSX, AddressMode::Implied, 2, 0),
        0xBC => operation(Instruction::LDY, AddressMode::AbsoluteX, 4, 1),
        0xBD => operation(Instruction::LDA, AddressMode::AbsoluteX, 4, 1),
        0xBE => operation(Instruction::LDX, AddressMode::AbsoluteY, 4, 1),
        _ => operation(Instruction::NOP, AddressMode::Implied, 2, 0),
    }
}

/// Opcodes `0xC0` to `0xDF`.
pub open spec fn spec_decode_c0(opcode: u8) -> Operation {
    match opcode {
        0xC0 => spec_operation(Instruction::CPY, AddressMode::Immediate, 2, 0),
        0xC1 => spec_operation(Instruction::CPA, AddressMode::IndexedIndirect, 6, 0),
        0xC4 => spec_operation(Instruction::CPY, AddressMode::ZeroPage, 3, 0),
        0xC5 => spec_operation(Instruction::CPA, AddressMode::ZeroPage, 3, 0),
        0xC6 => spec_operation(Instruction::DEC, AddressMode::ZeroPage, 5, 0),
        0xC8 => spec_operation(Instruction::INY, AddressMode::Implied, 2, 0),
        0xC9 => spec_operation(Instruction::CPA, AddressMode::Immediate, 2, 0),
        0xCA => spec_operation(Instruction::DEX, AddressMode::Implied, 2, 0),
        0xCC => spec_operation(Instruction::CPY, AddressMode::Absolute, 4, 0),
        0xCD => spec_operation(Instruction::CPA, AddressMode::Absolute, 4, 0),
        0xCE => spec_operation(Instruction::DEC, AddressMode::Absolute, 6, 0),
        0xD0 => spec_operation(Instruction::BNE, AddressMode::Relative, 2, 0),
        0xD1 => spec_operation(Instruction::CPA, AddressMode::IndirectIndexed, 5, 1),
        0xD5 => spec_operation(Instruction::CPA, AddressMode::ZeroPageX, 4, 0),
        0xD6 => spec_operation(Instruction::DEC, AddressMode::ZeroPageX, 6, 0),
        0xD8 => spec_operation(Instruction::CLD, AddressMode::Implied, 2, 0),
        0xD9 => spec_operation(Instruction::CPA, AddressMode::AbsoluteY, 4, 1),
        0xDD => spec_operation(Instruction::CPA, AddressMode::AbsoluteX, 4, 1),
        0xDE => spec_operation(Instruction::DEC, AddressMode::AbsoluteX, 7, 0),
        _ => spec_operation(Instruction::NOP, AddressMode::Implied, 2, 0),
    }
}

#[verifier::when_used_as_spec(spec_decode_c0)]
pub fn decode_c0(opcode: u8) -> (op: Operation)
    ensures
        op == spec_decode_c0(opcode),
        2 <= op.cycles <= 7,
        op.page_cycles <= 1,
{
    match opcode {
        0xC0 => operation(Instruction::CPY, AddressMode::Immediate, 2, 0),
        0xC1 => operation(Instruction::CPA, AddressMode::IndexedIndirect, 6, 0),
        0xC4 => operation(Instruction::CPY, AddressMode::ZeroPage, 3, 0),
        0xC5 => operation(Instruction::CPA, AddressMode::ZeroPage, 3, 0),
        0xC6 => operation(Instruction::DEC, AddressMode::ZeroPage, 5, 0),
        0xC8 => operation(Instruction::INY, AddressMode::Implied, 2, 0),
        0xC9 => operation(Instruction::CPA, AddressMode::Immediate, 2, 0),
        0xCA => operation(Instruction::DEX, AddressMode::Implied, 2, 0),
        0xCC => operation(Instruction::CPY, AddressMode::Absolute, 4, 0),
        0xCD => operation(Instruction::CPA, AddressMode::Absolute, 4, 0),
        0xCE => operation(Instruction::DEC, AddressMode::Absolute, 6, 0),
        0xD0 => operation(Instruction::BNE, AddressMode::Relative, 2, 0),
        0xD1 => operation(Instruction::CPA, AddressMode::IndirectIndexed, 5, 1),
        0xD5 => operation(Instruction::CPA, AddressMode::ZeroPageX, 4, 0),
        0xD6 => operation(Instruction::DEC, AddressMode::ZeroPageX, 6, 0),
        0xD8 => operation(Instruction::CLD, AddressMode::Implied, 2, 0),
        0xD9 => operation(Instruction::CPA, AddressMode::AbsoluteY, 4, 1),
        0xDD => operation(Instruction::CPA, AddressMode::AbsoluteX, 4, 1),
        0xDE => operation(Instruction::DEC, AddressMode::AbsoluteX, 7, 0),
        _ => operation(Instruction::NOP, AddressMode::Implied, 2, 0),
    }
}

/// Opcodes `0xE0` to `0xFF`.
pub open spec fn spec_decode_e0(opcode: u8) -> Operation {
    match opcode {
        0xE0 => spec_operation(Instruction::CPX, AddressMode::Immediate, 2, 0),
        0xE1 => spec_operation(Instruction::SBC, AddressMode::IndexedIndirect, 6, 0),
        0xE4 => spec_operation(Instruction::CPX, AddressMode::ZeroPage, 3, 0),
        0xE5 => spec_operation(Instruction::SBC, AddressMode::ZeroPage, 3, 0),
        0xE6 => spec_operation(Instruction::INC, AddressMode::ZeroPage, 5, 0),
        0xE8 => spec_operation(Instruction::INX, AddressMode::Implied, 2, 0),
        0xE9 => spec_operation(Instruction::SBC, AddressMode::Immediate, 2, 0),
        0xEA => spec_operation(Instruction::NOP, AddressMode::Implied, 2, 0),
        0xEC => spec_operation(Instruction::CPX, AddressMode::Absolute, 4, 0),
        0xED => spec_operation(Instruction::SBC, AddressMode::Absolute, 4, 0),
        0xEE => spec_operation(Instruction::INC, AddressMode::Absolute, 6, 0),
        0xF0 => spec_operation(Instruction::BEQ, AddressMode::Relative, 2, 0),
        0xF1 => spec_operation(Instruction::SBC, AddressMode::IndirectIndexed, 5, 1),
        0xF5 => spec_operation(Instruction::SBC, AddressMode::ZeroPageX, 4, 0),
        0xF6 => spec_operation(Instruction::INC, AddressMode::ZeroPageX, 6, 0),
        0xF8 => spec_operation(Instruction::SED, AddressMode::Implied, 2, 0),
        0xF9 => spec_operation(Instruction::SBC, AddressMode::AbsoluteY, 4, 1),
        0xFD => spec_operation(Instruction::SBC, AddressMode::AbsoluteX, 4, 1),
        0xFE => spec_operation(Instruction::INC, AddressMode::AbsoluteX, 7, 0),
        _ => spec_operation(Instruction::NOP, AddressMode::Implied, 2, 0),
    }
}

#[verifier::when_used_as_spec(spec_decode_e0)]
pub fn decode_e0(opcode: u8) -> (op: Operation)
    ensures
        op == spec_decode_e0(opcode),
        2 <= op.cycles <= 7,
        op.page_cycles <= 1,
{
    match opcode {
        0xE0 => operation(Instruction::CPX, AddressMode::Immediate, 2, 0),
        0xE1 => operation(Instruction::SBC, AddressMode::IndexedIndirect, 6, 0),
        0xE4 => operation(Instruction::CPX, AddressMode::ZeroPage, 3, 0),
        0xE5 => operation(Instruction::SBC, AddressMode::ZeroPage, 3, 0),
        0xE6 => operation(Instruction::INC, AddressMode::ZeroPage, 5, 0),
        0xE8 => operation(Instruction::INX, AddressMode::Implied, 2, 0),
        0xE9 => operation(Instruction::SBC, AddressMode::Immediate, 2, 0),
        0xEA => operation(Instruction::NOP, AddressMode::Implied, 2, 0),
        0xEC => operation(Instruction::CPX, AddressMode::Absolute, 4, 0),
        0xED => operation(Instruction::SBC, AddressMode::Absolute, 4, 0),
        0xEE => operation(Instruction::INC, AddressMode::Absolute, 6, 0),
        0xF0 => operation(Instruction::BEQ, AddressMode::Relative, 2, 0),
        0xF1 => operation(Instruction::SBC, AddressMode::IndirectIndexed, 5, 1),
        0xF5 => operation(Instruction::SBC, AddressMode::ZeroPageX, 4, 0),
        0xF6 => operation(Instruction::INC, AddressMode::ZeroPageX, 6, 0),
        0xF8 => operation(Instruction::SED, AddressMode::Implied, 2, 0),
        0xF9 => operation(Instruction::SBC, AddressMode::AbsoluteY, 4, 1),
        0xFD => operation(Instruction::SBC, AddressMode::AbsoluteX, 4, 1),
        0xFE => operation(Instruction::INC, AddressMode::AbsoluteX, 7, 0),
        _ => operation(Instruction::NOP, AddressMode::Implied, 2, 0),
    }
}

} // verus!
