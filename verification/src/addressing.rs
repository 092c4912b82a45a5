//! Addressing modes: how the bytes after an opcode become the address that
//! the instruction works on.

use vstd::prelude::*;
use crate::cpu::{
    byte, byte_add, pages_differ, signed, spec_pages_differ, to_signed, word, word_add,
    AddressMode, CPU,
};
use crate::memory::Memory;

verus! {

/// What an addressing mode resolves to.
#[derive(Clone, Copy, Debug, PartialEq, Eq, Structural)]
pub struct Operand {
    /// The address that the instruction works on; zero where the mode has
    /// none.
    pub address: u16,
    /// Whether indexing moved the address into another page.
    pub page_crossed: bool,
}

/// The target of a branch at `pc` with offset byte `offset`: the address
/// after the two bytes of the branch, moved by the offset as a signed
/// number.
pub open spec fn spec_branch_target(pc: u16, offset: u8) -> u16 {
    word(pc + 2 + signed(offset))
}

/// Computes the target of a branch.
#[verifier::when_used_as_spec(spec_branch_target)]
pub fn branch_target(pc: u16, offset: u8) -> (target: u16)
    ensures
        target == spec_branch_target(pc, offset),
{
    let moved: i32 = pc as i32 + 2 + to_signed(offset) as i32;
    ((moved + 0x10000) % 0x10000) as u16
}

impl<B: Memory> CPU<B> {
    /// The operand that `mode` resolves to when the opcode lies at the
    /// program counter.
    pub open spec fn operand_value(self, mode: AddressMode) -> Operand {
        let next = word(self.pc + 1);
        match mode {
            AddressMode::Absolute => Operand {
                address: self.read16_value(next),
                page_crossed: false,
            },
            AddressMode::AbsoluteX => {
                let base = self.read16_value(next);
                Operand {
                    address: word(base + self.x),
                    page_crossed: spec_pages_differ(base, word(base + self.x)),
                }
            },
            AddressMode::AbsoluteY => {
                let base = self.read16_value(next);
                Operand {
                    address: word(base + self.y),
                    page_crossed: spec_pages_differ(base, word(base + self.y)),
                }
            },
            AddressMode::Accumulator => Operand { address: 0, page_crossed: false },
            AddressMode::Immediate => Operand { address: next, page_crossed: false },
            AddressMode::Implied => Operand { address: 0, page_crossed: false },
            AddressMode::IndexedIndirect => {
                let pointer = byte(self.read_value(next) + self.x) as u16;
                Operand {
                    address: self.after_read(next).read16_in_page_value(pointer),
                    page_crossed: false,
                }
            },
            AddressMode::Indirect => {
                let pointer = self.read16_value(next);
                Operand {
                    address: self.after_read16(next).read16_in_page_value(pointer),
                    page_crossed: false,
                }
            },
            AddressMode::IndirectIndexed => {
                let pointer = self.read_value(next) as u16;
                let base = self.after_read(next).read16_in_page_value(pointer);
                Operand {
                    address: word(base + self.y),
                    page_crossed: spec_pages_differ(base, word(base + self.y)),
                }
            },
            AddressMode::Relative => Operand {
                address: spec_branch_target(self.pc, self.read_value(next)),
                page_crossed: false,
            },
            AddressMode::ZeroPage => Operand {
                address: self.read_value(next) as u16,
                page_crossed: false,
            },
            AddressMode::ZeroPageX => Operand {
                address: byte(self.read_value(next) + self.x) as u16,
                page_crossed: false,
            },
            AddressMode::ZeroPageY => Operand {
                address: byte(self.read_value(next) + self.y) as u16,
                page_crossed: false,
            },
        }
    }

    /// The state after the reads that resolving `mode` makes.
    pub open spec fn after_operand(self, mode: AddressMode) -> Self {
        let next = word(self.pc + 1);
        match mode {
            AddressMode::Absolute | AddressMode::AbsoluteX | AddressMode::AbsoluteY => {
                self.after_read16(next)
            },
            AddressMode::Accumulator | AddressMode::Immediate | AddressMode::Implied => self,
            AddressMode::IndexedIndirect => {
                let pointer = byte(self.read_value(next) + self.x) as u16;
                self.after_read(next).after_read16_in_page(pointer)
            },
            AddressMode::Indirect => {
                let pointer = self.read16_value(next);
                self.after_read16(next).after_read16_in_page(pointer)
            },
            AddressMode::IndirectIndexed => {
                let pointer = self.read_value(next) as u16;
                self.after_read(next).after_read16_in_page(pointer)
            },
            AddressMode::Relative
            | AddressMode::ZeroPage
            | AddressMode::ZeroPageX
            | AddressMode::ZeroPageY => self.after_read(next),
        }
    }

    /// Resolves `mode` for the instruction at the program counter.
    #[verifier::rlimit(50)]
    pub fn resolve(&mut self, mode: AddressMode) -> (operand: Operand)
        ensures
            old(self).memory.inv() ==> final(self).memory.inv(),
            operand == old(self).operand_value(mode),
            *final(self) == old(self).after_operand(mode),
    {
        let next: u16 = word_add(self.pc, 1);
        match mode {
            AddressMode::Absolute => {
                let address: u16 = self.read16(next);
                Operand { address, page_crossed: false }
            },
            AddressMode::AbsoluteX => {
                let base: u16 = self.read16(next);
                let address: u16 = word_add(base, self.x as u16);
                Operand { address, page_crossed: pages_differ(base, address) }
            },
            AddressMode::AbsoluteY => {
                let base: u16 = self.read16(next);
                let address: u16 = word_add(base, self.y as u16);
                Operand { address, page_crossed: pages_differ(base, address) }
            },
            AddressMode::Accumulator => Operand { address: 0, page_crossed: false },
            AddressMode::Immediate => Operand { address: next, page_crossed: false },
            AddressMode::Implied => Operand { address: 0, page_crossed: false },
            AddressMode::IndexedIndirect => {
                let low: u8 = self.read(next);
                let pointer: u16 = byte_add(low, self.x) as u16;
                let address: u16 = self.read16_in_page(pointer);
                Operand { address, page_crossed: false }
            },
            AddressMode::Indirect => {
                let pointer: u16 = self.read16(next);
                let address: u16 = self.read16_in_page(pointer);
                Operand { address, page_crossed: false }
            },
            AddressMode::IndirectIndexed => {
                let pointer: u16 = self.read(next) as u16;
                let base: u16 = self.read16_in_page(pointer);
                let address: u16 = word_add(base, self.y as u16);
                Operand { address, page_crossed: pages_differ(base, address) }
            },
            AddressMode::Relative => {
                let offset: u8 = self.read(next);
                Operand { address: branch_target(self.pc, offset), page_crossed: false }
            },
            AddressMode::ZeroPage => {
                let address: u16 = self.read(next) as u16;
                Operand { address, page_crossed: false }
            },
            AddressMode::ZeroPageX => {
                let low: u8 = self.read(next);
                Operand { address: byte_add(low, self.x) as u16, page_crossed: false }
            },
            AddressMode::ZeroPageY => {
                let low: u8 = self.read(next);
                Operand { address: byte_add(low, self.y) as u16, page_crossed: false }
            },
        }
    }
}

} // verus!
