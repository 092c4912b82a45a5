//! What each instruction does, and the step that fetches, decodes and
//! executes one.
//!
//! Arithmetic is stated over the integers: a sum is taken in full and then
//! reduced to eight bits, the carry says whether it fitted, and the overflow
//! flag says whether the same sum of the operands read as signed numbers
//! left the signed range.

use vstd::prelude::*;
use crate::addressing::Operand;
use crate::bits::lemma_same_sign;
use crate::cpu::{
    byte, byte_add, byte_sub, cycles_after, pack_status, pages_differ, signed, spec_pages_differ,
    spec_vector, to_signed, vector, word, word_add, word_sub, AddressMode, CPU, IRQ,
};
use crate::memory::Memory;
use crate::opcodes::{decode, size, spec_decode, spec_size, Instruction};

verus! {

/// What a shift or rotate makes of `value`: the new byte and the bit that
/// fell out, which becomes the carry. `carry` is the bit that a rotate
/// moves in.
pub open spec fn spec_shifted(instruction: Instruction, value: u8, carry: bool) -> (u8, bool) {
    match instruction {
        Instruction::ASL => (byte(value * 2), value >= 0x80),
        Instruction::LSR => (value / 2, value % 2 == 1),
        Instruction::ROL => (byte(value * 2 + (if carry { 1int } else { 0 })), value >= 0x80),
        Instruction::ROR => ((value / 2 + (if carry { 128int } else { 0 })) as u8, value % 2 == 1),
        _ => (value, carry),
    }
}

/// Shifts or rotates one byte.
#[verifier::when_used_as_spec(spec_shifted)]
pub fn shifted(instruction: Instruction, value: u8, carry: bool) -> (result: (u8, bool))
    ensures
        result == spec_shifted(instruction, value, carry),
{
    let bit: u16 = if carry {
        1
    } else {
        0
    };
    match instruction {
        Instruction::ASL => (((value as u16 * 2) % 256) as u8, value >= 0x80),
        Instruction::LSR => (value / 2, value % 2 == 1),
        Instruction::ROL => (((value as u16 * 2 + bit) % 256) as u8, value >= 0x80),
        Instruction::ROR => (value / 2 + (if carry {
            128
        } else {
            0
        }), value % 2 == 1),
        _ => (value, carry),
    }
}

/// What an addition or subtraction yields.
#[derive(Clone, Copy, Debug, PartialEq, Eq, Structural)]
pub struct Arithmetic {
    /// The low eight bits.
    pub result: u8,
    /// For a sum, whether it passed 255; for a difference, whether it did
    /// not pass below zero.
    pub carry: bool,
    /// Whether the same operation on the operands read as signed numbers
    /// left the range from -128 to 127.
    pub overflow: bool,
}

/// `a + value`, one more with `carry`.
pub open spec fn spec_sum(a: u8, value: u8, carry: bool) -> Arithmetic {
    let c = if carry {
        1int
    } else {
        0
    };
    let signed_sum = signed(a) + signed(value) + c;
    Arithmetic {
        result: byte(a + value + c),
        carry: a + value + c > 0xFF,
        overflow: signed_sum < -128 || signed_sum > 127,
    }
}

/// Adds two bytes and a carry.
#[verifier::when_used_as_spec(spec_sum)]
pub fn sum(a: u8, value: u8, carry: bool) -> (outcome: Arithmetic)
    ensures
        outcome == spec_sum(a, value, carry),
{
    let c: i16 = if carry {
        1
    } else {
        0
    };
    let full: i16 = a as i16 + value as i16 + c;
    let signed_sum: i16 = to_signed(a) + to_signed(value) + c;
    let result: u8 = if full > 0xFF {
        (full - 0x100) as u8
    } else {
        full as u8
    };
    Arithmetic { result, carry: full > 0xFF, overflow: signed_sum < -128 || signed_sum > 127 }
}

/// `a - value`, one less without `carry`.
pub open spec fn spec_difference(a: u8, value: u8, carry: bool) -> Arithmetic {
    let borrow = if carry {
        0int
    } else {
        1
    };
    let signed_difference = signed(a) - signed(value) - borrow;
    Arithmetic {
        result: byte(a - value - borrow),
        carry: a - value - borrow >= 0,
        overflow: signed_difference < -128 || signed_difference > 127,
    }
}

/// Subtracts a byte and a borrow.
#[verifier::when_used_as_spec(spec_difference)]
pub fn difference(a: u8, value: u8, carry: bool) -> (outcome: Arithmetic)
    ensures
        outcome == spec_difference(a, value, carry),
{
    let borrow: i16 = if carry {
        0
    } else {
        1
    };
    let full: i16 = a as i16 - value as i16 - borrow;
    let signed_difference: i16 = to_signed(a) - to_signed(value) - borrow;
    let result: u8 = if full < 0 {
        (full + 0x100) as u8
    } else {
        full as u8
    };
    Arithmetic {
        result,
        carry: full >= 0,
        overflow: signed_difference < -128 || signed_difference > 127,
    }
}

/// How far the cycle counter moved from `before` to `after`.
pub fn cycles_between(before: u64, after: u64) -> (n: u64)
    ensures
        n == cycles_after(after, -before),
{
    after.wrapping_sub(before)
}

impl<B: Memory> CPU<B> {
    // ---------------------------------------------------------------
    // arithmetic and logic on a value already read

    /// Add with carry.
    pub open spec fn after_adc(self, value: u8) -> Self {
        let sum = spec_sum(self.a, value, self.c);
        CPU { a: sum.result, c: sum.carry, v: sum.overflow, ..self }.after_set_zn(sum.result)
    }

    /// Adds `value` and carry to the accumulator.
    pub fn adc(&mut self, value: u8)
        ensures
            old(self).memory.inv() ==> final(self).memory.inv(),
            *final(self) == old(self).after_adc(value),
    {
        let sum = sum(self.a, value, self.c);
        self.a = sum.result;
        self.c = sum.carry;
        self.v = sum.overflow;
        self.set_zn(sum.result);
    }

    /// Subtract with borrow: the borrow is the carry flag inverted.
    pub open spec fn after_sbc(self, value: u8) -> Self {
        let difference = spec_difference(self.a, value, self.c);
        CPU {
            a: difference.result,
            c: difference.carry,
            v: difference.overflow,
            ..self
        }.after_set_zn(difference.result)
    }

    /// Subtracts `value` and borrow from the accumulator.
    pub fn sbc(&mut self, value: u8)
        ensures
            old(self).memory.inv() ==> final(self).memory.inv(),
            *final(self) == old(self).after_sbc(value),
    {
        let difference = difference(self.a, value, self.c);
        self.a = difference.result;
        self.c = difference.carry;
        self.v = difference.overflow;
        self.set_zn(difference.result);
    }

    /// Compare `register` with `value`: the flags of `register - value`,
    /// and carry where no borrow was needed.
    pub open spec fn after_compare(self, register: u8, value: u8) -> Self {
        CPU { c: register >= value, ..self }.after_set_zn(byte(register - value))
    }

    /// Compares a register with `value`.
    pub fn compare(&mut self, register: u8, value: u8)
        ensures
            old(self).memory.inv() ==> final(self).memory.inv(),
            *final(self) == old(self).after_compare(register, value),
    {
        self.c = register >= value;
        self.set_zn(byte_sub(register, value));
    }

    /// Bit test: bits 7 and 6 of the value go to negative and overflow, and
    /// zero says whether the value and the accumulator share no bit.
    pub open spec fn after_bit(self, value: u8) -> Self {
        CPU { v: (value / 64) % 2 == 1, n: value >= 0x80, z: value & self.a == 0, ..self }
    }

    /// Tests the bits of `value` against the accumulator.
    pub fn bit(&mut self, value: u8)
        ensures
            old(self).memory.inv() ==> final(self).memory.inv(),
            *final(self) == old(self).after_bit(value),
    {
        self.v = (value / 64) % 2 == 1;
        self.n = value >= 0x80;
        self.z = value & self.a == 0;
    }

    /// An instruction that reads its operand and works on a register.
    pub open spec fn after_operate(self, instruction: Instruction, value: u8) -> Self {
        match instruction {
            Instruction::ADC => self.after_adc(value),
            Instruction::SBC => self.after_sbc(value),
            Instruction::AND => CPU { a: self.a & value, ..self }.after_set_zn(self.a & value),
            Instruction::ORA => CPU { a: self.a | value, ..self }.after_set_zn(self.a | value),
            Instruction::EOR => CPU { a: self.a ^ value, ..self }.after_set_zn(self.a ^ value),
            Instruction::BIT => self.after_bit(value),
            Instruction::CPA => self.after_compare(self.a, value),
            Instruction::CPX => self.after_compare(self.x, value),
            Instruction::CPY => self.after_compare(self.y, value),
            Instruction::LDA => CPU { a: value, ..self }.after_set_zn(value),
            Instruction::LDX => CPU { x: value, ..self }.after_set_zn(value),
            Instruction::LDY => CPU { y: value, ..self }.after_set_zn(value),
            _ => self,
        }
    }

    /// Runs an instruction that works on a value already read.
    pub fn operate(&mut self, instruction: Instruction, value: u8)
        ensures
            old(self).memory.inv() ==> final(self).memory.inv(),
            *final(self) == old(self).after_operate(instruction, value),
    {
        match instruction {
            Instruction::ADC => self.adc(value),
            Instruction::SBC => self.sbc(value),
            Instruction::AND => {
                self.a = self.a & value;
                self.set_zn(self.a);
            },
            Instruction::ORA => {
                self.a = self.a | value;
                self.set_zn(self.a);
            },
            Instruction::EOR => {
                self.a = self.a ^ value;
                self.set_zn(self.a);
            },
            Instruction::BIT => self.bit(value),
            Instruction::CPA => self.compare(self.a, value),
            Instruction::CPX => self.compare(self.x, value),
            Instruction::CPY => self.compare(self.y, value),
            Instruction::LDA => {
                self.a = value;
                self.set_zn(value);
            },
            Instruction::LDX => {
                self.x = value;
                self.set_zn(value);
            },
            Instruction::LDY => {
                self.y = value;
                self.set_zn(value);
            },
            _ => {},
        }
    }

    // ---------------------------------------------------------------
    // read, modify, write

    /// What a read-modify-write instruction makes of `value`, and the carry
    /// it leaves. Increment and decrement leave the carry as it is.
    pub open spec fn modified(self, instruction: Instruction, value: u8) -> (u8, bool) {
        match instruction {
            Instruction::INC => (byte(value + 1), self.c),
            Instruction::DEC => (byte(value - 1), self.c),
            _ => spec_shifted(instruction, value, self.c),
        }
    }

    /// A shift, rotate, increment or decrement: on the accumulator, or on
    /// the byte at `address`, which is read and written back changed.
    pub open spec fn after_modify(
        self,
        instruction: Instruction,
        address: u16,
        mode: AddressMode,
    ) -> Self {
        if mode == AddressMode::Accumulator {
            let (result, carry) = self.modified(instruction, self.a);
            CPU { a: result, c: carry, ..self }.after_set_zn(result)
        } else {
            let (result, carry) = self.modified(instruction, self.read_value(address));
            CPU { c: carry, ..self.after_read(address).after_write(address, result) }.after_set_zn(
                result,
            )
        }
    }

    /// Runs a shift, rotate, increment or decrement.
    #[verifier::rlimit(50)]
    pub fn modify(&mut self, instruction: Instruction, address: u16, mode: AddressMode)
        ensures
            old(self).memory.inv() ==> final(self).memory.inv(),
            *final(self) == old(self).after_modify(instruction, address, mode),
    {
        let carry_in: bool = self.c;
        if mode == AddressMode::Accumulator {
            let (result, carry) = match instruction {
                Instruction::INC => (byte_add(self.a, 1), carry_in),
                Instruction::DEC => (byte_sub(self.a, 1), carry_in),
                _ => shifted(instruction, self.a, carry_in),
            };
            self.a = result;
            self.c = carry;
            self.set_zn(result);
        } else {
            let value: u8 = self.read(address);
            let (result, carry) = match instruction {
                Instruction::INC => (byte_add(value, 1), carry_in),
                Instruction::DEC => (byte_sub(value, 1), carry_in),
                _ => shifted(instruction, value, carry_in),
            };
            self.write(address, result);
            self.c = carry;
            self.set_zn(result);
        }
    }

    // ---------------------------------------------------------------
    // registers and flags alone

    /// An instruction that touches neither memory nor the program counter.
    pub open spec fn after_implied(self, instruction: Instruction) -> Self {
        match instruction {
            Instruction::CLC => CPU { c: false, ..self },
            Instruction::CLD => CPU { d: false, ..self },
            Instruction::CLI => CPU { i: false, ..self },
            Instruction::CLV => CPU { v: false, ..self },
            Instruction::SEC => CPU { c: true, ..self },
            Instruction::SED => CPU { d: true, ..self },
            Instruction::SEI => CPU { i: true, ..self },
            Instruction::DEX => CPU { x: byte(self.x - 1), ..self }.after_set_zn(byte(self.x - 1)),
            Instruction::DEY => CPU { y: byte(self.y - 1), ..self }.after_set_zn(byte(self.y - 1)),
            Instruction::INX => CPU { x: byte(self.x + 1), ..self }.after_set_zn(byte(self.x + 1)),
            Instruction::INY => CPU { y: byte(self.y + 1), ..self }.after_set_zn(byte(self.y + 1)),
            Instruction::TAX => CPU { x: self.a, ..self }.after_set_zn(self.a),
            Instruction::TAY => CPU { y: self.a, ..self }.after_set_zn(self.a),
            Instruction::TSX => CPU { x: self.sp, ..self }.after_set_zn(self.sp),
            Instruction::TXA => CPU { a: self.x, ..self }.after_set_zn(self.x),
            Instruction::TYA => CPU { a: self.y, ..self }.after_set_zn(self.y),
            Instruction::TXS => CPU { sp: self.x, ..self },
            _ => self,
        }
    }

    /// Runs an instruction that works on registers and flags alone.
    pub fn implied(&mut self, instruction: Instruction)
        ensures
            old(self).memory.inv() ==> final(self).memory.inv(),
            *final(self) == old(self).after_implied(instruction),
    {
        match instruction {
            Instruction::CLC => {
                self.c = false;
            },
            Instruction::CLD => {
                self.d = false;
            },
            Instruction::CLI => {
                self.i = false;
            },
            Instruction::CLV => {
                self.v = false;
            },
            Instruction::SEC => {
                self.c = true;
            },
            Instruction::SED => {
                self.d = true;
            },
            Instruction::SEI => {
                self.i = true;
            },
            Instruction::DEX => {
                self.x = byte_sub(self.x, 1);
                self.set_zn(self.x);
            },
            Instruction::DEY => {
                self.y = byte_sub(self.y, 1);
                self.set_zn(self.y);
            },
            Instruction::INX => {
                self.x = byte_add(self.x, 1);
                self.set_zn(self.x);
            },
            Instruction::INY => {
                self.y = byte_add(self.y, 1);
                self.set_zn(self.y);
            },
            Instruction::TAX => {
                self.x = self.a;
                self.set_zn(self.x);
            },
            Instruction::TAY => {
                self.y = self.a;
                self.set_zn(self.y);
            },
            Instruction::TSX => {
                self.x = self.sp;
                self.set_zn(self.x);
            },
            Instruction::TXA => {
                self.a = self.x;
                self.set_zn(self.a);
            },
            Instruction::TYA => {
                self.a = self.y;
                self.set_zn(self.a);
            },
            Instruction::TXS => {
                self.sp = self.x;
            },
            _ => {},
        }
    }

    // ---------------------------------------------------------------
    // branches

    /// Whether a branch instruction branches as the flags stand.
    pub open spec fn branches(self, instruction: Instruction) -> bool {
        match instruction {
            Instruction::BCC => !self.c,
            Instruction::BCS => self.c,
            Instruction::BEQ => self.z,
            Instruction::BNE => !self.z,
            Instruction::BMI => self.n,
            Instruction::BPL => !self.n,
            Instruction::BVC => !self.v,
            Instruction::BVS => self.v,
            _ => false,
        }
    }

    /// Cycles that a branch instruction adds when it is taken: one, and
    /// another when the target lies in another page than the instruction
    /// that follows.
    pub open spec fn branch_cycles(self, instruction: Instruction, address: u16) -> int {
        if self.branches(instruction) {
            if spec_pages_differ(self.pc, address) {
                2
            } else {
                1
            }
        } else {
            0
        }
    }

    /// A branch taken costs one cycle more, and another when the target
    /// lies in another page than the instruction that follows.
    pub open spec fn after_branch(self, instruction: Instruction, address: u16) -> Self {
        if self.branches(instruction) {
            CPU { pc: address, ..self }.after_cycles(
                if spec_pages_differ(self.pc, address) {
                    2
                } else {
                    1
                },
            )
        } else {
            self
        }
    }

    /// Runs a branch whose target is `address`.
    pub fn branch(&mut self, instruction: Instruction, address: u16)
        ensures
            old(self).memory.inv() ==> final(self).memory.inv(),
            *final(self) == old(self).after_branch(instruction, address),
    {
        let taken: bool = match instruction {
            Instruction::BCC => !self.c,
            Instruction::BCS => self.c,
            Instruction::BEQ => self.z,
            Instruction::BNE => !self.z,
            Instruction::BMI => self.n,
            Instruction::BPL => !self.n,
            Instruction::BVC => !self.v,
            Instruction::BVS => self.v,
            _ => false,
        };
        if taken {
            let extra: u8 = if pages_differ(self.pc, address) {
                2
            } else {
                1
            };
            self.pc = address;
            self.add_cycles(extra);
        }
    }

    // ---------------------------------------------------------------
    // jumps and the stack

    /// Return from an interrupt: the status byte is pulled, then the
    /// program counter.
    pub open spec fn after_rti(self) -> Self {
        let flagged = self.after_pull().after_set_status(self.pull_value());
        CPU { pc: flagged.pull16_value(), ..flagged.after_pull16() }
    }

    /// Returns from an interrupt.
    pub fn rti(&mut self)
        ensures
            old(self).memory.inv() ==> final(self).memory.inv(),
            *final(self) == old(self).after_rti(),
    {
        let p: u8 = self.pull();
        self.set_status(p);
        self.pc = self.pull16();
    }

    /// Software interrupt: the address after the padding byte and the
    /// status with the break bit set are pushed, interrupts are disabled,
    /// and the program counter is loaded from the request vector.
    pub open spec fn after_brk(self) -> Self {
        let pushed = self.after_push16(word(self.pc + 1)).after_push(self.pushed_status(true));
        CPU {
            pc: pushed.read16_value(spec_vector(IRQ::Normal)),
            i: true,
            ..pushed.after_read16(spec_vector(IRQ::Normal))
        }
    }

    /// Runs a software interrupt.
    pub fn brk(&mut self)
        ensures
            old(self).memory.inv() ==> final(self).memory.inv(),
            *final(self) == old(self).after_brk(),
    {
        self.push16(word_add(self.pc, 1));
        let p: u8 = pack_status(self.c, self.z, self.i, self.d, true, self.v, self.n);
        self.push(p);
        self.pc = self.read16(vector(IRQ::Normal));
        self.i = true;
    }

    /// Call: the address of the call's own last byte is pushed.
    pub open spec fn after_jsr(self, address: u16) -> Self {
        CPU { pc: address, ..self.after_push16(word(self.pc - 1)) }
    }

    /// Calls the subroutine at `address`.
    pub fn jsr(&mut self, address: u16)
        ensures
            old(self).memory.inv() ==> final(self).memory.inv(),
            *final(self) == old(self).after_jsr(address),
    {
        self.push16(word_sub(self.pc, 1));
        self.pc = address;
    }

    /// Return: one is added to the address pulled.
    pub open spec fn after_rts(self) -> Self {
        CPU { pc: word(self.pull16_value() + 1), ..self.after_pull16() }
    }

    /// Returns from a subroutine.
    pub fn rts(&mut self)
        ensures
            old(self).memory.inv() ==> final(self).memory.inv(),
            *final(self) == old(self).after_rts(),
    {
        let target: u16 = self.pull16();
        self.pc = word_add(target, 1);
    }

    /// Push of the status byte, with the break bit set.
    pub open spec fn after_php(self) -> Self {
        self.after_push(self.pushed_status(true))
    }

    /// Pushes the status byte.
    pub fn php(&mut self)
        ensures
            old(self).memory.inv() ==> final(self).memory.inv(),
            *final(self) == old(self).after_php(),
    {
        let p: u8 = pack_status(self.c, self.z, self.i, self.d, true, self.v, self.n);
        self.push(p);
    }

    /// Pull of the accumulator.
    pub open spec fn after_pla(self) -> Self {
        CPU { a: self.pull_value(), ..self.after_pull() }.after_set_zn(self.pull_value())
    }

    /// Pulls the accumulator.
    pub fn pla(&mut self)
        ensures
            old(self).memory.inv() ==> final(self).memory.inv(),
            *final(self) == old(self).after_pla(),
    {
        let value: u8 = self.pull();
        self.a = value;
        self.set_zn(value);
    }

    /// Pull of the status byte; the break flag is left clear.
    pub open spec fn after_plp(self) -> Self {
        self.after_pull().after_set_status(self.pull_value())
    }

    /// Pulls the status byte.
    pub fn plp(&mut self)
        ensures
            old(self).memory.inv() ==> final(self).memory.inv(),
            *final(self) == old(self).after_plp(),
    {
        let p: u8 = self.pull();
        self.set_status(p);
    }

    /// A jump, call, return, push or pull. The program counter already
    /// stands after the instruction.
    pub open spec fn after_control(self, instruction: Instruction, address: u16) -> Self {
        match instruction {
            Instruction::JMP => CPU { pc: address, ..self },
            Instruction::JSR => self.after_jsr(address),
            Instruction::RTS => self.after_rts(),
            Instruction::RTI => self.after_rti(),
            Instruction::BRK => self.after_brk(),
            Instruction::PHA => self.after_push(self.a),
            Instruction::PHP => self.after_php(),
            Instruction::PLA => self.after_pla(),
            Instruction::PLP => self.after_plp(),
            _ => self,
        }
    }

    /// Runs a jump, call, return, push or pull.
    #[verifier::rlimit(50)]
    pub fn control(&mut self, instruction: Instruction, address: u16)
        ensures
            old(self).memory.inv() ==> final(self).memory.inv(),
            *final(self) == old(self).after_control(instruction, address),
    {
        match instruction {
            Instruction::JMP => {
                self.pc = address;
            },
            Instruction::JSR => self.jsr(address),
            Instruction::RTS => self.rts(),
            Instruction::RTI => self.rti(),
            Instruction::BRK => self.brk(),
            Instruction::PHA => self.push(self.a),
            Instruction::PHP => self.php(),
            Instruction::PLA => self.pla(),
            Instruction::PLP => self.plp(),
            _ => {},
        }
    }

    // ---------------------------------------------------------------
    // stores

    /// The register that a store instruction stores.
    pub open spec fn stored(self, instruction: Instruction) -> u8 {
        match instruction {
            Instruction::STX => self.x,
            Instruction::STY => self.y,
            _ => self.a,
        }
    }

    // ---------------------------------------------------------------
    // one instruction

    /// The instruction `instruction` on the operand at `address`. The
    /// program counter and the cycle counter already stand after the
    /// instruction.
    pub open spec fn after_execute(
        self,
        instruction: Instruction,
        address: u16,
        mode: AddressMode,
    ) -> Self {
        match instruction {
            Instruction::ADC
            | Instruction::SBC
            | Instruction::AND
            | Instruction::ORA
            | Instruction::EOR
            | Instruction::BIT
            | Instruction::CPA
            | Instruction::CPX
            | Instruction::CPY
            | Instruction::LDA
            | Instruction::LDX
            | Instruction::LDY => self.after_read(address).after_operate(
                instruction,
                self.read_value(address),
            ),
            Instruction::ASL
            | Instruction::LSR
            | Instruction::ROL
            | Instruction::ROR
            | Instruction::INC
            | Instruction::DEC => self.after_modify(instruction, address, mode),
            Instruction::STA | Instruction::STX | Instruction::STY => self.after_write(
                address,
                self.stored(instruction),
            ),
            Instruction::BCC
            | Instruction::BCS
            | Instruction::BEQ
            | Instruction::BNE
            | Instruction::BMI
            | Instruction::BPL
            | Instruction::BVC
            | Instruction::BVS => self.after_branch(instruction, address),
            Instruction::JMP
            | Instruction::JSR
            | Instruction::RTS
            | Instruction::RTI
            | Instruction::BRK
            | Instruction::PHA
            | Instruction::PHP
            | Instruction::PLA
            | Instruction::PLP => self.after_control(instruction, address),
            _ => self.after_implied(instruction),
        }
    }

    /// Runs one decoded instruction on its resolved operand.
    #[verifier::rlimit(50)]
    pub fn execute(&mut self, instruction: Instruction, address: u16, mode: AddressMode)
        ensures
            old(self).memory.inv() ==> final(self).memory.inv(),
            *final(self) == old(self).after_execute(instruction, address, mode),
    {
        match instruction {
            Instruction::ADC
            | Instruction::SBC
            | Instruction::AND
            | Instruction::ORA
            | Instruction::EOR
            | Instruction::BIT
            | Instruction::CPA
            | Instruction::CPX
            | Instruction::CPY
            | Instruction::LDA
            | Instruction::LDX
            | Instruction::LDY => {
                let value: u8 = self.read(address);
                self.operate(instruction, value);
            },
            Instruction::ASL
            | Instruction::LSR
            | Instruction::ROL
            | Instruction::ROR
            | Instruction::INC
            | Instruction::DEC => self.modify(instruction, address, mode),
            Instruction::STA => self.write(address, self.a),
            Instruction::STX => self.write(address, self.x),
            Instruction::STY => self.write(address, self.y),
            Instruction::BCC
            | Instruction::BCS
            | Instruction::BEQ
            | Instruction::BNE
            | Instruction::BMI
            | Instruction::BPL
            | Instruction::BVC
            | Instruction::BVS => self.branch(instruction, address),
            Instruction::JMP
            | Instruction::JSR
            | Instruction::RTS
            | Instruction::RTI
            | Instruction::BRK
            | Instruction::PHA
            | Instruction::PHP
            | Instruction::PLA
            | Instruction::PLP => self.control(instruction, address),
            _ => self.implied(instruction),
        }
    }

    /// The instruction at the program counter: the opcode is fetched and
    /// decoded, its operand resolved, the program counter moved past the
    /// instruction and the cycle counter past its cycles (one more where
    /// indexing crossed a page and the instruction pays for that), and the
    /// instruction executed.
    ///
    /// The definition is opaque, so that a step can be spoken of without all
    /// that an instruction may do: `reveal` it to unfold one.
    #[verifier::opaque]
    pub open spec fn after_instruction(self) -> Self {
        let op = spec_decode(self.read_value(self.pc));
        let fetched = self.after_read(self.pc);
        let operand = fetched.operand_value(op.mode);
        let resolved = fetched.after_operand(op.mode);
        CPU { pc: word(self.pc + spec_size(op.mode)), ..resolved }.after_cycles(
            op.cycles + (if operand.page_crossed {
                op.page_cycles as int
            } else {
                0
            }),
        ).after_execute(op.instruction, operand.address, op.mode)
    }

    /// Fetches, decodes and runs the instruction at the program counter.
    #[verifier::rlimit(50)]
    pub fn run_instruction(&mut self)
        ensures
            old(self).memory.inv() ==> final(self).memory.inv(),
            *final(self) == old(self).after_instruction(),
    {
        proof {
            reveal(CPU::after_instruction);
        }
        let pc: u16 = self.pc;
        let opcode: u8 = self.read(pc);
        let op = decode(opcode);
        let operand: Operand = self.resolve(op.mode);
        self.pc = word_add(pc, size(op.mode));
        self.add_cycles(
            if operand.page_crossed {
                op.cycles + op.page_cycles
            } else {
                op.cycles
            },
        );
        self.execute(op.instruction, operand.address, op.mode);
    }

    // ---------------------------------------------------------------
    // one step

    /// The state after the latched interrupt, if there is one, is entered.
    pub open spec fn after_pending_interrupt(self) -> Self {
        match self.interrupt {
            Some(kind) => CPU { interrupt: None, ..self.after_interrupt(kind) },
            None => self,
        }
    }

    /// One step: a stalled processor waits one cycle; otherwise it enters a
    /// latched interrupt and then runs one instruction.
    pub open spec fn after_step(self) -> Self {
        if self.stall > 0 {
            CPU { stall: (self.stall - 1) as u32, ..self }.after_cycles(1)
        } else {
            self.after_pending_interrupt().after_instruction()
        }
    }

    /// Cycles that the step from this state takes.
    pub open spec fn step_cycles(self) -> u64 {
        cycles_after(self.after_step().cycles, -self.cycles)
    }

    /// Runs one step and returns the cycles it took.
    pub fn step(&mut self) -> (cycles: u64)
        ensures
            old(self).memory.inv() ==> final(self).memory.inv(),
            *final(self) == old(self).after_step(),
            cycles == old(self).step_cycles(),
    {
        let before: u64 = self.cycles;
        if self.stall > 0 {
            self.stall = self.stall - 1;
            self.add_cycles(1);
        } else {
            match self.interrupt {
                Some(kind) => {
                    self.interrupt(kind);
                    self.interrupt = None;
                },
                None => {},
            }
            self.run_instruction();
        }
        cycles_between(before, self.cycles)
    }
}

/// Cycle counts add up.
pub proof fn lemma_cycles_after_twice(cycles: u64, a: int, b: int)
    ensures
        cycles_after(cycles_after(cycles, a), b) == cycles_after(cycles, a + b),
{
}

/// A count below 2^64 is read back from the counter.
pub proof fn lemma_cycles_difference(cycles: u64, n: int)
    requires
        0 <= n < 0x1_0000_0000_0000_0000,
    ensures
        cycles_after(cycles_after(cycles, n), -cycles) == n,
{
}

/// Every opcode takes two to seven cycles, and at most one more for a page
/// crossing.
pub proof fn lemma_decode_bounds(opcode: u8)
    ensures
        2 <= spec_decode(opcode).cycles <= 7,
        spec_decode(opcode).page_cycles <= 1,
{
}

/// Only a branch that is taken adds to the cycles of its instruction: one
/// cycle, or two when it leaves the page.
#[verifier::rlimit(50)]
pub proof fn lemma_execute_cycles<B: Memory>(
    cpu: CPU<B>,
    instruction: Instruction,
    address: u16,
    mode: AddressMode,
)
    ensures
        cpu.after_execute(instruction, address, mode).cycles == cycles_after(
            cpu.cycles,
            cpu.branch_cycles(instruction, address),
        ),
        0 <= cpu.branch_cycles(instruction, address) <= 2,
{
    assert(cycles_after(cpu.cycles, 0) == cpu.cycles);
}

/// Resolving an operand costs no cycles of its own.
#[verifier::rlimit(50)]
pub proof fn lemma_operand_cycles<B: Memory>(cpu: CPU<B>, mode: AddressMode)
    ensures
        cpu.after_operand(mode).cycles == cpu.cycles,
{
}

/// An instruction takes the cycles of its opcode, one more where indexing
/// crossed a page and the opcode pays for that, and what a taken branch
/// adds: between 2 and 10 in all.
#[verifier::rlimit(50)]
pub proof fn lemma_instruction_cycles<B: Memory>(cpu: CPU<B>) -> (n: int)
    ensures
        2 <= n <= 10,
        cpu.after_instruction().cycles == cycles_after(cpu.cycles, n),
{
    reveal(CPU::after_instruction);
    let opcode = cpu.read_value(cpu.pc);
    let op = spec_decode(opcode);
    lemma_decode_bounds(opcode);
    let fetched = cpu.after_read(cpu.pc);
    let operand = fetched.operand_value(op.mode);
    let resolved = fetched.after_operand(op.mode);
    lemma_operand_cycles(fetched, op.mode);
    let base: int = op.cycles + (if operand.page_crossed {
        op.page_cycles as int
    } else {
        0
    });
    let advanced = CPU { pc: word(cpu.pc + spec_size(op.mode)), ..resolved }.after_cycles(base);
    lemma_execute_cycles(advanced, op.instruction, operand.address, op.mode);
    let extra = advanced.branch_cycles(op.instruction, operand.address);
    lemma_cycles_after_twice(cpu.cycles, base, extra);
    base + extra
}

/// Entering an interrupt takes seven cycles.
#[verifier::rlimit(50)]
pub proof fn lemma_interrupt_cycles<B: Memory>(cpu: CPU<B>, kind: IRQ)
    ensures
        cpu.after_interrupt(kind).cycles == cycles_after(cpu.cycles, 7),
{
}

/// A step takes one cycle while the processor is stalled, and otherwise the
/// cycles of its instruction, seven more if it enters an interrupt first:
/// between 2 and 17 in all.
#[verifier::rlimit(50)]
pub proof fn lemma_step_cycles<B: Memory>(cpu: CPU<B>)
    ensures
        cpu.stall > 0 ==> cpu.step_cycles() == 1,
        cpu.stall == 0 ==> 2 <= cpu.step_cycles() <= 17,
        cpu.stall == 0 && cpu.interrupt is None ==> cpu.step_cycles() <= 10,
{
    if cpu.stall > 0 {
        lemma_cycles_difference(cpu.cycles, 1);
    } else {
        let entered = cpu.after_pending_interrupt();
        let n = lemma_instruction_cycles(entered);
        match cpu.interrupt {
            Some(kind) => {
                lemma_interrupt_cycles(cpu, kind);
                lemma_cycles_after_twice(cpu.cycles, 7, n);
                lemma_cycles_difference(cpu.cycles, 7 + n);
            },
            None => {
                lemma_cycles_difference(cpu.cycles, n);
            },
        }
    }
}

/// The overflow flag as the data sheets put it: an addition overflows when
/// the operands have the same sign and the result another; a subtraction
/// when the operands have different signs and the result another sign than
/// the accumulator had.
pub proof fn lemma_overflow_is_the_sign_rule(a: u8, value: u8, carry: bool)
    ensures
        spec_sum(a, value, carry).overflow <==> ((a ^ value) & 0x80 == 0 && (a ^ spec_sum(
            a,
            value,
            carry,
        ).result) & 0x80 != 0),
        spec_difference(a, value, carry).overflow <==> ((a ^ value) & 0x80 != 0 && (a
            ^ spec_difference(a, value, carry).result) & 0x80 != 0),
{
    lemma_same_sign(a, value);
    lemma_same_sign(a, spec_sum(a, value, carry).result);
    lemma_same_sign(a, spec_difference(a, value, carry).result);
}

/// A sum and a difference, carry and result together, are the full number:
/// nothing is lost between the two.
pub proof fn lemma_carry_completes_the_result(a: u8, value: u8, carry: bool)
    ensures
        spec_sum(a, value, carry).result + (if spec_sum(a, value, carry).carry {
            256int
        } else {
            0
        }) == a + value + (if carry {
            1int
        } else {
            0
        }),
        spec_difference(a, value, carry).result - (if spec_difference(a, value, carry).carry {
            0int
        } else {
            256
        }) == a - value - (if carry {
            0int
        } else {
            1
        }),
{
}

/// The flags survive a push and a pull of the status byte. The break flag
/// does not: it is clear after every pull.
pub proof fn lemma_status_round_trip<B: Memory>(cpu: CPU<B>, brk: bool)
    ensures
        ({
            let back = cpu.after_set_status(cpu.pushed_status(brk));
            &&& back.c == cpu.c
            &&& back.z == cpu.z
            &&& back.i == cpu.i
            &&& back.d == cpu.d
            &&& back.v == cpu.v
            &&& back.n == cpu.n
            &&& !back.b
        }),
        cpu.pushed_status(brk) >= 32,
        cpu.status_value() == cpu.pushed_status(cpu.b),
{
}

/// No instruction touches the stall counter.
#[verifier::rlimit(50)]
pub proof fn lemma_execute_keeps_stall<B: Memory>(
    cpu: CPU<B>,
    instruction: Instruction,
    address: u16,
    mode: AddressMode,
)
    ensures
        cpu.after_execute(instruction, address, mode).stall == cpu.stall,
{
}

/// A step of a processor that is not stalled leaves it not stalled: only a
/// sprite DMA, which the owner of the bus accounts for, stalls it.
#[verifier::rlimit(50)]
pub proof fn lemma_step_keeps_stall<B: Memory>(cpu: CPU<B>)
    requires
        cpu.stall == 0,
    ensures
        cpu.after_step().stall == 0,
{
    reveal(CPU::after_instruction);
    let entered = cpu.after_pending_interrupt();
    assert(entered.stall == 0);
    let op = spec_decode(entered.read_value(entered.pc));
    let fetched = entered.after_read(entered.pc);
    let operand = fetched.operand_value(op.mode);
    let resolved = fetched.after_operand(op.mode);
    assert(resolved.stall == 0);
    let advanced = CPU { pc: word(entered.pc + spec_size(op.mode)), ..resolved }.after_cycles(
        op.cycles + (if operand.page_crossed {
            op.page_cycles as int
        } else {
            0
        }),
    );
    lemma_execute_keeps_stall(advanced, op.instruction, operand.address, op.mode);
}

} // verus!
