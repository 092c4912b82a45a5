//! The processor: its registers, its view of the bus, the stack, the status
//! byte, and the interrupt entry sequences.
//!
//! The processor owns the bus it reads and writes. Each operation is a total
//! function on the pair; its contract names the state it leaves behind with
//! a spec function (`after_...`) and the value it yields with another
//! (`..._value`).

use vstd::prelude::*;
use crate::memory::Memory;

verus! {

/// Clock of the processor in cycles per second.
pub const CPUFREQ: usize = 1789773;

/// The kinds of interrupt.
#[derive(Clone, Copy, Debug, PartialEq, Eq, Structural)]
pub enum IRQ {
    /// The maskable interrupt request.
    Normal,
    /// The non-maskable interrupt.
    NMI,
    /// Reset.
    RESET,
}

/// How an instruction finds its operand.
#[derive(Clone, Copy, Debug, PartialEq, Eq, Structural)]
pub enum AddressMode {
    Absolute,
    AbsoluteX,
    AbsoluteY,
    Accumulator,
    Immediate,
    Implied,
    IndexedIndirect,
    Indirect,
    IndirectIndexed,
    Relative,
    ZeroPage,
    ZeroPageX,
    ZeroPageY,
}

/// Address of the vector that an interrupt of kind `kind` loads the program
/// counter from.
pub open spec fn spec_vector(kind: IRQ) -> u16 {
    match kind {
        IRQ::NMI => 0xFFFA,
        IRQ::RESET => 0xFFFC,
        IRQ::Normal => 0xFFFE,
    }
}

/// Address of the vector of an interrupt kind.
#[verifier::when_used_as_spec(spec_vector)]
pub fn vector(kind: IRQ) -> (addr: u16)
    ensures
        addr == spec_vector(kind),
{
    match kind {
        IRQ::NMI => 0xFFFA,
        IRQ::RESET => 0xFFFC,
        IRQ::Normal => 0xFFFE,
    }
}

/// `n` reduced to 16 bits.
pub open spec fn word(n: int) -> u16 {
    (n % 0x10000) as u16
}

/// `n` reduced to 8 bits.
pub open spec fn byte(n: int) -> u8 {
    (n % 0x100) as u8
}

/// The number that `b` stands for in two's complement.
pub open spec fn signed(b: u8) -> int {
    if b < 0x80 {
        b as int
    } else {
        b - 0x100
    }
}

/// The 16-bit number with low byte `lo` and high byte `hi`.
pub open spec fn join(lo: u8, hi: u8) -> u16 {
    (hi * 256 + lo) as u16
}

/// Whether two addresses lie in different 256-byte pages.
pub open spec fn spec_pages_differ(a: u16, b: u16) -> bool {
    a / 256 != b / 256
}

/// Adds within 16 bits, wrapping.
pub fn word_add(a: u16, b: u16) -> (sum: u16)
    ensures
        sum == word(a + b),
{
    let full: u32 = a as u32 + b as u32;
    if full >= 0x10000 {
        (full - 0x10000) as u16
    } else {
        full as u16
    }
}

/// Subtracts within 16 bits, wrapping.
pub fn word_sub(a: u16, b: u16) -> (difference: u16)
    ensures
        difference == word(a - b),
{
    if a >= b {
        a - b
    } else {
        (a as u32 + 0x10000 - b as u32) as u16
    }
}

/// Adds within 8 bits, wrapping.
pub fn byte_add(a: u8, b: u8) -> (sum: u8)
    ensures
        sum == byte(a + b),
{
    let full: u16 = a as u16 + b as u16;
    if full >= 0x100 {
        (full - 0x100) as u8
    } else {
        full as u8
    }
}

/// Subtracts within 8 bits, wrapping.
pub fn byte_sub(a: u8, b: u8) -> (difference: u8)
    ensures
        difference == byte(a - b),
{
    if a >= b {
        a - b
    } else {
        (a as u16 + 0x100 - b as u16) as u8
    }
}

/// The number that `b` stands for in two's complement.
#[verifier::when_used_as_spec(signed_i16)]
pub fn to_signed(b: u8) -> (n: i16)
    ensures
        n == signed(b),
        -128 <= n <= 127,
{
    if b < 0x80 {
        b as i16
    } else {
        b as i16 - 0x100
    }
}

/// The number that `b` stands for in two's complement, as a machine integer.
pub open spec fn signed_i16(b: u8) -> i16 {
    signed(b) as i16
}

/// Joins a low and a high byte.
pub fn make_word(lo: u8, hi: u8) -> (joined: u16)
    ensures
        joined == join(lo, hi),
{
    (hi as u16) * 256 + (lo as u16)
}

/// Whether two addresses lie in different 256-byte pages.
#[verifier::when_used_as_spec(spec_pages_differ)]
pub fn pages_differ(a: u16, b: u16) -> (differ: bool)
    ensures
        differ == spec_pages_differ(a, b),
{
    a / 256 != b / 256
}

/// The status byte with the given flags: carry in bit 0, then zero,
/// interrupt disable, decimal, break, an unused bit that always reads as
/// set, overflow, and negative in bit 7.
pub open spec fn spec_pack_status(
    c: bool,
    z: bool,
    i: bool,
    d: bool,
    b: bool,
    v: bool,
    n: bool,
) -> u8 {
    ((if c { 1int } else { 0 }) + (if z { 2int } else { 0 }) + (if i { 4int } else { 0 }) + (if d {
        8int
    } else {
        0
    }) + (if b { 16int } else { 0 }) + 32 + (if v { 64int } else { 0 }) + (if n {
        128int
    } else {
        0
    })) as u8
}

/// Packs the flags into a status byte.
#[verifier::when_used_as_spec(spec_pack_status)]
pub fn pack_status(c: bool, z: bool, i: bool, d: bool, b: bool, v: bool, n: bool) -> (p: u8)
    ensures
        p == spec_pack_status(c, z, i, d, b, v, n),
{
    let mut p: u8 = 32;
    if c {
        p = p + 1;
    }
    if z {
        p = p + 2;
    }
    if i {
        p = p + 4;
    }
    if d {
        p = p + 8;
    }
    if b {
        p = p + 16;
    }
    if v {
        p = p + 64;
    }
    if n {
        p = p + 128;
    }
    p
}

/// The processor and the bus it drives.
pub struct CPU<B: Memory> {
    pub memory: B,
    /// Cycles run since power-on, modulo 2^64.
    pub cycles: u64,
    pub pc: u16,
    pub sp: u8,
    pub a: u8,
    pub x: u8,
    pub y: u8,
    /// Carry.
    pub c: bool,
    /// Zero.
    pub z: bool,
    /// Interrupt disable.
    pub i: bool,
    /// Decimal mode.
    pub d: bool,
    /// Break.
    pub b: bool,
    /// Overflow.
    pub v: bool,
    /// Negative.
    pub n: bool,
    /// Interrupt that the next step enters before it fetches.
    pub interrupt: Option<IRQ>,
    /// Cycles left during which the processor only waits.
    pub stall: u32,
}

/// The cycle counter `n` cycles on.
pub open spec fn cycles_after(cycles: u64, n: int) -> u64 {
    ((cycles + n) % 0x1_0000_0000_0000_0000) as u64
}

impl<B: Memory> CPU<B> {
    // ---------------------------------------------------------------
    // power-on

    /// The processor at power-on around `memory`: registers cleared, stack
    /// pointer at `0xFD`, interrupts disabled. The program counter is zero
    /// until a reset loads it.
    pub open spec fn power_on(memory: B) -> Self {
        CPU {
            memory,
            cycles: 0,
            pc: 0,
            sp: 0xFD,
            a: 0,
            x: 0,
            y: 0,
            c: false,
            z: false,
            i: true,
            d: false,
            b: false,
            v: false,
            n: false,
            interrupt: None,
            stall: 0,
        }
    }

    /// The processor at power-on around `memory`.
    pub fn new(memory: B) -> (cpu: Self)
        ensures
            cpu == Self::power_on(memory),
    {
        CPU {
            memory,
            cycles: 0,
            pc: 0,
            sp: 0xFD,
            a: 0,
            x: 0,
            y: 0,
            c: false,
            z: false,
            i: true,
            d: false,
            b: false,
            v: false,
            n: false,
            interrupt: None,
            stall: 0,
        }
    }

    // ---------------------------------------------------------------
    // the cycle counter

    /// The state `n` cycles on.
    pub open spec fn after_cycles(self, n: int) -> Self {
        CPU { cycles: cycles_after(self.cycles, n), ..self }
    }

    /// Moves the cycle counter on.
    pub fn add_cycles(&mut self, n: u8)
        ensures
            old(self).memory.inv() ==> final(self).memory.inv(),
            *final(self) == old(self).after_cycles(n as int),
    {
        self.cycles = self.cycles.wrapping_add(n as u64);
    }

    // ---------------------------------------------------------------
    // the bus

    /// The byte that the bus returns for a read of `addr`.
    pub open spec fn read_value(self, addr: u16) -> u8 {
        self.memory.read_value(addr)
    }

    /// The state after a read of `addr`: only the bus may change.
    pub open spec fn after_read(self, addr: u16) -> Self {
        CPU { memory: self.memory.after_read(addr), ..self }
    }

    /// Reads one byte through the bus.
    pub fn read(&mut self, addr: u16) -> (value: u8)
        ensures
            old(self).memory.inv() ==> final(self).memory.inv(),
            value == old(self).read_value(addr),
            *final(self) == old(self).after_read(addr),
    {
        self.memory.read(addr)
    }

    /// The state after a write of `value` to `addr`: only the bus may change.
    pub open spec fn after_write(self, addr: u16, value: u8) -> Self {
        CPU { memory: self.memory.after_write(addr, value), ..self }
    }

    /// Writes one byte through the bus.
    pub fn write(&mut self, addr: u16, value: u8)
        ensures
            old(self).memory.inv() ==> final(self).memory.inv(),
            *final(self) == old(self).after_write(addr, value),
    {
        self.memory.write(addr, value);
    }

    /// The 16-bit number read from `addr` and the address after it, low
    /// byte first.
    pub open spec fn read16_value(self, addr: u16) -> u16 {
        join(self.read_value(addr), self.after_read(addr).read_value(word(addr + 1)))
    }

    /// The state after the two reads of a 16-bit number.
    pub open spec fn after_read16(self, addr: u16) -> Self {
        self.after_read(addr).after_read(word(addr + 1))
    }

    /// Reads a 16-bit number, low byte first.
    pub fn read16(&mut self, addr: u16) -> (value: u16)
        ensures
            old(self).memory.inv() ==> final(self).memory.inv(),
            value == old(self).read16_value(addr),
            *final(self) == old(self).after_read16(addr),
    {
        let lo: u8 = self.read(addr);
        let hi: u8 = self.read(word_add(addr, 1));
        make_word(lo, hi)
    }

    /// The address that follows `addr` within its page: the last byte of a
    /// page is followed by the first byte of the same page.
    pub open spec fn spec_next_in_page(addr: u16) -> u16 {
        ((addr / 256) * 256 + (addr + 1) % 256) as u16
    }

    /// The address that follows `addr` within its page.
    pub fn next_in_page(addr: u16) -> (next: u16)
        ensures
            next == Self::spec_next_in_page(addr),
    {
        (addr / 256) * 256 + (addr % 256 + 1) % 256
    }

    /// The 16-bit number that an indirect fetch reads at `addr`: the high
    /// byte comes from the same page even when `addr` is the page's last
    /// byte.
    pub open spec fn read16_in_page_value(self, addr: u16) -> u16 {
        join(
            self.read_value(addr),
            self.after_read(addr).read_value(Self::spec_next_in_page(addr)),
        )
    }

    /// The state after the two reads of an indirect fetch.
    pub open spec fn after_read16_in_page(self, addr: u16) -> Self {
        self.after_read(addr).after_read(Self::spec_next_in_page(addr))
    }

    /// Reads the 16-bit number of an indirect fetch, which never leaves the
    /// page of its low byte.
    pub fn read16_in_page(&mut self, addr: u16) -> (value: u16)
        ensures
            old(self).memory.inv() ==> final(self).memory.inv(),
            value == old(self).read16_in_page_value(addr),
            *final(self) == old(self).after_read16_in_page(addr),
    {
        let lo: u8 = self.read(addr);
        let hi: u8 = self.read(Self::next_in_page(addr));
        make_word(lo, hi)
    }

    // ---------------------------------------------------------------
    // the stack, in page 1, growing down

    /// The state after a push: the byte is stored at the stack pointer in page
    /// 1, and the stack pointer moves one down, wrapping within the page.
    pub open spec fn after_push(self, value: u8) -> Self {
        CPU { sp: byte(self.sp - 1), ..self.after_write((0x100 + self.sp) as u16, value) }
    }

    /// Pushes one byte.
    pub fn push(&mut self, value: u8)
        ensures
            old(self).memory.inv() ==> final(self).memory.inv(),
            *final(self) == old(self).after_push(value),
    {
        self.write(0x100 + self.sp as u16, value);
        self.sp = byte_sub(self.sp, 1);
    }

    /// The byte that a pull returns: the one above the stack pointer.
    pub open spec fn pull_value(self) -> u8 {
        self.read_value((0x100 + byte(self.sp + 1)) as u16)
    }

    /// The state after a pull: the stack pointer moves one up, wrapping within
    /// the page.
    pub open spec fn after_pull(self) -> Self {
        CPU { sp: byte(self.sp + 1), ..self.after_read((0x100 + byte(self.sp + 1)) as u16) }
    }

    /// Pulls one byte.
    pub fn pull(&mut self) -> (value: u8)
        ensures
            old(self).memory.inv() ==> final(self).memory.inv(),
            value == old(self).pull_value(),
            *final(self) == old(self).after_pull(),
    {
        self.sp = byte_add(self.sp, 1);
        self.read(0x100 + self.sp as u16)
    }

    /// High byte first, so that the low byte lies at the lower address.
    pub open spec fn after_push16(self, value: u16) -> Self {
        self.after_push((value / 256) as u8).after_push((value % 256) as u8)
    }

    /// Pushes a 16-bit number.
    pub fn push16(&mut self, value: u16)
        ensures
            old(self).memory.inv() ==> final(self).memory.inv(),
            *final(self) == old(self).after_push16(value),
    {
        self.push((value / 256) as u8);
        self.push((value % 256) as u8);
    }

    /// The 16-bit number that two pulls return, low byte first.
    pub open spec fn pull16_value(self) -> u16 {
        join(self.pull_value(), self.after_pull().pull_value())
    }

    /// The state after two pulls.
    pub open spec fn after_pull16(self) -> Self {
        self.after_pull().after_pull()
    }

    /// Pulls a 16-bit number.
    pub fn pull16(&mut self) -> (value: u16)
        ensures
            old(self).memory.inv() ==> final(self).memory.inv(),
            value == old(self).pull16_value(),
            *final(self) == old(self).after_pull16(),
    {
        let lo: u8 = self.pull();
        let hi: u8 = self.pull();
        make_word(lo, hi)
    }

    // ---------------------------------------------------------------
    // the status byte

    /// The status byte as the flags stand.
    pub open spec fn status_value(self) -> u8 {
        spec_pack_status(self.c, self.z, self.i, self.d, self.b, self.v, self.n)
    }

    /// The status byte as an instruction or interrupt pushes it, with the
    /// break bit as given.
    pub open spec fn pushed_status(self, brk: bool) -> u8 {
        spec_pack_status(self.c, self.z, self.i, self.d, brk, self.v, self.n)
    }

    /// The status byte as the flags stand.
    pub fn status(&self) -> (p: u8)
        ensures
            p == self.status_value(),
    {
        pack_status(self.c, self.z, self.i, self.d, self.b, self.v, self.n)
    }

    /// The flags as a pulled status byte sets them. The break flag is not
    /// taken from the byte: it is cleared.
    pub open spec fn after_set_status(self, p: u8) -> Self {
        CPU {
            c: p % 2 == 1,
            z: (p / 2) % 2 == 1,
            i: (p / 4) % 2 == 1,
            d: (p / 8) % 2 == 1,
            b: false,
            v: (p / 64) % 2 == 1,
            n: p / 128 == 1,
            ..self
        }
    }

    /// Sets the flags from a status byte.
    pub fn set_status(&mut self, p: u8)
        ensures
            old(self).memory.inv() ==> final(self).memory.inv(),
            *final(self) == old(self).after_set_status(p),
    {
        self.c = p % 2 == 1;
        self.z = (p / 2) % 2 == 1;
        self.i = (p / 4) % 2 == 1;
        self.d = (p / 8) % 2 == 1;
        self.b = false;
        self.v = (p / 64) % 2 == 1;
        self.n = p / 128 == 1;
    }

    /// The zero and negative flags as `value` sets them.
    pub open spec fn after_set_zn(self, value: u8) -> Self {
        CPU { z: value == 0, n: value >= 0x80, ..self }
    }

    /// Sets the zero and negative flags from a result.
    pub fn set_zn(&mut self, value: u8)
        ensures
            old(self).memory.inv() ==> final(self).memory.inv(),
            *final(self) == old(self).after_set_zn(value),
    {
        self.z = value == 0;
        self.n = value >= 0x80;
    }

    // ---------------------------------------------------------------
    // interrupts

    /// A non-maskable interrupt is latched for the next step.
    pub open spec fn after_trigger_nmi(self) -> Self {
        CPU { interrupt: Some(IRQ::NMI), ..self }
    }

    /// Latches a non-maskable interrupt.
    pub fn trigger_nmi(&mut self)
        ensures
            old(self).memory.inv() ==> final(self).memory.inv(),
            *final(self) == old(self).after_trigger_nmi(),
    {
        self.interrupt = Some(IRQ::NMI);
    }

    /// A maskable request is latched for the next step unless interrupts
    /// are disabled or another interrupt is already latched.
    pub open spec fn after_trigger_irq(self) -> Self {
        if !self.i && self.interrupt is None {
            CPU { interrupt: Some(IRQ::Normal), ..self }
        } else {
            self
        }
    }

    /// Latches a maskable request, if it is let through.
    pub fn trigger_irq(&mut self)
        ensures
            old(self).memory.inv() ==> final(self).memory.inv(),
            *final(self) == old(self).after_trigger_irq(),
    {
        if !self.i && self.interrupt.is_none() {
            self.interrupt = Some(IRQ::Normal);
        }
    }

    /// The entry sequence of an interrupt, seven cycles long.
    ///
    /// A request or a non-maskable interrupt pushes the program counter and
    /// the status byte with the break bit clear, disables interrupts and
    /// loads the program counter from its vector. A reset pushes nothing: it
    /// puts the stack pointer at `0xFD`, clears every flag but interrupt
    /// disable, drops a latched interrupt and a running stall, and loads the
    /// program counter from its vector.
    pub open spec fn after_interrupt(self, kind: IRQ) -> Self {
        match kind {
            IRQ::RESET => {
                CPU {
                    pc: self.read16_value(spec_vector(kind)),
                    sp: 0xFD,
                    c: false,
                    z: false,
                    i: true,
                    d: false,
                    b: false,
                    v: false,
                    n: false,
                    interrupt: None,
                    stall: 0,
                    ..self.after_read16(spec_vector(kind))
                }.after_cycles(7)
            },
            _ => {
                let pushed = self.after_push16(self.pc).after_push(self.pushed_status(false));
                CPU {
                    pc: pushed.read16_value(spec_vector(kind)),
                    i: true,
                    ..pushed.after_read16(spec_vector(kind))
                }.after_cycles(7)
            },
        }
    }

    /// Runs the entry sequence of an interrupt.
    pub fn interrupt(&mut self, kind: IRQ)
        ensures
            old(self).memory.inv() ==> final(self).memory.inv(),
            *final(self) == old(self).after_interrupt(kind),
    {
        match kind {
            IRQ::RESET => {
                self.pc = self.read16(vector(kind));
                self.sp = 0xFD;
                self.c = false;
                self.z = false;
                self.i = true;
                self.d = false;
                self.b = false;
                self.v = false;
                self.n = false;
                self.interrupt = None;
                self.stall = 0;
            },
            _ => {
                self.push16(self.pc);
                let p: u8 = pack_status(self.c, self.z, self.i, self.d, false, self.v, self.n);
                self.push(p);
                self.pc = self.read16(vector(kind));
                self.i = true;
            },
        }
        self.add_cycles(7);
    }

    /// Reset: the entry sequence of that kind, at once.
    pub fn reset(&mut self)
        ensures
            old(self).memory.inv() ==> final(self).memory.inv(),
            *final(self) == old(self).after_interrupt(IRQ::RESET),
            final(self).sp == 0xFD,
            final(self).status_value() == 0x24,
            final(self).stall == 0,
            final(self).interrupt is None,
    {
        self.interrupt(IRQ::RESET);
    }

    // ---------------------------------------------------------------
    // the stall of a sprite DMA

    /// Whether the stall counter can hold the stall of one more sprite DMA.
    pub open spec fn spec_can_stall(self) -> bool {
        self.stall + 514 <= u32::MAX
    }

    /// Whether the stall counter can hold the stall of one more sprite DMA.
    pub fn can_stall(&self) -> (fits: bool)
        ensures
            fits == self.spec_can_stall(),
    {
        self.stall <= u32::MAX - 514
    }

    /// A sprite DMA holds the processor for 513 cycles, and for one more
    /// when it begins on an odd cycle.
    pub open spec fn after_dma_stall(self) -> Self {
        CPU { stall: (self.stall + 513 + self.cycles % 2) as u32, ..self }
    }

    /// Holds the processor for the length of a sprite DMA: 513 cycles on an
    /// even cycle, 514 on an odd one, on top of what is left of an earlier
    /// stall. The counter must be able to hold the sum.
    pub fn dma_stall(&mut self)
        requires
            old(self).spec_can_stall(),
        ensures
            old(self).memory.inv() ==> final(self).memory.inv(),
            *final(self) == old(self).after_dma_stall(),
            old(self).cycles % 2 == 0 ==> final(self).stall == old(self).stall + 513,
            old(self).cycles % 2 == 1 ==> final(self).stall == old(self).stall + 514,
    {
        let extra: u32 = if self.cycles % 2 == 1 {
            514
        } else {
            513
        };
        self.stall = self.stall + extra;
    }
}

} // verus!
