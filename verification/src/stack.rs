//! Laws of the stack and of the instructions that use it, on any bus whose
//! page 1 is plain memory.

use vstd::prelude::*;
use crate::cpu::{word, CPU, IRQ};
use crate::execute::lemma_status_round_trip;
use crate::memory::Memory;

verus! {

/// Whether page 1, where the stack lies, is plain memory on every bus of
/// type `B`: a byte written there is read back until it is overwritten, and
/// no read of any address changes what the page holds.
pub open spec fn stack_is_memory<B: Memory>() -> bool {
    &&& forall|bus: B, addr: u16, value: u8, other: u16|
        0x0100 <= addr < 0x0200 && 0x0100 <= other < 0x0200 ==> #[trigger] bus.after_write(
            addr,
            value,
        ).read_value(other) == (if other == addr {
            value
        } else {
            bus.read_value(other)
        })
    &&& forall|bus: B, addr: u16, other: u16|
        0x0100 <= other < 0x0200 ==> #[trigger] bus.after_read(addr).read_value(other)
            == bus.read_value(other)
}

/// A pull returns what the last push stored and puts the stack pointer
/// back.
pub proof fn lemma_push_then_pull<B: Memory>(cpu: CPU<B>, value: u8)
    requires
        stack_is_memory::<B>(),
    ensures
        cpu.after_push(value).pull_value() == value,
        cpu.after_push(value).after_pull().sp == cpu.sp,
{
}

/// A 16-bit number pushed is the number pulled.
pub proof fn lemma_push16_then_pull16<B: Memory>(cpu: CPU<B>, value: u16)
    requires
        stack_is_memory::<B>(),
    ensures
        cpu.after_push16(value).pull16_value() == value,
        cpu.after_push16(value).after_pull16().sp == cpu.sp,
{
    let high = cpu.after_push((value / 256) as u8);
    lemma_push_then_pull(high, (value % 256) as u8);
    let low = high.after_push((value % 256) as u8);
    assert(low.after_pull().sp == high.sp);
    assert(low.after_pull().pull_value() == (value / 256) as u8);
}

/// A call and the return from it lead to the instruction after the call,
/// with the stack pointer where it stood.
pub proof fn lemma_call_then_return<B: Memory>(cpu: CPU<B>, address: u16)
    requires
        stack_is_memory::<B>(),
    ensures
        cpu.after_jsr(address).pc == address,
        cpu.after_jsr(address).after_rts().pc == cpu.pc,
        cpu.after_jsr(address).after_rts().sp == cpu.sp,
{
    lemma_push16_then_pull16(cpu, word(cpu.pc - 1));
    let called = cpu.after_jsr(address);
    let pushed = cpu.after_push16(word(cpu.pc - 1));
    assert(called.memory == pushed.memory);
    assert(called.sp == pushed.sp);
}

/// The accumulator pushed is the accumulator pulled, and the flags pushed
/// are the flags pulled but for the break flag, which a pull leaves clear.
pub proof fn lemma_push_then_pull_registers<B: Memory>(cpu: CPU<B>)
    requires
        stack_is_memory::<B>(),
    ensures
        cpu.after_push(cpu.a).after_pla().a == cpu.a,
        cpu.after_push(cpu.a).after_pla().sp == cpu.sp,
        ({
            let back = cpu.after_php().after_plp();
            &&& back.c == cpu.c
            &&& back.z == cpu.z
            &&& back.i == cpu.i
            &&& back.d == cpu.d
            &&& back.v == cpu.v
            &&& back.n == cpu.n
            &&& !back.b
            &&& back.sp == cpu.sp
        }),
{
    lemma_push_then_pull(cpu, cpu.a);
    lemma_push_then_pull(cpu, cpu.pushed_status(true));
    lemma_status_round_trip(cpu, true);
}

/// What the return from an interrupt restores from a stack onto which a
/// processor in state `cpu` pushed the program counter `pc` and then the
/// status byte `status`, whatever was read from the bus since.
pub proof fn lemma_return_restores<B: Memory>(cpu: CPU<B>, entered: CPU<B>, pc: u16, status: u8)
    requires
        stack_is_memory::<B>(),
        entered.sp == cpu.after_push16(pc).after_push(status).sp,
        forall|other: u16|
            0x0100 <= other < 0x0200 ==> #[trigger] entered.memory.read_value(other)
                == cpu.after_push16(pc).after_push(status).memory.read_value(other),
    ensures
        ({
            let back = entered.after_rti();
            &&& back.pc == pc
            &&& back.sp == cpu.sp
            &&& back.c == (status % 2 == 1)
            &&& back.z == ((status / 2) % 2 == 1)
            &&& back.i == ((status / 4) % 2 == 1)
            &&& back.d == ((status / 8) % 2 == 1)
            &&& back.v == ((status / 64) % 2 == 1)
            &&& back.n == (status / 128 == 1)
            &&& !back.b
        }),
{
    let pushed = cpu.after_push16(pc);
    let stacked = pushed.after_push(status);
    lemma_push_then_pull(pushed, status);
    lemma_push16_then_pull16(cpu, pc);
    assert(entered.pull_value() == status);
    let flagged = entered.after_pull().after_set_status(entered.pull_value());
    assert(flagged.sp == pushed.sp);
    assert(pushed.pull16_value() == pc);
    assert(flagged.pull_value() == pushed.pull_value()) by {
        assert(stacked.memory.read_value((0x100 + byte_up(pushed.sp)) as u16)
            == pushed.memory.read_value((0x100 + byte_up(pushed.sp)) as u16));
    }
    assert(flagged.after_pull().pull_value() == pushed.after_pull().pull_value()) by {
        assert(stacked.memory.read_value((0x100 + byte_up(byte_up(pushed.sp))) as u16)
            == pushed.memory.read_value((0x100 + byte_up(byte_up(pushed.sp))) as u16));
    }
}

/// The stack pointer one up, wrapping within the page.
pub open spec fn byte_up(sp: u8) -> u8 {
    ((sp + 1) % 256) as u8
}

/// An interrupt is transparent to the program it interrupts: the return
/// from a request or a non-maskable interrupt leads back to the instruction
/// that was about to run, with the registers, the flags and the stack
/// pointer as they were (the break flag clear).
pub proof fn lemma_interrupt_then_return<B: Memory>(cpu: CPU<B>, kind: IRQ)
    requires
        stack_is_memory::<B>(),
        kind != IRQ::RESET,
    ensures
        ({
            let back = cpu.after_interrupt(kind).after_rti();
            &&& cpu.after_interrupt(kind).i
            &&& back.pc == cpu.pc
            &&& back.sp == cpu.sp
            &&& back.a == cpu.a
            &&& back.x == cpu.x
            &&& back.y == cpu.y
            &&& back.c == cpu.c
            &&& back.z == cpu.z
            &&& back.i == cpu.i
            &&& back.d == cpu.d
            &&& back.v == cpu.v
            &&& back.n == cpu.n
            &&& !back.b
        }),
{
    lemma_return_restores(cpu, cpu.after_interrupt(kind), cpu.pc, cpu.pushed_status(false));
    lemma_status_round_trip(cpu, false);
}

/// The return from a software interrupt leads to the byte after its padding
/// byte, with the flags as they were (the break flag clear).
pub proof fn lemma_software_interrupt_then_return<B: Memory>(cpu: CPU<B>)
    requires
        stack_is_memory::<B>(),
    ensures
        ({
            let back = cpu.after_brk().after_rti();
            &&& cpu.after_brk().i
            &&& back.pc == word(cpu.pc + 1)
            &&& back.sp == cpu.sp
            &&& back.c == cpu.c
            &&& back.z == cpu.z
            &&& back.i == cpu.i
            &&& back.d == cpu.d
            &&& back.v == cpu.v
            &&& back.n == cpu.n
            &&& !back.b
        }),
{
    lemma_return_restores(cpu, cpu.after_brk(), word(cpu.pc + 1), cpu.pushed_status(true));
    lemma_status_round_trip(cpu, true);
}

} // verus!
