//! The console: the processor, and behind its bus the work memory, the
//! picture unit and the cartridge, stepped in lockstep. One step of the
//! processor is followed by three dots of the picture unit for each cycle
//! that the step took.

use vstd::prelude::*;
use crate::cpu::{CPU, IRQ};
use crate::execute::{lemma_step_cycles, lemma_step_keeps_stall};
use crate::memory::{lemma_ram_write_then_read, lemma_read_keeps_ram, CPUMemory, Memory};
use crate::ppu::{Mirroring, PPU};
use crate::render::{dot_index, vblanks_within};
use crate::stack::stack_is_memory;

verus! {

/// Dots of the picture unit to one cycle of the processor.
pub const DOTS_PER_CYCLE: u64 = 3;

/// The whole machine around a cartridge `M`.
pub struct Console<M: Memory> {
    pub cpu: CPU<CPUMemory<M>>,
}

/// What one step of the console took and finished.
#[derive(Clone, Copy, Debug, PartialEq, Eq, Structural)]
pub struct StepResult {
    /// Cycles of the processor that the step took.
    pub cycles: u64,
    /// Frames that the picture unit finished during the step. The front
    /// frame holds the last of them.
    pub frames: u64,
}

impl<M: Memory> Console<M> {
    /// The ranges that every reachable state of the picture unit keeps.
    pub open spec fn wf(self) -> bool {
        self.cpu.memory.wf()
    }

    /// The picture unit.
    pub open spec fn ppu(self) -> PPU<M> {
        self.cpu.memory.ppu
    }

    /// This console with `ppu` for its picture unit.
    pub open spec fn with_ppu(self, ppu: PPU<M>) -> Self {
        Console { cpu: CPU { memory: CPUMemory { ppu, ..self.cpu.memory }, ..self.cpu } }
    }

    /// The console at power-on around a cartridge.
    #[verifier::rlimit(50)]
    pub fn new(cartridge: M, mirroring: Mirroring) -> (console: Self)
        ensures
            console.cpu == CPU::power_on(console.cpu.memory),
            console.ppu().is_power_on(cartridge, mirroring),
            !console.cpu.memory.dma_pending,
            forall|i: int| 0 <= i < 2048 ==> console.cpu.memory.ram[i] == 0,
            cartridge.inv() ==> console.wf(),
    {
        Console { cpu: CPU::new(CPUMemory::new(PPU::new(cartridge, mirroring))) }
    }

    /// The state after a reset of the processor and then of the picture
    /// unit.
    pub open spec fn after_reset(self) -> Self {
        let cpu = self.cpu.after_interrupt(IRQ::RESET);
        (Console { cpu }).with_ppu(cpu.memory.ppu.after_reset())
    }

    /// Resets the processor and then the picture unit. Memories are left as they
    /// are.
    #[verifier::rlimit(50)]
    pub fn reset(&mut self)
        ensures
            *final(self) == old(self).after_reset(),
            old(self).wf() ==> final(self).wf(),
    {
        self.cpu.reset();
        self.cpu.memory.ppu.reset();
    }

    /// The processor's part of a step: the processor steps; if that step ran
    /// a sprite DMA the processor is stalled for it; the countdown of the
    /// interrupt line moves one on, and an edge that it delivers is latched
    /// for the processor's next step.
    ///
    /// A processor whose stall counter cannot hold one more stall keeps the
    /// count it has. No processor that runs instructions is in that state:
    /// see `lemma_dma_stalls_the_processor`.
    pub open spec fn after_processor_step(self) -> Self {
        let stepped = self.cpu.after_step();
        let taken = CPU { memory: CPUMemory { dma_pending: false, ..stepped.memory }, ..stepped };
        let stalled = if stepped.memory.dma_pending && taken.spec_can_stall() {
            taken.after_dma_stall()
        } else {
            taken
        };
        let counted = CPU {
            memory: CPUMemory {
                ppu: stalled.memory.ppu.after_nmi_countdown(),
                ..stalled.memory
            },
            ..stalled
        };
        Console {
            cpu: if stalled.memory.ppu.nmi_fires() {
                counted.after_trigger_nmi()
            } else {
                counted
            },
        }
    }

    /// Whether one step leads from this state to `next` with the outcome
    /// `result`: after the processor's part, the picture unit runs three
    /// dots for each cycle taken, and nothing else changes.
    pub open spec fn steps_to(self, next: Self, result: StepResult) -> bool {
        let mid = self.after_processor_step();
        &&& result.cycles == self.cpu.step_cycles()
        &&& next == mid.with_ppu(next.ppu())
        &&& mid.ppu().runs_to(next.ppu(), (3 * result.cycles) as nat, result.frames as nat)
    }

    /// The processor's part of a step. Returns the cycles that the
    /// processor took.
    #[verifier::rlimit(50)]
    pub fn processor_step(&mut self) -> (cycles: u64)
        ensures
            *final(self) == old(self).after_processor_step(),
            cycles == old(self).cpu.step_cycles(),
            1 <= cycles <= 17,
            old(self).wf() ==> final(self).wf(),
    {
        proof {
            lemma_step_cycles(self.cpu);
        }
        let cycles: u64 = self.cpu.step();
        if self.cpu.memory.take_dma() && self.cpu.can_stall() {
            self.cpu.dma_stall();
        }
        if self.cpu.memory.ppu.nmi_countdown() {
            self.cpu.trigger_nmi();
        }
        cycles
    }

    /// One step of the console.
    #[verifier::rlimit(50)]
    pub fn step(&mut self) -> (result: StepResult)
        ensures
            old(self).steps_to(*final(self), result),
            1 <= result.cycles <= 17,
            result.frames <= 3 * result.cycles,
            old(self).wf() ==> final(self).wf(),
            ({
                let before = old(self).after_processor_step().ppu();
                before.on_screen() ==> {
                    &&& final(self).ppu().on_screen()
                    &&& dot_index(final(self).ppu()) == (dot_index(before) + 3 * result.cycles)
                        % 89342
                    &&& result.frames == vblanks_within(
                        dot_index(before),
                        (3 * result.cycles) as nat,
                    )
                }
            }),
    {
        let cycles: u64 = self.processor_step();
        let frames: u64 = self.cpu.memory.ppu.run(cycles * DOTS_PER_CYCLE);
        StepResult { cycles, frames }
    }
}

/// In the console the stack lies in work memory, which is plain memory: a
/// byte written there is read back until it is overwritten, and no read
/// of any address changes it. The laws of the stack hold of the console.
#[verifier::rlimit(50)]
pub proof fn lemma_console_stack_is_memory<M: Memory>()
    ensures
        stack_is_memory::<CPUMemory<M>>(),
{
    assert forall|bus: CPUMemory<M>, addr: u16, value: u8, other: u16|
        0x0100 <= addr < 0x0200 && 0x0100 <= other < 0x0200 implies #[trigger] bus.after_write(
        addr,
        value,
    ).read_value(other) == (if other == addr {
        value
    } else {
        bus.read_value(other)
    }) by {
        lemma_ram_write_then_read(bus, addr, value, other);
    }
    assert forall|bus: CPUMemory<M>, addr: u16, other: u16|
        0x0100 <= other < 0x0200 implies #[trigger] bus.after_read(addr).read_value(other)
        == bus.read_value(other) by {
        lemma_read_keeps_ram(bus, addr, other);
    }
}

/// A write to the sprite DMA port from the processor copies the page and
/// leaves the stall pending; the stall that the console then gives the
/// processor is 513 cycles on an even cycle and 514 on an odd one, on top
/// of what is left of an earlier stall.
#[verifier::rlimit(50)]
pub proof fn lemma_dma_write_stalls<M: Memory>(cpu: CPU<CPUMemory<M>>, page: u8)
    requires
        cpu.spec_can_stall(),
    ensures
        cpu.after_write(0x4014, page).memory.dma_pending,
        cpu.after_write(0x4014, page).memory == cpu.memory.after_dma(page),
        cpu.cycles % 2 == 0 ==> cpu.after_write(0x4014, page).after_dma_stall().stall == cpu.stall
            + 513,
        cpu.cycles % 2 == 1 ==> cpu.after_write(0x4014, page).after_dma_stall().stall == cpu.stall
            + 514,
{
}

/// A step in which the processor runs a sprite DMA stalls the processor
/// for 513 cycles when the instruction ends on an even cycle and for 514
/// when it ends on an odd one, whatever the state: a processor that runs an
/// instruction is not stalled, so the counter holds the stall.
#[verifier::rlimit(50)]
pub proof fn lemma_dma_stalls_the_processor<M: Memory>(console: Console<M>)
    requires
        console.cpu.stall == 0,
        console.cpu.after_step().memory.dma_pending,
    ensures
        console.cpu.after_step().cycles % 2 == 0 ==> console.after_processor_step().cpu.stall
            == 513,
        console.cpu.after_step().cycles % 2 == 1 ==> console.after_processor_step().cpu.stall
            == 514,
        !console.after_processor_step().cpu.memory.dma_pending,
{
    lemma_step_keeps_stall(console.cpu);
}

} // verus!
