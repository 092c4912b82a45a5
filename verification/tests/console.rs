use nes_core::console::{Console, StepResult};
use nes_core::cpu::IRQ;
use nes_core::memory::Memory;
use nes_core::ppu::Mirroring;

struct Cartridge {
    bytes: Vec<u8>,
}

impl Memory for Cartridge {
    fn read(&mut self, addr: u16) -> u8 {
        self.bytes[addr as usize]
    }

    fn write(&mut self, addr: u16, value: u8) {
        self.bytes[addr as usize] = value;
    }
}

fn console(program: &[u8]) -> Console<Cartridge> {
    let mut bytes = vec![0u8; 0x10000];
    for (i, b) in program.iter().enumerate() {
        bytes[0x8000 + i] = *b;
    }
    bytes[0xFFFC] = 0x00;
    bytes[0xFFFD] = 0x80;
    bytes[0xFFFA] = 0x00;
    bytes[0xFFFB] = 0x90;
    bytes[0x9000] = 0xE8;
    bytes[0x9001] = 0x40;
    let mut console = Console::new(Cartridge { bytes }, Mirroring::Vertical);
    console.reset();
    console
}

fn dot(console: &Console<Cartridge>) -> u64 {
    let ppu = &console.cpu.memory.ppu;
    ppu.frame * 89342 + ppu.scanline as u64 * 341 + ppu.cycle as u64
}

#[test]
fn power_on_and_reset_of_the_console() {
    let console = console(&[0xEA]);
    assert_eq!(console.cpu.pc, 0x8000);
    assert_eq!(console.cpu.sp, 0xFD);
    assert_eq!(console.cpu.cycles, 7);
    assert_eq!(console.cpu.memory.ppu.scanline, 240);
    assert_eq!(console.cpu.memory.ppu.cycle, 340);
    assert_eq!(console.cpu.memory.ppu.frame, 0);
    assert_eq!(console.cpu.memory.ppu.mirroring, Mirroring::Vertical);
    assert!(console.cpu.memory.ram.iter().all(|b| *b == 0));
}

#[test]
fn three_dots_follow_each_cycle() {
    let mut console = console(&[0xEA, 0xA9, 0x01, 0x8D, 0x00, 0x02, 0xFE, 0x00, 0x02]);
    console.cpu.memory.ppu.frame = 1;
    console.cpu.memory.ppu.scanline = 0;
    console.cpu.memory.ppu.cycle = 0;
    for cycles in [2u64, 2, 4, 7] {
        let before = dot(&console);
        let result = console.step();
        assert_eq!(result, StepResult { cycles, frames: 0 });
        assert_eq!(dot(&console), before + 3 * cycles);
    }
    assert_eq!(console.cpu.memory.ram[0x0200], 0x02);
}

#[test]
fn a_frame_finishes_once_per_pass() {
    let mut console = console(&[0xA9, 0x18, 0x8D, 0x01, 0x20, 0x4C, 0x05, 0x80]);
    let mut cycles = 0;
    let mut frames = 0;
    while cycles * 3 < 262 * 341 {
        let result = console.step();
        cycles += result.cycles;
        frames += result.frames;
    }
    assert_eq!(frames, 1);
    let passed = cycles * 3;
    let ppu = &console.cpu.memory.ppu;
    assert_eq!(ppu.frame * 89342 + ppu.scanline as u64 * 341 + ppu.cycle as u64, 240 * 341 + 340 + passed);
    assert_eq!(ppu.frame, 1);
}

#[test]
fn vertical_blank_interrupts_the_program() {
    let mut console = console(&[0xA9, 0x80, 0x8D, 0x00, 0x20, 0x4C, 0x05, 0x80]);
    let mut steps = 0;
    while console.cpu.pc < 0x9000 {
        console.step();
        steps += 1;
        assert!(steps < 1000);
    }
    assert_eq!(console.cpu.pc, 0x9001);
    assert_eq!(console.cpu.x, 1);
    assert_eq!(console.cpu.sp, 0xFA);
    assert_eq!(console.cpu.memory.ram[0x01FD], 0x80);
    assert_eq!(console.cpu.memory.ram[0x01FC], 0x05);
    assert!(console.cpu.memory.ppu.nmi_occurred);
    assert_eq!(console.cpu.interrupt, None);
    console.step();
    assert_eq!(console.cpu.pc, 0x8005);
    assert_eq!(console.cpu.sp, 0xFD);
}

#[test]
fn no_interrupt_while_the_unit_keeps_it_off() {
    let mut console = console(&[0x4C, 0x00, 0x80]);
    for _ in 0..40000 {
        console.step();
        assert_eq!(console.cpu.pc, 0x8000);
        assert_eq!(console.cpu.interrupt, None);
    }
    assert!(console.cpu.memory.ppu.frame >= 1);
}

#[test]
fn sprite_dma_through_the_console() {
    let mut program = vec![0xA2, 0x00];
    // loop: TXA; STA $0300,X; INX; BNE loop
    program.extend_from_slice(&[0x8A, 0x9D, 0x00, 0x03, 0xE8, 0xD0, 0xF9]);
    // LDA #$03; STA $4014; NOP
    program.extend_from_slice(&[0xA9, 0x03, 0x8D, 0x14, 0x40, 0xEA]);
    let mut console = console(&program);
    while console.cpu.pc != 0x800B {
        console.step();
    }
    assert_eq!(console.cpu.memory.ram[0x0300], 0);
    assert_eq!(console.cpu.memory.ram[0x03FF], 0xFF);
    let result = console.step();
    assert_eq!(result.cycles, 4);
    assert_eq!(console.cpu.pc, 0x800E);
    let parity = console.cpu.cycles % 2;
    assert_eq!(console.cpu.stall as u64, 513 + parity);
    assert!(!console.cpu.memory.dma_pending);
    for i in 0..256usize {
        assert_eq!(console.cpu.memory.ppu.oam_data[i], i as u8);
    }
    let mut waited = 0;
    while console.cpu.stall > 0 {
        let result = console.step();
        assert_eq!(result.cycles, 1);
        assert_eq!(console.cpu.pc, 0x800E);
        waited += 1;
    }
    assert_eq!(waited, 513 + parity);
    assert_eq!(console.step().cycles, 2);
    assert_eq!(console.cpu.pc, 0x800F);
}

#[test]
fn program_draws_through_the_ports() {
    // Sets palette entries 0 and 1, then turns the background on.
    let program = [
        0xA9, 0x3F, 0x8D, 0x06, 0x20, 0xA9, 0x00, 0x8D, 0x06, 0x20, 0xA9, 0x0F, 0x8D, 0x07, 0x20,
        0xA9, 0x16, 0x8D, 0x07, 0x20, 0xA9, 0x00, 0x8D, 0x06, 0x20, 0x8D, 0x06, 0x20, 0xA9, 0x0A,
        0x8D, 0x01, 0x20, 0x4C, 0x21, 0x80,
    ];
    let mut console = console(&program);
    for row in 0..8 {
        console.cpu.memory.ppu.memory.bytes[row] = 0xFF;
    }
    let mut frames = 0;
    while frames < 3 {
        frames += console.step().frames;
    }
    let ppu = &console.cpu.memory.ppu;
    assert_eq!(ppu.read_palette(0), 0x0F);
    assert_eq!(ppu.read_palette(1), 0x16);
    assert_eq!(ppu.front.pixel(128, 120), [0xB5, 0x31, 0x20, 0xFF]);
    assert_eq!(ppu.front.pixel(0, 0), [0xB5, 0x31, 0x20, 0xFF]);
}

#[test]
fn reset_during_a_run() {
    let mut console = console(&[0xE8, 0x4C, 0x00, 0x80]);
    for _ in 0..100 {
        console.step();
    }
    console.cpu.memory.ram[5] = 9;
    console.cpu.interrupt = Some(IRQ::NMI);
    console.reset();
    assert_eq!(console.cpu.pc, 0x8000);
    assert_eq!(console.cpu.sp, 0xFD);
    assert_eq!(console.cpu.interrupt, None);
    assert_eq!(console.cpu.memory.ppu.scanline, 240);
    assert_eq!(console.cpu.memory.ppu.cycle, 340);
    assert_eq!(console.cpu.memory.ppu.frame, 0);
    assert_eq!(console.cpu.memory.ram[5], 9);
    assert!(console.cpu.x > 0);
}

#[test]
fn processor_part_of_a_step_leaves_the_beam() {
    let mut console = console(&[0xA9, 0x01, 0xEA]);
    console.cpu.memory.ppu.scanline = 0;
    console.cpu.memory.ppu.cycle = 0;
    let before = dot(&console);
    assert_eq!(console.processor_step(), 2);
    assert_eq!(console.cpu.a, 1);
    assert_eq!(dot(&console), before);
    let result = console.step();
    assert_eq!(result, StepResult { cycles: 2, frames: 0 });
    assert_eq!(dot(&console), before + 6);
}

#[test]
fn a_full_stall_counter_keeps_its_count() {
    let mut console = console(&[0xEA]);
    console.cpu.stall = u32::MAX - 100;
    console.cpu.memory.dma_pending = true;
    let result = console.step();
    assert_eq!(result.cycles, 1);
    assert_eq!(console.cpu.stall, u32::MAX - 101);
    assert!(!console.cpu.memory.dma_pending);
    assert_eq!(console.cpu.pc, 0x8000);
}
