use nes_core::addressing::{branch_target, Operand};
use nes_core::cpu::{AddressMode, CPU, IRQ};
use nes_core::execute::{difference, shifted, sum};
use nes_core::memory::Memory;
use nes_core::opcodes::{decode, size, Instruction};

struct Flat {
    bytes: Vec<u8>,
}

impl Memory for Flat {
    fn read(&mut self, addr: u16) -> u8 {
        self.bytes[addr as usize]
    }

    fn write(&mut self, addr: u16, value: u8) {
        self.bytes[addr as usize] = value;
    }
}

fn machine(origin: u16, program: &[u8]) -> CPU<Flat> {
    let mut bytes = vec![0u8; 0x10000];
    for (i, b) in program.iter().enumerate() {
        bytes[origin as usize + i] = *b;
    }
    bytes[0xFFFC] = (origin % 256) as u8;
    bytes[0xFFFD] = (origin / 256) as u8;
    let mut cpu = CPU::new(Flat { bytes });
    cpu.reset();
    cpu
}

fn state(cpu: &CPU<Flat>) -> (u16, u8, u8, u8, u8, u64) {
    (cpu.pc, cpu.a, cpu.x, cpu.y, cpu.status(), cpu.cycles)
}

#[test]
fn power_on_and_reset() {
    let mut bytes = vec![0u8; 0x10000];
    bytes[0xFFFC] = 0x34;
    bytes[0xFFFD] = 0x12;
    let mut cpu = CPU::new(Flat { bytes });
    assert_eq!(cpu.pc, 0);
    assert_eq!(cpu.sp, 0xFD);
    assert_eq!(cpu.cycles, 0);
    cpu.a = 9;
    cpu.c = true;
    cpu.d = true;
    cpu.sp = 0x10;
    cpu.stall = 4;
    cpu.interrupt = Some(IRQ::NMI);
    cpu.reset();
    assert_eq!(cpu.pc, 0x1234);
    assert_eq!(cpu.sp, 0xFD);
    assert_eq!(cpu.status(), 0x24);
    assert_eq!(cpu.cycles, 7);
    assert_eq!(cpu.stall, 0);
    assert_eq!(cpu.interrupt, None);
    assert_eq!(cpu.a, 9);
    assert!(cpu.memory.bytes[0x0100..0x0200].iter().all(|b| *b == 0));
}

#[test]
fn trace_of_a_counting_loop() {
    let program = [
        0xA2, 0x00, 0xA9, 0x05, 0x18, 0x69, 0x03, 0x95, 0x10, 0xE8, 0xE0, 0x03, 0xD0, 0xF7, 0x20,
        0x13, 0x80, 0xEA, 0x00, 0x38, 0xE9, 0x10, 0x60,
    ];
    let mut cpu = machine(0x8000, &program);
    let expected: [(u16, u8, u8, u8, u8, u64); 24] = [
        (0x8000, 0x00, 0x00, 0x00, 0x24, 7),
        (0x8002, 0x00, 0x00, 0x00, 0x26, 9),
        (0x8004, 0x05, 0x00, 0x00, 0x24, 11),
        (0x8005, 0x05, 0x00, 0x00, 0x24, 13),
        (0x8007, 0x08, 0x00, 0x00, 0x24, 15),
        (0x8009, 0x08, 0x00, 0x00, 0x24, 19),
        (0x800A, 0x08, 0x01, 0x00, 0x24, 21),
        (0x800C, 0x08, 0x01, 0x00, 0xA4, 23),
        (0x8005, 0x08, 0x01, 0x00, 0xA4, 26),
        (0x8007, 0x0B, 0x01, 0x00, 0x24, 28),
        (0x8009, 0x0B, 0x01, 0x00, 0x24, 32),
        (0x800A, 0x0B, 0x02, 0x00, 0x24, 34),
        (0x800C, 0x0B, 0x02, 0x00, 0xA4, 36),
        (0x8005, 0x0B, 0x02, 0x00, 0xA4, 39),
        (0x8007, 0x0E, 0x02, 0x00, 0x24, 41),
        (0x8009, 0x0E, 0x02, 0x00, 0x24, 45),
        (0x800A, 0x0E, 0x03, 0x00, 0x24, 47),
        (0x800C, 0x0E, 0x03, 0x00, 0x27, 49),
        (0x800E, 0x0E, 0x03, 0x00, 0x27, 51),
        (0x8013, 0x0E, 0x03, 0x00, 0x27, 57),
        (0x8014, 0x0E, 0x03, 0x00, 0x27, 59),
        (0x8016, 0xFE, 0x03, 0x00, 0xA4, 61),
        (0x8011, 0xFE, 0x03, 0x00, 0xA4, 67),
        (0x8012, 0xFE, 0x03, 0x00, 0xA4, 69),
    ];
    for (i, line) in expected.iter().enumerate() {
        assert_eq!(state(&cpu), *line, "before step {}", i);
        if i + 1 < expected.len() {
            let cycles = cpu.step();
            assert_eq!(cycles, expected[i + 1].5 - line.5);
        }
    }
    assert_eq!(cpu.memory.bytes[0x10..0x13], [0x08, 0x0B, 0x0E]);
    assert_eq!(cpu.sp, 0xFD);
    assert_eq!(cpu.memory.bytes[0x01FD], 0x80);
    assert_eq!(cpu.memory.bytes[0x01FC], 0x10);
}

#[test]
fn trace_of_jumps_and_branches() {
    let mut bytes = vec![0u8; 0x10000];
    let mut put = |at: usize, code: &[u8]| {
        for (i, b) in code.iter().enumerate() {
            bytes[at + i] = *b;
        }
    };
    put(0xC000, &[0x4C, 0xF5, 0xC5]);
    put(0xC5F5, &[0xA2, 0x00, 0x86, 0x00, 0x86, 0x10, 0x86, 0x11, 0x20, 0x2D, 0xC7]);
    put(0xC72D, &[0xEA, 0x38, 0xB0, 0x04]);
    put(0xC735, &[0xEA, 0x18, 0xB0, 0x03, 0x4C, 0x40, 0xC7]);
    put(0xC740, &[0xEA, 0x38, 0x90, 0x03, 0x4C, 0x4B, 0xC7]);
    put(0xC74B, &[0xEA]);
    put(0xFFFC, &[0x00, 0xC0]);
    let mut cpu = CPU::new(Flat { bytes });
    cpu.reset();
    let expected: [(u16, u8, u8, u8, u8, u8, u64); 18] = [
        (0xC000, 0x00, 0x00, 0x00, 0x24, 0xFD, 7),
        (0xC5F5, 0x00, 0x00, 0x00, 0x24, 0xFD, 10),
        (0xC5F7, 0x00, 0x00, 0x00, 0x26, 0xFD, 12),
        (0xC5F9, 0x00, 0x00, 0x00, 0x26, 0xFD, 15),
        (0xC5FB, 0x00, 0x00, 0x00, 0x26, 0xFD, 18),
        (0xC5FD, 0x00, 0x00, 0x00, 0x26, 0xFD, 21),
        (0xC72D, 0x00, 0x00, 0x00, 0x26, 0xFB, 27),
        (0xC72E, 0x00, 0x00, 0x00, 0x26, 0xFB, 29),
        (0xC72F, 0x00, 0x00, 0x00, 0x27, 0xFB, 31),
        (0xC735, 0x00, 0x00, 0x00, 0x27, 0xFB, 34),
        (0xC736, 0x00, 0x00, 0x00, 0x27, 0xFB, 36),
        (0xC737, 0x00, 0x00, 0x00, 0x26, 0xFB, 38),
        (0xC739, 0x00, 0x00, 0x00, 0x26, 0xFB, 40),
        (0xC740, 0x00, 0x00, 0x00, 0x26, 0xFB, 43),
        (0xC741, 0x00, 0x00, 0x00, 0x26, 0xFB, 45),
        (0xC742, 0x00, 0x00, 0x00, 0x27, 0xFB, 47),
        (0xC744, 0x00, 0x00, 0x00, 0x27, 0xFB, 49),
        (0xC74B, 0x00, 0x00, 0x00, 0x27, 0xFB, 52),
    ];
    for (i, line) in expected.iter().enumerate() {
        assert_eq!(
            (cpu.pc, cpu.a, cpu.x, cpu.y, cpu.status(), cpu.sp, cpu.cycles),
            *line,
            "before step {}",
            i
        );
        cpu.step();
    }
}

#[test]
fn opcodes_decode() {
    let lda = decode(0xA9);
    assert_eq!(lda.instruction, Instruction::LDA);
    assert_eq!(lda.mode, AddressMode::Immediate);
    assert_eq!((lda.cycles, lda.page_cycles), (2, 0));
    let sta = decode(0x9D);
    assert_eq!(sta.instruction, Instruction::STA);
    assert_eq!(sta.mode, AddressMode::AbsoluteX);
    assert_eq!((sta.cycles, sta.page_cycles), (5, 0));
    let cpa = decode(0xD1);
    assert_eq!(cpa.instruction, Instruction::CPA);
    assert_eq!(cpa.mode, AddressMode::IndirectIndexed);
    assert_eq!((cpa.cycles, cpa.page_cycles), (5, 1));
    let jmp = decode(0x6C);
    assert_eq!(jmp.instruction, Instruction::JMP);
    assert_eq!(jmp.mode, AddressMode::Indirect);
    assert_eq!(jmp.cycles, 5);
    let brk = decode(0x00);
    assert_eq!(brk.instruction, Instruction::BRK);
    assert_eq!(brk.cycles, 7);
    let ldx = decode(0xB6);
    assert_eq!(ldx.instruction, Instruction::LDX);
    assert_eq!(ldx.mode, AddressMode::ZeroPageY);
    let mut official = 0;
    for opcode in 0..=255u8 {
        let op = decode(opcode);
        if op.instruction != Instruction::NOP || opcode == 0xEA {
            official += 1;
        } else {
            assert_eq!(op.mode, AddressMode::Implied);
            assert_eq!((op.cycles, op.page_cycles), (2, 0));
        }
    }
    assert_eq!(official, 151);
    assert_eq!(size(AddressMode::Implied), 1);
    assert_eq!(size(AddressMode::Accumulator), 1);
    assert_eq!(size(AddressMode::Immediate), 2);
    assert_eq!(size(AddressMode::Relative), 2);
    assert_eq!(size(AddressMode::IndirectIndexed), 2);
    assert_eq!(size(AddressMode::Absolute), 3);
    assert_eq!(size(AddressMode::Indirect), 3);
}

#[test]
fn an_undocumented_opcode_is_a_two_cycle_no_operation() {
    let mut cpu = machine(0x8000, &[0x02, 0xFF, 0x1A]);
    let before = state(&cpu);
    for n in 1..=3u16 {
        assert_eq!(cpu.step(), 2);
        assert_eq!(cpu.pc, 0x8000 + n);
    }
    assert_eq!((cpu.a, cpu.x, cpu.y, cpu.status(), cpu.sp), (before.1, before.2, before.3, before.4, 0xFD));
    assert_eq!(cpu.cycles, before.5 + 6);
}

#[test]
fn sums_and_differences() {
    let s = sum(0x50, 0x50, false);
    assert_eq!((s.result, s.carry, s.overflow), (0xA0, false, true));
    let s = sum(0xD0, 0x90, false);
    assert_eq!((s.result, s.carry, s.overflow), (0x60, true, true));
    let s = sum(0x50, 0x10, false);
    assert_eq!((s.result, s.carry, s.overflow), (0x60, false, false));
    let s = sum(0xFF, 0x00, true);
    assert_eq!((s.result, s.carry, s.overflow), (0x00, true, false));
    let s = sum(0x7F, 0x00, true);
    assert_eq!((s.result, s.carry, s.overflow), (0x80, false, true));
    let d = difference(0x50, 0xF0, true);
    assert_eq!((d.result, d.carry, d.overflow), (0x60, false, false));
    let d = difference(0x50, 0xB0, true);
    assert_eq!((d.result, d.carry, d.overflow), (0xA0, false, true));
    let d = difference(0xD0, 0x70, true);
    assert_eq!((d.result, d.carry, d.overflow), (0x60, true, true));
    let d = difference(0x05, 0x05, true);
    assert_eq!((d.result, d.carry, d.overflow), (0x00, true, false));
    let d = difference(0x00, 0x00, false);
    assert_eq!((d.result, d.carry, d.overflow), (0xFF, false, false));
    let d = difference(0x80, 0x00, false);
    assert_eq!((d.result, d.carry, d.overflow), (0x7F, true, true));
}

#[test]
fn shifts_and_rotates() {
    assert_eq!(shifted(Instruction::ASL, 0x81, false), (0x02, true));
    assert_eq!(shifted(Instruction::ASL, 0x40, true), (0x80, false));
    assert_eq!(shifted(Instruction::LSR, 0x81, true), (0x40, true));
    assert_eq!(shifted(Instruction::ROL, 0x81, true), (0x03, true));
    assert_eq!(shifted(Instruction::ROL, 0x40, false), (0x80, false));
    assert_eq!(shifted(Instruction::ROR, 0x81, true), (0xC0, true));
    assert_eq!(shifted(Instruction::ROR, 0x02, false), (0x01, false));
    assert_eq!(shifted(Instruction::NOP, 0x55, true), (0x55, true));
}

#[test]
fn add_and_subtract_set_flags() {
    let mut cpu = machine(0x8000, &[0xA9, 0x50, 0x69, 0x50, 0x38, 0xE9, 0xB0, 0xE9, 0x00]);
    cpu.step();
    cpu.step();
    assert_eq!(cpu.a, 0xA0);
    assert!(cpu.v && cpu.n && !cpu.c && !cpu.z);
    cpu.step();
    cpu.step();
    assert_eq!(cpu.a, 0xF0);
    assert!(!cpu.v && cpu.n && !cpu.c && !cpu.z);
    cpu.step();
    assert_eq!(cpu.a, 0xEF);
    assert!(cpu.c);
}

#[test]
fn logic_and_bit_test() {
    let mut cpu = machine(
        0x8000,
        &[0xA9, 0xF0, 0x29, 0x3C, 0x09, 0x03, 0x49, 0xFF, 0x24, 0x10, 0xA9, 0x01, 0x24, 0x10],
    );
    cpu.memory.bytes[0x10] = 0xC0;
    cpu.step();
    cpu.step();
    assert_eq!(cpu.a, 0x30);
    cpu.step();
    assert_eq!(cpu.a, 0x33);
    cpu.step();
    assert_eq!(cpu.a, 0xCC);
    assert!(cpu.n);
    cpu.step();
    assert!(cpu.n && cpu.v && !cpu.z);
    assert_eq!(cpu.a, 0xCC);
    cpu.step();
    cpu.step();
    assert!(cpu.n && cpu.v && cpu.z);
}

#[test]
fn compares() {
    let mut cpu = machine(0x8000, &[0xA9, 0x40, 0xC9, 0x40, 0xC9, 0x41, 0xC9, 0x3F, 0xA0, 0x80, 0xC0, 0x7F]);
    cpu.step();
    cpu.step();
    assert!(cpu.c && cpu.z && !cpu.n);
    cpu.step();
    assert!(!cpu.c && !cpu.z && cpu.n);
    cpu.step();
    assert!(cpu.c && !cpu.z && !cpu.n);
    cpu.step();
    cpu.step();
    assert!(cpu.c && !cpu.z && !cpu.n);
    assert_eq!(cpu.a, 0x40);
    assert_eq!(cpu.y, 0x80);
}

#[test]
fn read_modify_write() {
    let mut cpu = machine(
        0x8000,
        &[0xE6, 0x10, 0xC6, 0x11, 0x0E, 0x00, 0x02, 0x6A, 0x38, 0x6A, 0x5E, 0x00, 0x02],
    );
    cpu.memory.bytes[0x10] = 0xFF;
    cpu.memory.bytes[0x11] = 0x00;
    cpu.memory.bytes[0x0200] = 0xC1;
    assert_eq!(cpu.step(), 5);
    assert_eq!(cpu.memory.bytes[0x10], 0x00);
    assert!(cpu.z && !cpu.n && !cpu.c);
    assert_eq!(cpu.step(), 5);
    assert_eq!(cpu.memory.bytes[0x11], 0xFF);
    assert!(!cpu.z && cpu.n && !cpu.c);
    assert_eq!(cpu.step(), 6);
    assert_eq!(cpu.memory.bytes[0x0200], 0x82);
    assert!(cpu.c && cpu.n);
    cpu.a = 0x01;
    assert_eq!(cpu.step(), 2);
    assert_eq!(cpu.a, 0x80);
    assert!(cpu.c && cpu.n);
    cpu.step();
    cpu.a = 0x00;
    cpu.step();
    assert_eq!(cpu.a, 0x80);
    assert!(!cpu.c);
    cpu.x = 0;
    assert_eq!(cpu.step(), 7);
    assert_eq!(cpu.memory.bytes[0x0200], 0x41);
    assert!(!cpu.c && !cpu.n);
}

#[test]
fn registers_move_and_count() {
    let mut cpu = machine(
        0x8000,
        &[0xA9, 0xFF, 0xAA, 0xE8, 0xCA, 0xA8, 0xC8, 0x88, 0x8A, 0x98, 0x9A, 0xBA, 0xA2, 0x00, 0x9A],
    );
    cpu.step();
    cpu.step();
    assert_eq!(cpu.x, 0xFF);
    assert!(cpu.n);
    cpu.step();
    assert_eq!(cpu.x, 0x00);
    assert!(cpu.z);
    cpu.step();
    assert_eq!(cpu.x, 0xFF);
    cpu.step();
    assert_eq!(cpu.y, 0xFF);
    cpu.step();
    assert_eq!(cpu.y, 0x00);
    cpu.step();
    assert_eq!(cpu.y, 0xFF);
    cpu.step();
    cpu.step();
    cpu.step();
    assert_eq!(cpu.sp, 0xFF);
    cpu.step();
    assert_eq!(cpu.x, 0xFF);
    cpu.step();
    let flags = cpu.status();
    cpu.step();
    assert_eq!(cpu.sp, 0x00);
    assert_eq!(cpu.status(), flags);
}

#[test]
fn flag_instructions() {
    let mut cpu = machine(0x8000, &[0x38, 0xF8, 0x58, 0x18, 0xD8, 0x78, 0xB8]);
    cpu.v = true;
    cpu.step();
    assert!(cpu.c);
    cpu.step();
    assert!(cpu.d);
    cpu.step();
    assert!(!cpu.i);
    cpu.step();
    assert!(!cpu.c);
    cpu.step();
    assert!(!cpu.d);
    cpu.step();
    assert!(cpu.i);
    cpu.step();
    assert!(!cpu.v);
    assert_eq!(cpu.cycles, 7 + 14);
}

#[test]
fn branches_cost_more_when_taken_and_when_leaving_the_page() {
    let mut cpu = machine(0x80F0, &[0x18, 0xB0, 0x10, 0x90, 0x7F]);
    cpu.memory.bytes[0x8174] = 0x90;
    cpu.memory.bytes[0x8175] = 0x01;
    cpu.memory.bytes[0x8177] = 0x90;
    cpu.memory.bytes[0x8178] = 0x86;
    assert_eq!(cpu.step(), 2);
    assert_eq!(cpu.step(), 2);
    assert_eq!(cpu.pc, 0x80F3);
    assert_eq!(cpu.step(), 4);
    assert_eq!(cpu.pc, 0x8174);
    assert_eq!(cpu.step(), 3);
    assert_eq!(cpu.pc, 0x8177);
    assert_eq!(cpu.step(), 4);
    assert_eq!(cpu.pc, 0x80FF);
    assert_eq!(branch_target(0x8000, 0xFE), 0x8000);
    assert_eq!(branch_target(0x8000, 0x80), 0x7F82);
    assert_eq!(branch_target(0x8000, 0x7F), 0x8081);
    assert_eq!(branch_target(0xFFFE, 0x10), 0x0010);
    assert_eq!(branch_target(0x0000, 0x80), 0xFF82);
}

#[test]
fn every_branch_looks_at_its_flag() {
    for (opcode, set) in [
        (0x90u8, 0x00u8),
        (0xB0, 0x01),
        (0xF0, 0x02),
        (0xD0, 0x00),
        (0x30, 0x80),
        (0x10, 0x00),
        (0x50, 0x00),
        (0x70, 0x40),
    ] {
        let mut cpu = machine(0x8000, &[opcode, 0x10]);
        cpu.set_status(set);
        assert_eq!(cpu.step(), 3, "opcode {:02X} taken", opcode);
        assert_eq!(cpu.pc, 0x8012);
        let mut cpu = machine(0x8000, &[opcode, 0x10]);
        cpu.set_status(set ^ 0xC3);
        assert_eq!(cpu.step(), 2, "opcode {:02X} not taken", opcode);
        assert_eq!(cpu.pc, 0x8002);
    }
}

#[test]
fn indexing_across_a_page_costs_a_cycle() {
    let mut cpu = machine(
        0x8000,
        &[0xBD, 0xF0, 0x02, 0xBD, 0x00, 0x02, 0xB9, 0xFF, 0x02, 0x9D, 0xF0, 0x02, 0xB1, 0x20, 0xB1, 0x22],
    );
    cpu.x = 0x20;
    cpu.y = 0x01;
    cpu.memory.bytes[0x0310] = 0x77;
    cpu.memory.bytes[0x0220] = 0x66;
    cpu.memory.bytes[0x0300] = 0x55;
    cpu.memory.bytes[0x20] = 0xFF;
    cpu.memory.bytes[0x21] = 0x03;
    cpu.memory.bytes[0x22] = 0x00;
    cpu.memory.bytes[0x23] = 0x04;
    cpu.memory.bytes[0x0400] = 0x44;
    cpu.memory.bytes[0x0401] = 0x33;
    assert_eq!(cpu.step(), 5);
    assert_eq!(cpu.a, 0x77);
    assert_eq!(cpu.step(), 4);
    assert_eq!(cpu.a, 0x66);
    assert_eq!(cpu.step(), 5);
    assert_eq!(cpu.a, 0x55);
    cpu.a = 0x99;
    assert_eq!(cpu.step(), 5);
    assert_eq!(cpu.memory.bytes[0x0310], 0x99);
    assert_eq!(cpu.step(), 6);
    assert_eq!(cpu.a, 0x44);
    assert_eq!(cpu.step(), 5);
    assert_eq!(cpu.a, 0x33);
}

#[test]
fn addressing_modes_resolve() {
    let mut cpu = machine(0x8000, &[0x00, 0xF0, 0x02]);
    cpu.x = 0x20;
    cpu.y = 0x30;
    cpu.memory.bytes[0x10] = 0x34;
    cpu.memory.bytes[0x11] = 0x12;
    cpu.memory.bytes[0xF0] = 0xE0;
    cpu.memory.bytes[0xF1] = 0x12;
    cpu.memory.bytes[0x02F0] = 0xFF;
    cpu.memory.bytes[0x02F1] = 0x40;
    let at = |cpu: &mut CPU<Flat>, mode| cpu.resolve(mode);
    assert_eq!(at(&mut cpu, AddressMode::Absolute), Operand { address: 0x02F0, page_crossed: false });
    assert_eq!(at(&mut cpu, AddressMode::AbsoluteX), Operand { address: 0x0310, page_crossed: true });
    assert_eq!(at(&mut cpu, AddressMode::AbsoluteY), Operand { address: 0x0320, page_crossed: true });
    assert_eq!(at(&mut cpu, AddressMode::Accumulator), Operand { address: 0, page_crossed: false });
    assert_eq!(at(&mut cpu, AddressMode::Implied), Operand { address: 0, page_crossed: false });
    assert_eq!(at(&mut cpu, AddressMode::Immediate), Operand { address: 0x8001, page_crossed: false });
    assert_eq!(at(&mut cpu, AddressMode::ZeroPage), Operand { address: 0x00F0, page_crossed: false });
    assert_eq!(at(&mut cpu, AddressMode::ZeroPageX), Operand { address: 0x0010, page_crossed: false });
    assert_eq!(at(&mut cpu, AddressMode::ZeroPageY), Operand { address: 0x0020, page_crossed: false });
    assert_eq!(at(&mut cpu, AddressMode::IndexedIndirect), Operand { address: 0x1234, page_crossed: false });
    assert_eq!(at(&mut cpu, AddressMode::IndirectIndexed), Operand { address: 0x1310, page_crossed: true });
    assert_eq!(at(&mut cpu, AddressMode::Indirect), Operand { address: 0x40FF, page_crossed: false });
    assert_eq!(at(&mut cpu, AddressMode::Relative), Operand { address: 0x7FF2, page_crossed: false });
    assert_eq!(cpu.pc, 0x8000);
    cpu.y = 0x10;
    assert_eq!(at(&mut cpu, AddressMode::IndirectIndexed), Operand { address: 0x12F0, page_crossed: false });
}

#[test]
fn indirect_fetch_stays_in_its_page() {
    let mut cpu = machine(0x8000, &[0x6C, 0xFF, 0x02]);
    cpu.memory.bytes[0x02FF] = 0x34;
    cpu.memory.bytes[0x0300] = 0x56;
    cpu.memory.bytes[0x0200] = 0x12;
    assert_eq!(cpu.step(), 5);
    assert_eq!(cpu.pc, 0x1234);
    let mut cpu = machine(0x8000, &[0xA1, 0xFF]);
    cpu.x = 0;
    cpu.memory.bytes[0x00FF] = 0x00;
    cpu.memory.bytes[0x0000] = 0x03;
    cpu.memory.bytes[0x0100] = 0x07;
    cpu.memory.bytes[0x0300] = 0x5A;
    assert_eq!(cpu.step(), 6);
    assert_eq!(cpu.a, 0x5A);
    cpu.memory.bytes[0x02FF] = 0x34;
    cpu.memory.bytes[0x0300] = 0x56;
    cpu.memory.bytes[0x0200] = 0x12;
    assert_eq!(cpu.read16_in_page(0x02FF), 0x1234);
    assert_eq!(cpu.read16(0x02FF), 0x5634);
    assert_eq!(cpu.read16(0xFFFF), 0x0300 | cpu.memory.bytes[0xFFFF] as u16);
}

#[test]
fn stack_grows_down_in_page_one_and_wraps() {
    let mut cpu = machine(0x8000, &[]);
    cpu.sp = 0x01;
    cpu.push(0xAA);
    cpu.push(0xBB);
    cpu.push(0xCC);
    assert_eq!(cpu.sp, 0xFE);
    assert_eq!(cpu.memory.bytes[0x0101], 0xAA);
    assert_eq!(cpu.memory.bytes[0x0100], 0xBB);
    assert_eq!(cpu.memory.bytes[0x01FF], 0xCC);
    assert_eq!(cpu.pull(), 0xCC);
    assert_eq!(cpu.pull(), 0xBB);
    assert_eq!(cpu.pull(), 0xAA);
    assert_eq!(cpu.sp, 0x01);
    cpu.push16(0x1234);
    assert_eq!(cpu.memory.bytes[0x0101], 0x12);
    assert_eq!(cpu.memory.bytes[0x0100], 0x34);
    assert_eq!(cpu.pull16(), 0x1234);
}

#[test]
fn pushes_and_pulls() {
    let mut cpu = machine(0x8000, &[0xA9, 0x80, 0x48, 0x08, 0xA9, 0x00, 0x68, 0x68, 0x28]);
    cpu.step();
    assert_eq!(cpu.step(), 3);
    assert_eq!(cpu.memory.bytes[0x01FD], 0x80);
    assert_eq!(cpu.step(), 3);
    assert_eq!(cpu.memory.bytes[0x01FC], 0xB4);
    assert_eq!(cpu.status(), 0xA4);
    cpu.step();
    assert!(cpu.z);
    assert_eq!(cpu.step(), 4);
    assert_eq!(cpu.a, 0xB4);
    assert!(cpu.n && !cpu.z);
    assert_eq!(cpu.step(), 4);
    assert_eq!(cpu.a, 0x80);
    assert_eq!(cpu.sp, 0xFD);
    cpu.memory.bytes[0x01FE] = 0xFF;
    assert_eq!(cpu.step(), 4);
    assert_eq!(cpu.status(), 0xEF);
    assert!(!cpu.b);
    assert!(cpu.c && cpu.z && cpu.i && cpu.d && cpu.v && cpu.n);
}

#[test]
fn status_byte_round_trip() {
    let mut cpu = machine(0x8000, &[]);
    for p in 0..=255u8 {
        cpu.set_status(p);
        assert_eq!(cpu.status(), (p & 0xEF) | 0x20);
    }
}

#[test]
fn call_and_return() {
    let mut cpu = machine(0x8000, &[0x20, 0x00, 0x90]);
    cpu.memory.bytes[0x9000] = 0x60;
    assert_eq!(cpu.step(), 6);
    assert_eq!(cpu.pc, 0x9000);
    assert_eq!(cpu.sp, 0xFB);
    assert_eq!(cpu.memory.bytes[0x01FD], 0x80);
    assert_eq!(cpu.memory.bytes[0x01FC], 0x02);
    assert_eq!(cpu.step(), 6);
    assert_eq!(cpu.pc, 0x8003);
    assert_eq!(cpu.sp, 0xFD);
}

#[test]
fn software_interrupt_and_return() {
    let mut cpu = machine(0x8000, &[0x00, 0xEA, 0xEA]);
    cpu.memory.bytes[0xFFFE] = 0x00;
    cpu.memory.bytes[0xFFFF] = 0x90;
    cpu.memory.bytes[0x9000] = 0x40;
    cpu.i = false;
    cpu.c = true;
    assert_eq!(cpu.step(), 7);
    assert_eq!(cpu.pc, 0x9000);
    assert!(cpu.i);
    assert_eq!(cpu.memory.bytes[0x01FD], 0x80);
    assert_eq!(cpu.memory.bytes[0x01FC], 0x02);
    assert_eq!(cpu.memory.bytes[0x01FB], 0x31);
    assert_eq!(cpu.step(), 6);
    assert_eq!(cpu.pc, 0x8002);
    assert_eq!(cpu.status(), 0x21);
    assert_eq!(cpu.sp, 0xFD);
}

#[test]
fn non_maskable_interrupt_is_entered_before_the_next_fetch() {
    let mut cpu = machine(0x8000, &[0xEA, 0xEA]);
    cpu.memory.bytes[0xFFFA] = 0x00;
    cpu.memory.bytes[0xFFFB] = 0x90;
    cpu.memory.bytes[0x9000] = 0xE8;
    cpu.step();
    cpu.trigger_nmi();
    assert_eq!(cpu.interrupt, Some(IRQ::NMI));
    assert_eq!(cpu.step(), 9);
    assert_eq!(cpu.interrupt, None);
    assert_eq!(cpu.pc, 0x9001);
    assert_eq!(cpu.x, 1);
    assert_eq!(cpu.memory.bytes[0x01FD], 0x80);
    assert_eq!(cpu.memory.bytes[0x01FC], 0x01);
    assert_eq!(cpu.memory.bytes[0x01FB], 0x24);
    assert_eq!(cpu.sp, 0xFA);
    assert!(cpu.i);
}

#[test]
fn request_is_masked_by_interrupt_disable() {
    let mut cpu = machine(0x8000, &[0xEA, 0x58, 0xEA, 0xEA]);
    cpu.memory.bytes[0xFFFE] = 0x00;
    cpu.memory.bytes[0xFFFF] = 0xA0;
    cpu.memory.bytes[0xA000] = 0xEA;
    cpu.trigger_irq();
    assert_eq!(cpu.interrupt, None);
    cpu.step();
    cpu.step();
    cpu.trigger_irq();
    assert_eq!(cpu.interrupt, Some(IRQ::Normal));
    cpu.trigger_nmi();
    cpu.interrupt = Some(IRQ::Normal);
    assert_eq!(cpu.step(), 9);
    assert_eq!(cpu.pc, 0xA001);
    assert_eq!(cpu.memory.bytes[0x01FB], 0x20);
    assert!(cpu.i);
    cpu.trigger_irq();
    assert_eq!(cpu.interrupt, None);
}

#[test]
fn entry_sequence_by_kind() {
    let mut cpu = machine(0x8000, &[]);
    cpu.memory.bytes[0xFFFA] = 0x11;
    cpu.memory.bytes[0xFFFB] = 0x22;
    cpu.memory.bytes[0xFFFE] = 0x33;
    cpu.memory.bytes[0xFFFF] = 0x44;
    cpu.i = false;
    cpu.interrupt(IRQ::Normal);
    assert_eq!(cpu.pc, 0x4433);
    assert_eq!(cpu.cycles, 14);
    assert_eq!(cpu.sp, 0xFA);
    cpu.interrupt(IRQ::NMI);
    assert_eq!(cpu.pc, 0x2211);
    assert_eq!(cpu.sp, 0xF7);
    assert_eq!(cpu.memory.bytes[0x01FA], 0x44);
    assert_eq!(cpu.memory.bytes[0x01F9], 0x33);
    assert_eq!(cpu.memory.bytes[0x01F8], 0x24);
    let stack: Vec<u8> = cpu.memory.bytes[0x0100..0x0200].to_vec();
    cpu.interrupt(IRQ::RESET);
    assert_eq!(cpu.pc, 0x8000);
    assert_eq!(cpu.sp, 0xFD);
    assert_eq!(cpu.cycles, 28);
    assert_eq!(cpu.memory.bytes[0x0100..0x0200], stack[..]);
}

#[test]
fn a_stalled_processor_waits() {
    let mut cpu = machine(0x8000, &[0xE8]);
    cpu.stall = 2;
    assert_eq!(cpu.step(), 1);
    assert_eq!(cpu.step(), 1);
    assert_eq!(cpu.x, 0);
    assert_eq!(cpu.pc, 0x8000);
    assert_eq!(cpu.cycles, 9);
    assert_eq!(cpu.step(), 2);
    assert_eq!(cpu.x, 1);
}

#[test]
fn sprite_dma_stalls_for_513_or_514_cycles() {
    let mut cpu = machine(0x8000, &[]);
    cpu.cycles = 100;
    cpu.dma_stall();
    assert_eq!(cpu.stall, 513);
    cpu.stall = 0;
    cpu.cycles = 101;
    cpu.dma_stall();
    assert_eq!(cpu.stall, 514);
    cpu.cycles = 102;
    assert!(cpu.can_stall());
    cpu.dma_stall();
    assert_eq!(cpu.stall, 514 + 513);
    cpu.stall = u32::MAX - 514;
    cpu.cycles = 7;
    assert!(cpu.can_stall());
    cpu.dma_stall();
    assert_eq!(cpu.stall, u32::MAX);
    assert!(!cpu.can_stall());
    cpu.stall = u32::MAX - 513;
    assert!(!cpu.can_stall());
}

#[test]
fn cycle_counter_wraps() {
    let mut cpu = machine(0x8000, &[0xEA]);
    cpu.cycles = u64::MAX;
    assert_eq!(cpu.step(), 2);
    assert_eq!(cpu.cycles, 1);
}

#[test]
fn stores() {
    let mut cpu = machine(0x8000, &[0x85, 0x10, 0x86, 0x11, 0x84, 0x12, 0x96, 0x20, 0x91, 0x30]);
    cpu.a = 1;
    cpu.x = 2;
    cpu.y = 3;
    cpu.memory.bytes[0x30] = 0xFE;
    cpu.memory.bytes[0x31] = 0x02;
    assert_eq!(cpu.step(), 3);
    assert_eq!(cpu.step(), 3);
    assert_eq!(cpu.step(), 3);
    assert_eq!(cpu.step(), 4);
    assert_eq!(cpu.step(), 6);
    assert_eq!(cpu.memory.bytes[0x10..0x13], [1, 2, 3]);
    assert_eq!(cpu.memory.bytes[0x23], 2);
    assert_eq!(cpu.memory.bytes[0x0301], 1);
    assert_eq!(cpu.status(), 0x24);
}
