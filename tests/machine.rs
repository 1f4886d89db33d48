use chip8::cpu::Cpu;
use chip8::display::Display;
use chip8::error::CpuError;
use chip8::instruction::{decode, Instruction};
use chip8::mem::{fuse, Memory};

const GLYPHS: [u8; 80] = [
    0xF0, 0x90, 0x90, 0x90, 0xF0, 0x20, 0x60, 0x20, 0x20, 0x70, 0xF0, 0x10, 0xF0, 0x80, 0xF0,
    0xF0, 0x10, 0xF0, 0x10, 0xF0, 0x90, 0x90, 0xF0, 0x10, 0x10, 0xF0, 0x80, 0xF0, 0x10, 0xF0,
    0xF0, 0x80, 0xF0, 0x90, 0xF0, 0xF0, 0x10, 0x20, 0x40, 0x40, 0xF0, 0x90, 0xF0, 0x90, 0xF0,
    0xF0, 0x90, 0xF0, 0x10, 0xF0, 0xF0, 0x90, 0xF0, 0x90, 0x90, 0xE0, 0x90, 0xE0, 0x90, 0xE0,
    0xF0, 0x80, 0x80, 0x80, 0xF0, 0xE0, 0x90, 0x90, 0x90, 0xE0, 0xF0, 0x80, 0xF0, 0x80, 0xF0,
    0xF0, 0x80, 0xF0, 0x80, 0x80,
];

fn machine(program: &[u8]) -> Cpu {
    Cpu::new(program).unwrap()
}

fn run(cpu: &mut Cpu, steps: usize) {
    for _ in 0..steps {
        cpu.execute(0).unwrap();
    }
}

#[test]
fn load_places_program_and_font() {
    let rom: Vec<u8> = (0..0xE00u32).map(|i| (i * 7 % 251) as u8).collect();
    let cpu = machine(&rom);
    for (i, b) in rom.iter().enumerate() {
        assert_eq!(cpu.memory().read_byte(0x200 + i), Ok(*b));
    }
    for (i, g) in GLYPHS.iter().enumerate() {
        assert_eq!(cpu.memory().read_byte(0x50 + i), Ok(*g));
    }
    assert_eq!(cpu.memory().read_byte(0x4F), Ok(0));
    assert_eq!(cpu.memory().read_byte(0xA0), Ok(0));
    assert_eq!(cpu.pc(), 0x200);
}

#[test]
fn font_does_not_depend_on_program() {
    let cpu = machine(&[0xFF; 16]);
    for (i, g) in GLYPHS.iter().enumerate() {
        assert_eq!(cpu.memory().read_byte(0x50 + i), Ok(*g));
    }
}

#[test]
fn program_too_large_is_refused() {
    let rom = vec![1u8; 0xE01];
    assert!(matches!(Cpu::new(&rom), Err(CpuError::ProgramTooLarge)));
    let mut mem = Memory::new();
    assert_eq!(mem.load(&rom), Err(CpuError::ProgramTooLarge));
    assert_eq!(mem.read_byte(0x200), Ok(0));
    assert_eq!(mem.load(&[]), Ok(()));
}

#[test]
fn memory_bounds() {
    let mut mem = Memory::new();
    assert_eq!(mem.read_byte(0x1000), Err(CpuError::OutOfBounds(0x1000)));
    assert_eq!(mem.write_byte(0x1000, 3), Err(CpuError::OutOfBounds(0x1000)));
    assert_eq!(mem.write_byte(0xFFF, 3), Ok(()));
    assert_eq!(mem.read_byte(0xFFF), Ok(3));
    assert_eq!(mem.read_instruction_word(0xFFF), Err(CpuError::OutOfBounds(0x1000)));
    assert_eq!(mem.read_instruction_word(0x2000), Err(CpuError::OutOfBounds(0x2000)));
    assert_eq!(mem.read_instruction_word(0xFFE), Ok(0x0003));
    assert_eq!(mem.slice(0xFFE, 2), Ok(vec![0, 3]));
    assert_eq!(mem.slice(0xFFF, 2), Err(CpuError::OutOfBounds(0x1000)));
}

#[test]
fn instruction_words_are_big_endian() {
    assert_eq!(fuse(0x12, 0x34), 0x1234);
    let mut mem = Memory::new();
    mem.load(&[0xAB, 0xCD]).unwrap();
    assert_eq!(mem.read_instruction_word(0x200), Ok(0xABCD));
    assert_eq!(mem.read_instruction_word(0x50), Ok(0xF090));
}

#[test]
fn add_with_carry_all_sampled_pairs() {
    let values = [0u8, 1, 2, 15, 16, 127, 128, 129, 200, 254, 255];
    for &a in values.iter() {
        for &b in values.iter() {
            let mut cpu = machine(&[0x81, 0x24]);
            cpu.set_register(1, a);
            cpu.set_register(2, b);
            cpu.execute(0).unwrap();
            let sum = a as u16 + b as u16;
            assert_eq!(cpu.register(1), (sum % 256) as u8);
            assert_eq!(cpu.register(15), if sum > 255 { 1 } else { 0 });
            assert_eq!(cpu.register(2), b);
        }
    }
}

#[test]
fn subtract_all_sampled_pairs() {
    let values = [0u8, 1, 2, 15, 16, 127, 128, 129, 200, 254, 255];
    for &a in values.iter() {
        for &b in values.iter() {
            let mut cpu = machine(&[0x81, 0x25]);
            cpu.set_register(1, a);
            cpu.set_register(2, b);
            cpu.execute(0).unwrap();
            assert_eq!(cpu.register(1), a.wrapping_sub(b));
            assert_eq!(cpu.register(15), if a >= b { 1 } else { 0 });
        }
    }
}

#[test]
fn draw_twice_restores_and_collides() {
    let mut d = Display::new();
    let sprite = [0xF0u8, 0x90, 0x90, 0x90, 0xF0];
    assert!(!d.draw_sprite(62, 30, &sprite));
    assert!(d.pixel(62, 30));
    assert!(d.pixel(1, 30));
    assert!(d.pixel(62, 2));
    assert!(!d.pixel(63, 31));
    assert!(d.draw_sprite(62, 30, &sprite));
    for row in 0..32 {
        for col in 0..64 {
            assert!(!d.pixel(col, row));
        }
    }
}

#[test]
fn draw_twice_restores_over_a_lit_screen() {
    let mut d = Display::new();
    d.draw_sprite(3, 4, &[0xFF, 0x81]);
    let before = d.rows();
    d.draw_sprite(5, 4, &[0xAA, 0x55, 0x0F]);
    d.draw_sprite(5, 4, &[0xAA, 0x55, 0x0F]);
    assert_eq!(d.rows(), before);
}

#[test]
fn draw_instruction_sets_flag_on_collision() {
    // I = font glyph 0, V0 = 10, V1 = 5, draw 5 rows twice.
    let mut cpu = machine(&[0xA0, 0x50, 0x60, 0x0A, 0x61, 0x05, 0xD0, 0x15, 0xD0, 0x15]);
    run(&mut cpu, 4);
    assert_eq!(cpu.register(15), 0);
    let bits = cpu.display_bits();
    assert_eq!(bits.len(), 32);
    assert_eq!(bits[5].len(), 64);
    assert!(bits[5][10] && bits[5][13] && !bits[6][11] && bits[9][12]);
    run(&mut cpu, 1);
    assert_eq!(cpu.register(15), 1);
    assert!(cpu.display_bits().iter().all(|row| row.iter().all(|p| !*p)));
}

#[test]
fn jump_sets_pc_without_advance() {
    let mut rom = vec![0u8; 0x100];
    rom[0] = 0x12;
    rom[1] = 0xF0;
    rom[0xF0] = 0x6A;
    rom[0xF1] = 0x07;
    let mut cpu = machine(&rom);
    cpu.execute(0).unwrap();
    assert_eq!(cpu.pc(), 0x2F0);
    assert_eq!(cpu.opcodes()[0], 0x6A07);
    cpu.execute(0).unwrap();
    assert_eq!(cpu.register(10), 7);
    assert_eq!(cpu.pc(), 0x2F2);
}

#[test]
fn call_then_return_resumes_after_call() {
    let program = [0x22, 0x06, 0x61, 0x05, 0x00, 0x00, 0x62, 0x09, 0x00, 0xEE];
    let mut cpu = machine(&program);
    cpu.execute(0).unwrap();
    assert_eq!(cpu.pc(), 0x206);
    assert_eq!(cpu.stack_depth(), 1);
    run(&mut cpu, 2);
    assert_eq!(cpu.pc(), 0x202);
    assert_eq!(cpu.stack_depth(), 0);
    assert_eq!(cpu.register(2), 9);
    cpu.execute(0).unwrap();
    assert_eq!(cpu.register(1), 5);
    assert!(!cpu.running());
}

#[test]
fn three_step_program_as_encoded() {
    // 0x8014 adds V1 into V0.
    let mut cpu = machine(&[0x61, 0x02, 0x62, 0x03, 0x80, 0x14]);
    run(&mut cpu, 3);
    assert_eq!(cpu.register(0), 2);
    assert_eq!(cpu.register(1), 2);
    assert_eq!(cpu.register(2), 3);
    assert_eq!(cpu.register(15), 0);
}

#[test]
fn three_step_program_adds_v2_into_v1() {
    let mut cpu = machine(&[0x61, 0x02, 0x62, 0x03, 0x81, 0x24]);
    run(&mut cpu, 3);
    assert_eq!(cpu.register(1), 5);
    assert_eq!(cpu.register(15), 0);
    assert_eq!(cpu.pc(), 0x206);
}

#[test]
fn add_overflow_sets_flag() {
    let mut cpu = machine(&[0x81, 0x24]);
    cpu.set_register(1, 0xFF);
    cpu.set_register(2, 0x01);
    cpu.execute(0).unwrap();
    assert_eq!(cpu.register(1), 0x00);
    assert_eq!(cpu.register(15), 1);
}

#[test]
fn tick_clamps_at_zero() {
    let mut cpu = machine(&[]);
    cpu.set_delay(3);
    cpu.set_sound(1);
    for _ in 0..5 {
        cpu.tick();
    }
    assert_eq!(cpu.delay(), 0);
    assert_eq!(cpu.sound(), 0);
    cpu.set_delay(9);
    cpu.tick();
    assert_eq!(cpu.delay(), 8);
}

#[test]
fn unknown_opcode_leaves_state_unchanged() {
    let mut cpu = machine(&[0xFF, 0xFF]);
    cpu.set_register(3, 0x33);
    cpu.set_delay(4);
    let before_bits = cpu.display_bits();
    let before_ops = cpu.opcodes();
    assert_eq!(cpu.execute(0x5A), Err(CpuError::UnknownOpcode(0xFFFF)));
    assert_eq!(cpu.pc(), 0x200);
    assert_eq!(cpu.register(3), 0x33);
    assert_eq!(cpu.register(15), 0);
    assert_eq!(cpu.index(), 0);
    assert_eq!(cpu.stack_depth(), 0);
    assert_eq!(cpu.delay(), 4);
    assert_eq!(cpu.display_bits(), before_bits);
    assert_eq!(cpu.opcodes(), before_ops);
}

#[test]
fn reverse_subtract_is_unknown() {
    let mut cpu = machine(&[0x81, 0x27]);
    assert_eq!(cpu.execute(0), Err(CpuError::UnknownOpcode(0x8127)));
}

#[test]
fn zero_word_halts() {
    let mut cpu = machine(&[0x00, 0x00]);
    assert!(!cpu.running());
    assert_eq!(cpu.execute(0), Ok(()));
    assert_eq!(cpu.pc(), 0x200);
    let mut other = machine(&[0x12, 0x00]);
    assert!(other.running());
    other.execute(0).unwrap();
    assert_eq!(other.pc(), 0x200);
}

#[test]
fn stack_overflow_after_sixteen_calls() {
    let mut cpu = machine(&[0x22, 0x00]);
    for _ in 0..16 {
        cpu.execute(0).unwrap();
    }
    assert_eq!(cpu.stack_depth(), 16);
    assert_eq!(cpu.execute(0), Err(CpuError::StackOverflow));
    assert_eq!(cpu.stack_depth(), 16);
    assert_eq!(cpu.pc(), 0x200);
}

#[test]
fn return_on_empty_stack_underflows() {
    let mut cpu = machine(&[0x00, 0xEE]);
    assert_eq!(cpu.execute(0), Err(CpuError::StackUnderflow));
    assert_eq!(cpu.pc(), 0x200);
}

#[test]
fn draw_past_end_of_memory_is_out_of_bounds() {
    let mut cpu = machine(&[0xAF, 0xFF, 0xD0, 0x1F]);
    cpu.execute(0).unwrap();
    assert_eq!(cpu.execute(0), Err(CpuError::OutOfBounds(0xFFF + 15 - 1)));
    assert_eq!(cpu.pc(), 0x202);
    assert_eq!(cpu.index(), 0xFFF);
}

#[test]
fn store_past_end_of_memory_is_out_of_bounds() {
    let mut cpu = machine(&[0xAF, 0xFE, 0xF3, 0x55]);
    cpu.execute(0).unwrap();
    assert_eq!(cpu.execute(0), Err(CpuError::OutOfBounds(0x1001)));
    assert_eq!(cpu.memory().read_byte(0xFFE), Ok(0));
}

#[test]
fn fetch_past_end_of_memory_is_out_of_bounds() {
    let mut rom = vec![0u8; 4];
    rom[0] = 0x1F;
    rom[1] = 0xFF;
    let mut cpu = machine(&rom);
    cpu.execute(0).unwrap();
    assert_eq!(cpu.pc(), 0xFFF);
    assert_eq!(cpu.execute(0), Err(CpuError::OutOfBounds(0x1000)));
}

#[test]
fn skips_advance_by_four_when_true() {
    // V1 = 5, skip if V1 == 5, (skipped), skip if V1 != 5 (not taken)
    let mut cpu = machine(&[0x61, 0x05, 0x31, 0x05, 0x00, 0x00, 0x41, 0x05]);
    run(&mut cpu, 2);
    assert_eq!(cpu.pc(), 0x206);
    run(&mut cpu, 1);
    assert_eq!(cpu.pc(), 0x208);
    let mut regs = machine(&[0x51, 0x20, 0x00, 0x00, 0x91, 0x20, 0x00, 0x00, 0x91, 0x20]);
    regs.execute(0).unwrap();
    assert_eq!(regs.pc(), 0x204);
    regs.execute(0).unwrap();
    assert_eq!(regs.pc(), 0x206);
    regs.set_register(2, 1);
    let mut ne = machine(&[0x91, 0x20]);
    ne.set_register(2, 1);
    ne.execute(0).unwrap();
    assert_eq!(ne.pc(), 0x204);
}

#[test]
fn byte_and_bitwise_instructions() {
    let mut cpu = machine(&[
        0x61, 0xF0, 0x71, 0x20, 0x62, 0x3C, 0x83, 0x10, 0x83, 0x21, 0x84, 0x10, 0x84, 0x22,
        0x85, 0x10, 0x85, 0x23,
    ]);
    run(&mut cpu, 2);
    assert_eq!(cpu.register(1), 0x10);
    assert_eq!(cpu.register(15), 0);
    run(&mut cpu, 7);
    assert_eq!(cpu.register(3), 0x10 | 0x3C);
    assert_eq!(cpu.register(4), 0x10 & 0x3C);
    assert_eq!(cpu.register(5), 0x10 ^ 0x3C);
}

#[test]
fn shifts_set_flag_from_shifted_out_bit() {
    let mut cpu = machine(&[0x81, 0x06, 0x82, 0x0E, 0x83, 0x06]);
    cpu.set_register(1, 0x05);
    cpu.set_register(2, 0x81);
    cpu.set_register(3, 0x04);
    cpu.execute(0).unwrap();
    assert_eq!(cpu.register(1), 0x02);
    assert_eq!(cpu.register(15), 1);
    cpu.execute(0).unwrap();
    assert_eq!(cpu.register(2), 0x02);
    assert_eq!(cpu.register(15), 1);
    cpu.execute(0).unwrap();
    assert_eq!(cpu.register(3), 0x02);
    assert_eq!(cpu.register(15), 0);
}

#[test]
fn random_is_masked() {
    let mut cpu = machine(&[0xC1, 0x0F, 0xC2, 0x00]);
    cpu.execute(0xAB).unwrap();
    assert_eq!(cpu.register(1), 0x0B);
    cpu.step().unwrap();
    assert_eq!(cpu.register(2), 0);
}

#[test]
fn index_add_wraps_and_register_transfer() {
    let mut cpu = machine(&[
        0xA3, 0x00, 0x60, 0x11, 0x61, 0x22, 0x62, 0x33, 0xF2, 0x55, 0x60, 0x00, 0x61, 0x00,
        0xF1, 0x65, 0xF2, 0x1E,
    ]);
    run(&mut cpu, 5);
    assert_eq!(cpu.memory().slice(0x300, 4), Ok(vec![0x11, 0x22, 0x33, 0x00]));
    assert_eq!(cpu.index(), 0x300);
    run(&mut cpu, 3);
    assert_eq!(cpu.register(0), 0x11);
    assert_eq!(cpu.register(1), 0x22);
    assert_eq!(cpu.register(2), 0x33);
    run(&mut cpu, 1);
    assert_eq!(cpu.index(), 0x333);
}

#[test]
fn clear_instruction_blanks_display() {
    let mut cpu = machine(&[0xA0, 0x50, 0xD0, 0x05, 0x00, 0xE0]);
    run(&mut cpu, 2);
    assert!(cpu.display().pixel(0, 0));
    run(&mut cpu, 1);
    assert!(!cpu.display().pixel(0, 0));
    assert_eq!(cpu.pc(), 0x206);
}

#[test]
fn opcodes_run_to_end_of_memory() {
    let cpu = machine(&[0x61, 0x02, 0x62, 0x03]);
    let ops = cpu.opcodes();
    assert_eq!(ops.len(), (0x1000 - 0x200) / 2);
    assert_eq!(&ops[..3], &[0x6102, 0x6203, 0x0000]);
}

#[test]
fn decode_table() {
    assert_eq!(decode(0x00E0), Some(Instruction::Clear));
    assert_eq!(decode(0x00EE), Some(Instruction::Return));
    assert_eq!(decode(0x1ABC), Some(Instruction::Jump { nnn: 0xABC }));
    assert_eq!(decode(0xD12F), Some(Instruction::Draw { x: 1, y: 2, n: 15 }));
    assert_eq!(decode(0x8AB4), Some(Instruction::AddReg { x: 10, y: 11 }));
    assert_eq!(decode(0xF765), Some(Instruction::LoadRegs { x: 7 }));
    assert_eq!(decode(0xB123), None);
    assert_eq!(decode(0xE19E), None);
    assert_eq!(decode(0xF107), None);
    assert_eq!(decode(0x0123), None);
}
