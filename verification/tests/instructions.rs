use chip8::{Chip8, Display, Executed, Fault, Instruction, Options};

fn machine() -> Chip8 {
    Chip8::new(0)
}

fn with_registers(values: &[(u8, u8)]) -> Chip8 {
    let mut m = machine();
    for &(x, nn) in values {
        m.apply(Instruction::Load { x, nn }, 0).unwrap();
    }
    m.apply(Instruction::Jump { addr: 0x200 }, 0).unwrap();
    m
}

fn quiet() -> Executed {
    Executed { flushed: None, wait_millis: 0 }
}

#[test]
fn new_machine_holds_the_font_and_nothing_else() {
    let m = Chip8::new(77);
    assert_eq!(m.pc(), 0x200);
    assert_eq!(m.index(), 0);
    assert_eq!(m.registers(), &[0u8; 16]);
    assert!(m.stack().is_empty());
    assert_eq!(m.delay_timer(), 0);
    assert_eq!(m.sound_timer(), 0);
    assert_eq!(m.last_tick(), 77);
    assert!(!m.display_changed());
    assert_eq!(*m.display(), Display::new());
    assert_eq!(
        m.options(),
        Options { render_on_clear_only: false, delay_instruction_blocks: false }
    );
    let memory = m.memory();
    assert_eq!(memory.len(), 4096);
    assert_eq!(&memory[0..5], &[0xF0, 0x90, 0x90, 0x90, 0xF0]);
    assert_eq!(&memory[10..15], &[0xF0, 0x10, 0xF0, 0x80, 0xF0]);
    assert_eq!(&memory[75..80], &[0xF0, 0x80, 0xF0, 0x80, 0x80]);
    assert!(memory[80..].iter().all(|&byte| byte == 0));
}

#[test]
fn load_rom_copies_the_program_to_0x200() {
    let mut m = machine();
    m.load_rom(vec![0x12, 0x34, 0x56]);
    let memory = m.memory();
    assert_eq!(&memory[0x200..0x203], &[0x12, 0x34, 0x56]);
    assert!(memory[0x203..].iter().all(|&byte| byte == 0));
    assert!(memory[80..0x200].iter().all(|&byte| byte == 0));
    assert_eq!(&memory[0..5], &[0xF0, 0x90, 0x90, 0x90, 0xF0]);
    assert_eq!(m.pc(), 0x200);
}

#[test]
fn load_rom_takes_a_program_that_fills_memory() {
    let mut m = machine();
    m.load_rom(vec![0xAB; 4096 - 0x200]);
    let memory = m.memory();
    assert_eq!(memory[0x1FF], 0);
    assert!(memory[0x200..].iter().all(|&byte| byte == 0xAB));
}

#[test]
fn load_rom_of_nothing_changes_nothing() {
    let mut m = machine();
    m.load_rom(Vec::new());
    assert_eq!(m.memory(), Chip8::new(0).memory());
}

#[test]
fn execute_fetches_the_word_high_byte_first() {
    let mut m = machine();
    m.load_rom(vec![0x6A, 0x42]);
    assert_eq!(m.fetch(), Some(0x6A42));
    assert_eq!(m.execute(0), Ok(quiet()));
    assert_eq!(m.registers()[0xA], 0x42);
    assert_eq!(m.pc(), 0x202);
}

#[test]
fn system_call_does_nothing() {
    let mut m = with_registers(&[(1, 5)]);
    assert_eq!(m.apply(Instruction::System { addr: 0x123 }, 0), Ok(quiet()));
    assert_eq!(m.pc(), 0x202);
    assert_eq!(m.registers()[1], 5);
}

#[test]
fn jump_sets_the_program_counter() {
    let mut m = machine();
    assert_eq!(m.apply(Instruction::Jump { addr: 0x3AC }, 0), Ok(quiet()));
    assert_eq!(m.pc(), 0x3AC);
    assert!(m.stack().is_empty());
}

#[test]
fn call_pushes_the_program_counter_and_return_pops_it() {
    let mut m = machine();
    m.apply(Instruction::Jump { addr: 0x250 }, 0).unwrap();
    assert_eq!(m.apply(Instruction::Call { addr: 0x400 }, 0), Ok(quiet()));
    assert_eq!(m.pc(), 0x400);
    assert_eq!(m.stack(), &vec![0x250]);
    assert_eq!(m.apply(Instruction::Call { addr: 0x600 }, 0), Ok(quiet()));
    assert_eq!(m.stack(), &vec![0x250, 0x400]);
    assert_eq!(m.apply(Instruction::Return, 0), Ok(quiet()));
    assert_eq!(m.pc(), 0x400);
    assert_eq!(m.stack(), &vec![0x250]);
    assert_eq!(m.apply(Instruction::Return, 0), Ok(quiet()));
    assert_eq!(m.pc(), 0x250);
    assert!(m.stack().is_empty());
}

#[test]
fn jump_offset_adds_v0() {
    let mut m = with_registers(&[(0, 0x34)]);
    assert_eq!(m.apply(Instruction::JumpOffset { addr: 0x300 }, 0), Ok(quiet()));
    assert_eq!(m.pc(), 0x334);
    let mut m = with_registers(&[(0, 0xFF)]);
    m.apply(Instruction::JumpOffset { addr: 0xFFF }, 0).unwrap();
    assert_eq!(m.pc(), 0x10FE);
}

#[test]
fn skips_advance_by_four_or_by_two() {
    for a in 0..=255u8 {
        for b in [0u8, 1, 127, 128, 254, 255, a] {
            let cases = [
                (Instruction::SkipIfEqual { x: 3, nn: b }, a == b),
                (Instruction::SkipIfNotEqual { x: 3, nn: b }, a != b),
                (Instruction::SkipIfRegistersEqual { x: 3, y: 4 }, a == b),
                (Instruction::SkipIfRegistersNotEqual { x: 3, y: 4 }, a != b),
            ];
            for (instruction, holds) in cases {
                let mut m = with_registers(&[(3, a), (4, b)]);
                let before = *m.registers();
                assert_eq!(m.apply(instruction, 0), Ok(quiet()));
                assert_eq!(m.pc(), if holds { 0x204 } else { 0x202 });
                assert_eq!(m.registers(), &before);
            }
        }
    }
}

#[test]
fn skip_of_a_register_against_itself() {
    let mut m = with_registers(&[(7, 9)]);
    m.apply(Instruction::SkipIfRegistersEqual { x: 7, y: 7 }, 0).unwrap();
    assert_eq!(m.pc(), 0x204);
    m.apply(Instruction::SkipIfRegistersNotEqual { x: 7, y: 7 }, 0).unwrap();
    assert_eq!(m.pc(), 0x206);
}

#[test]
fn load_and_copy() {
    let mut m = machine();
    m.apply(Instruction::Load { x: 0xE, nn: 0x99 }, 0).unwrap();
    assert_eq!(m.registers()[0xE], 0x99);
    m.apply(Instruction::Copy { x: 2, y: 0xE }, 0).unwrap();
    assert_eq!(m.registers()[2], 0x99);
    assert_eq!(m.registers()[0xE], 0x99);
    assert_eq!(m.pc(), 0x204);
}

#[test]
fn add_immediate_wraps_and_leaves_the_flag() {
    for a in 0..=255u8 {
        for nn in 0..=255u8 {
            let mut m = with_registers(&[(5, a), (0xF, 0x77)]);
            m.apply(Instruction::Add { x: 5, nn }, 0).unwrap();
            assert_eq!(m.registers()[5] as u32, (a as u32 + nn as u32) % 256);
            assert_eq!(m.registers()[0xF], 0x77);
        }
    }
    let mut m = with_registers(&[(5, 200)]);
    m.apply(Instruction::Add { x: 5, nn: 100 }, 0).unwrap();
    assert_eq!(m.registers()[5], 44);
}

#[test]
fn add_register_wraps_and_carries() {
    for a in 0..=255u8 {
        for b in 0..=255u8 {
            let mut m = with_registers(&[(1, a), (2, b)]);
            m.apply(Instruction::AddRegister { x: 1, y: 2 }, 0).unwrap();
            let sum = a as u32 + b as u32;
            assert_eq!(m.registers()[1] as u32, sum % 256);
            assert_eq!(m.registers()[2], b);
            assert_eq!(m.registers()[0xF], if sum > 255 { 1 } else { 0 });
        }
    }
    let mut m = with_registers(&[(1, 0xFF), (2, 0x02)]);
    m.apply(Instruction::AddRegister { x: 1, y: 2 }, 0).unwrap();
    assert_eq!((m.registers()[1], m.registers()[0xF]), (0x01, 1));
    let mut m = with_registers(&[(1, 0xFF), (2, 0x00)]);
    m.apply(Instruction::AddRegister { x: 1, y: 2 }, 0).unwrap();
    assert_eq!((m.registers()[1], m.registers()[0xF]), (0xFF, 0));
}

#[test]
fn subtract_wraps_and_flags_no_borrow() {
    for a in 0..=255u8 {
        for b in 0..=255u8 {
            let mut m = with_registers(&[(1, a), (2, b)]);
            m.apply(Instruction::Subtract { x: 1, y: 2 }, 0).unwrap();
            assert_eq!(m.registers()[1] as i32, (a as i32 - b as i32).rem_euclid(256));
            assert_eq!(m.registers()[0xF], if a > b { 1 } else { 0 });
        }
    }
    let mut m = with_registers(&[(1, 3), (2, 5)]);
    m.apply(Instruction::Subtract { x: 1, y: 2 }, 0).unwrap();
    assert_eq!((m.registers()[1], m.registers()[0xF]), (254, 0));
    let mut m = with_registers(&[(1, 5), (2, 5)]);
    m.apply(Instruction::Subtract { x: 1, y: 2 }, 0).unwrap();
    assert_eq!((m.registers()[1], m.registers()[0xF]), (0, 0));
    let mut m = with_registers(&[(1, 5), (2, 3)]);
    m.apply(Instruction::Subtract { x: 1, y: 2 }, 0).unwrap();
    assert_eq!((m.registers()[1], m.registers()[0xF]), (2, 1));
}

#[test]
fn reverse_subtract_wraps_and_flags_no_borrow() {
    for a in 0..=255u8 {
        for b in 0..=255u8 {
            let mut m = with_registers(&[(1, a), (2, b)]);
            m.apply(Instruction::ReverseSubtract { x: 1, y: 2 }, 0).unwrap();
            assert_eq!(m.registers()[1] as i32, (b as i32 - a as i32).rem_euclid(256));
            assert_eq!(m.registers()[0xF], if b > a { 1 } else { 0 });
        }
    }
    let mut m = with_registers(&[(1, 5), (2, 3)]);
    m.apply(Instruction::ReverseSubtract { x: 1, y: 2 }, 0).unwrap();
    assert_eq!((m.registers()[1], m.registers()[0xF]), (254, 0));
}

#[test]
fn arithmetic_into_the_flag_register_keeps_the_flag() {
    let mut m = with_registers(&[(0xF, 200), (2, 100)]);
    m.apply(Instruction::AddRegister { x: 0xF, y: 2 }, 0).unwrap();
    assert_eq!(m.registers()[0xF], 1);
    let mut m = with_registers(&[(0xF, 20), (2, 10)]);
    m.apply(Instruction::AddRegister { x: 0xF, y: 2 }, 0).unwrap();
    assert_eq!(m.registers()[0xF], 0);
    let mut m = with_registers(&[(0xF, 20), (2, 10)]);
    m.apply(Instruction::Subtract { x: 0xF, y: 2 }, 0).unwrap();
    assert_eq!(m.registers()[0xF], 1);
    let mut m = with_registers(&[(0xF, 10), (2, 20)]);
    m.apply(Instruction::ReverseSubtract { x: 0xF, y: 2 }, 0).unwrap();
    assert_eq!(m.registers()[0xF], 1);
}

#[test]
fn bitwise_operations() {
    let mut m = with_registers(&[(1, 0b1100_1010), (2, 0b1010_0110), (0xF, 9)]);
    m.apply(Instruction::Or { x: 1, y: 2 }, 0).unwrap();
    assert_eq!(m.registers()[1], 0b1110_1110);
    let mut m = with_registers(&[(1, 0b1100_1010), (2, 0b1010_0110), (0xF, 9)]);
    m.apply(Instruction::And { x: 1, y: 2 }, 0).unwrap();
    assert_eq!(m.registers()[1], 0b1000_0010);
    let mut m = with_registers(&[(1, 0b1100_1010), (2, 0b1010_0110), (0xF, 9)]);
    m.apply(Instruction::Xor { x: 1, y: 2 }, 0).unwrap();
    assert_eq!(m.registers()[1], 0b0110_1100);
    assert_eq!(m.registers()[2], 0b1010_0110);
    assert_eq!(m.registers()[0xF], 9);
}

#[test]
fn shifts_keep_the_lost_bit_in_the_flag() {
    for a in 0..=255u8 {
        let mut m = with_registers(&[(6, a), (0xF, 0x55)]);
        m.apply(Instruction::ShiftRight { x: 6 }, 0).unwrap();
        assert_eq!(m.registers()[6], a >> 1);
        assert_eq!(m.registers()[0xF], a & 1);
        let mut m = with_registers(&[(6, a), (0xF, 0x55)]);
        m.apply(Instruction::ShiftLeft { x: 6 }, 0).unwrap();
        assert_eq!(m.registers()[6], a << 1);
        assert_eq!(m.registers()[0xF], a >> 7);
    }
}

#[test]
fn shift_of_the_flag_register_shifts_the_flag() {
    // The flag is written first and the shift then works on it.
    let mut m = with_registers(&[(0xF, 0b0000_0011)]);
    m.apply(Instruction::ShiftRight { x: 0xF }, 0).unwrap();
    assert_eq!(m.registers()[0xF], 0);
    let mut m = with_registers(&[(0xF, 0b1000_0001)]);
    m.apply(Instruction::ShiftLeft { x: 0xF }, 0).unwrap();
    assert_eq!(m.registers()[0xF], 2);
    let mut m = with_registers(&[(0xF, 0b0100_0001)]);
    m.apply(Instruction::ShiftLeft { x: 0xF }, 0).unwrap();
    assert_eq!(m.registers()[0xF], 0);
}

#[test]
fn load_index_and_add_to_index() {
    let mut m = with_registers(&[(4, 0xFF)]);
    m.apply(Instruction::LoadIndex { addr: 0xFFF }, 0).unwrap();
    assert_eq!(m.index(), 0xFFF);
    m.apply(Instruction::AddIndex { x: 4 }, 0).unwrap();
    assert_eq!(m.index(), 0x10FE);
    assert_eq!(m.registers()[4], 0xFF);
    assert_eq!(m.registers()[0xF], 0);
}

#[test]
fn add_to_index_wraps_at_the_width_of_the_register() {
    let mut m = with_registers(&[(4, 0xFF), (5, 0x80)]);
    let mut expected: u64 = 0;
    // 2^32 = 16_843_009 * 255 + 1: the next addition of 0x80 goes over.
    for round in 0..16_843_009u32 {
        if round % 1024 == 1023 {
            m.apply(Instruction::Jump { addr: 0x200 }, 0).unwrap();
        }
        m.apply(Instruction::AddIndex { x: 4 }, 0).unwrap();
        expected += 0xFF;
    }
    assert_eq!(expected, 0xFFFF_FFFF);
    assert_eq!(m.index(), 0xFFFF_FFFF);
    m.apply(Instruction::AddIndex { x: 5 }, 0).unwrap();
    assert_eq!(m.index(), 0x7F);
}

#[test]
fn random_is_masked_by_the_immediate() {
    let mut m = machine();
    m.apply(Instruction::Random { x: 3, nn: 0x0F }, 0xA7).unwrap();
    assert_eq!(m.registers()[3], 0x07);
    m.apply(Instruction::Random { x: 3, nn: 0xFF }, 0xA7).unwrap();
    assert_eq!(m.registers()[3], 0xA7);
    m.apply(Instruction::Random { x: 3, nn: 0x00 }, 0xA7).unwrap();
    assert_eq!(m.registers()[3], 0x00);
}

#[test]
fn execute_next_draws_bytes_that_differ_and_masks_them() {
    let mut program = Vec::new();
    for _ in 0..400 {
        program.extend_from_slice(&[0xC1, 0xFF, 0xC2, 0x0F]);
    }
    let mut m = machine();
    m.load_rom(program);
    let mut seen = std::collections::BTreeSet::new();
    for _ in 0..400 {
        assert_eq!(m.execute_next(), Ok(quiet()));
        seen.insert(m.registers()[1]);
        assert_eq!(m.execute_next(), Ok(quiet()));
        assert!(m.registers()[2] <= 0x0F);
    }
    assert!(seen.len() > 1);
    assert_eq!(m.pc(), 0x200 + 1600);
}

#[test]
fn execute_next_is_execute_where_nothing_is_drawn() {
    let program = vec![0x61, 0x07, 0x71, 0xFF, 0x81, 0x1E, 0xA1, 0x23, 0xF1, 0x33];
    let mut a = machine();
    a.load_rom(program.clone());
    let mut b = machine();
    b.load_rom(program);
    for _ in 0..5 {
        assert_eq!(a.execute_next(), b.execute(0));
        assert_eq!(a.registers(), b.registers());
        assert_eq!(a.memory(), b.memory());
        assert_eq!(a.pc(), b.pc());
        assert_eq!(a.index(), b.index());
    }
    assert_eq!(a.pc(), 0x20A);
}

#[test]
fn keyboard_instructions_never_skip() {
    let mut m = with_registers(&[(1, 3)]);
    assert_eq!(m.apply(Instruction::SkipIfKey { x: 1 }, 0), Ok(quiet()));
    assert_eq!(m.pc(), 0x202);
    assert_eq!(m.apply(Instruction::SkipIfNotKey { x: 1 }, 0), Ok(quiet()));
    assert_eq!(m.pc(), 0x204);
    assert_eq!(m.apply(Instruction::ReadKey { x: 1 }, 0), Ok(quiet()));
    assert_eq!(m.registers()[1], 0);
    assert_eq!(m.pc(), 0x206);
}

#[test]
fn undefined_words_do_nothing() {
    for word in [0x8008u16, 0x812F, 0xE100, 0xE19F, 0xF000, 0xF1FF, 0xF166] {
        let instruction = Instruction::decode(word);
        assert_eq!(instruction, Instruction::Undefined { word });
        let mut m = with_registers(&[(1, 0x11), (2, 0x22)]);
        assert_eq!(m.apply(instruction, 0), Ok(quiet()));
        assert_eq!(m.pc(), 0x202);
        assert_eq!(m.registers()[1], 0x11);
        assert_eq!(m.registers()[2], 0x22);
        assert_eq!(m.memory(), Chip8::new(0).memory());
    }
}

#[test]
fn timers_are_set_from_and_read_into_registers() {
    let mut m = with_registers(&[(1, 0x40), (2, 0x50)]);
    assert_eq!(m.apply(Instruction::SetDelay { x: 1 }, 0), Ok(quiet()));
    assert_eq!(m.apply(Instruction::SetSound { x: 2 }, 0), Ok(quiet()));
    assert_eq!(m.delay_timer(), 0x40);
    assert_eq!(m.sound_timer(), 0x50);
    assert_eq!(m.apply(Instruction::ReadDelay { x: 9 }, 0), Ok(quiet()));
    assert_eq!(m.registers()[9], 0x40);
}

#[test]
fn blocking_delay_asks_the_host_to_wait() {
    let mut m = with_registers(&[(1, 60), (2, 255), (3, 0)]);
    m.configure(Options { render_on_clear_only: false, delay_instruction_blocks: true });
    assert_eq!(
        m.apply(Instruction::SetDelay { x: 1 }, 0),
        Ok(Executed { flushed: None, wait_millis: 960 })
    );
    assert_eq!(m.delay_timer(), 0);
    assert_eq!(
        m.apply(Instruction::SetDelay { x: 2 }, 0),
        Ok(Executed { flushed: None, wait_millis: 4080 })
    );
    assert_eq!(m.apply(Instruction::SetDelay { x: 3 }, 0), Ok(quiet()));
    assert_eq!(m.delay_timer(), 0);
    assert_eq!(m.apply(Instruction::SetSound { x: 1 }, 0), Ok(quiet()));
    assert_eq!(m.sound_timer(), 60);
}

#[test]
fn font_address_is_five_times_the_register() {
    for digit in 0..=255u8 {
        let mut m = with_registers(&[(8, digit)]);
        m.apply(Instruction::FontAddress { x: 8 }, 0).unwrap();
        assert_eq!(m.index(), 5 * digit as u32);
    }
    let mut m = with_registers(&[(8, 0xA)]);
    m.apply(Instruction::FontAddress { x: 8 }, 0).unwrap();
    assert_eq!(m.index(), 50);
    assert_eq!(&m.memory()[50..55], &[0xF0, 0x90, 0xF0, 0x90, 0x90]);
}

#[test]
fn store_bcd_writes_the_decimal_digits() {
    for value in 0..=255u8 {
        let mut m = with_registers(&[(3, value)]);
        m.apply(Instruction::LoadIndex { addr: 0x300 }, 0).unwrap();
        assert_eq!(m.apply(Instruction::StoreBcd { x: 3 }, 0), Ok(quiet()));
        let memory = m.memory();
        assert_eq!(
            (memory[0x300], memory[0x301], memory[0x302]),
            (value / 100, value / 10 % 10, value % 10)
        );
        assert_eq!(memory[0x2FF], 0);
        assert_eq!(memory[0x303], 0);
    }
    let mut m = with_registers(&[(3, 254)]);
    m.apply(Instruction::LoadIndex { addr: 0xFFD }, 0).unwrap();
    m.apply(Instruction::StoreBcd { x: 3 }, 0).unwrap();
    assert_eq!(&m.memory()[0xFFD..], &[2, 5, 4]);
    let mut m = with_registers(&[(3, 119)]);
    m.apply(Instruction::LoadIndex { addr: 0x300 }, 0).unwrap();
    m.apply(Instruction::StoreBcd { x: 3 }, 0).unwrap();
    assert_eq!(&m.memory()[0x300..0x303], &[1, 1, 9]);
}

#[test]
fn dump_registers_writes_v0_to_vx_inclusive() {
    let mut m = with_registers(&[(0, 0x10), (1, 0x11), (2, 0x12), (3, 0x13)]);
    m.apply(Instruction::LoadIndex { addr: 0x400 }, 0).unwrap();
    assert_eq!(m.apply(Instruction::DumpRegisters { x: 2 }, 0), Ok(quiet()));
    assert_eq!(&m.memory()[0x3FF..0x405], &[0, 0x10, 0x11, 0x12, 0, 0]);
    assert_eq!(m.index(), 0x400);
    let mut m = with_registers(&[(0, 0x10), (1, 0x11)]);
    m.apply(Instruction::LoadIndex { addr: 0x400 }, 0).unwrap();
    m.apply(Instruction::DumpRegisters { x: 0 }, 0).unwrap();
    assert_eq!(&m.memory()[0x3FF..0x402], &[0, 0x10, 0]);
}

#[test]
fn load_registers_reads_v0_to_vx_inclusive() {
    let mut m = with_registers(&[(0, 1), (1, 2), (2, 3), (3, 4)]);
    m.apply(Instruction::LoadIndex { addr: 0 }, 0).unwrap();
    assert_eq!(m.apply(Instruction::LoadRegisters { x: 2 }, 0), Ok(quiet()));
    assert_eq!(&m.registers()[0..5], &[0xF0, 0x90, 0x90, 4, 0]);
    assert_eq!(m.index(), 0);
}

#[test]
fn dump_then_load_restores_the_registers() {
    for x in 0..=15u8 {
        for start in [0u16, 0x1FF, 0x200, 0xABC, 0xFFF - x as u16] {
            let mut m = machine();
            for r in 0..16u8 {
                m.apply(Instruction::Load { x: r, nn: 0xA0 + r }, 0).unwrap();
            }
            let before = *m.registers();
            m.apply(Instruction::LoadIndex { addr: start }, 0).unwrap();
            assert_eq!(m.apply(Instruction::DumpRegisters { x }, 0), Ok(quiet()));
            for r in 0..16u8 {
                m.apply(Instruction::Load { x: r, nn: 0 }, 0).unwrap();
            }
            assert_eq!(m.apply(Instruction::LoadRegisters { x }, 0), Ok(quiet()));
            for r in 0..16usize {
                let expected = if r <= x as usize { before[r] } else { 0 };
                assert_eq!(m.registers()[r], expected);
            }
        }
    }
}

#[test]
fn clear_screen_blanks_the_display_and_flushes_a_pending_frame() {
    let mut m = machine();
    m.apply(Instruction::Draw { x: 0, y: 0, n: 5 }, 0).unwrap();
    assert!(m.display_changed());
    let drawn = *m.display();
    assert_ne!(drawn, Display::new());
    assert_eq!(
        m.apply(Instruction::ClearScreen, 0),
        Ok(Executed { flushed: Some(drawn), wait_millis: 0 })
    );
    assert_eq!(*m.display(), Display::new());
    assert!(!m.display_changed());
    assert_eq!(m.apply(Instruction::ClearScreen, 0), Ok(quiet()));
    assert_eq!(*m.display(), Display::new());
    assert!(!m.display_changed());
    assert_eq!(m.pc(), 0x206);
}

#[test]
fn clear_screen_then_empty_sprite_leaves_the_display_dark() {
    let mut m = with_registers(&[(1, 12), (2, 7), (0xF, 1)]);
    m.apply(Instruction::Draw { x: 1, y: 2, n: 5 }, 0).unwrap();
    m.apply(Instruction::ClearScreen, 0).unwrap();
    m.apply(Instruction::LoadIndex { addr: 0x300 }, 0).unwrap();
    assert_eq!(m.apply(Instruction::Draw { x: 1, y: 2, n: 1 }, 0), Ok(quiet()));
    assert_eq!(*m.display(), Display::new());
    assert_eq!(m.registers()[0xF], 0);
    assert!(m.display_changed());
}

#[test]
fn draw_instruction_twice_restores_the_display() {
    let mut m = with_registers(&[(1, 60), (2, 30)]);
    m.apply(Instruction::LoadIndex { addr: 5 * 0xB }, 0).unwrap();
    let before = *m.display();
    assert_eq!(m.apply(Instruction::Draw { x: 1, y: 2, n: 5 }, 0), Ok(quiet()));
    assert_eq!(m.registers()[0xF], 0);
    assert_ne!(*m.display(), before);
    assert_eq!(m.apply(Instruction::Draw { x: 1, y: 2, n: 5 }, 0), Ok(quiet()));
    assert_eq!(m.registers()[0xF], 1);
    assert_eq!(*m.display(), before);
    assert!(m.display_changed());
}

#[test]
fn draw_reads_its_place_before_it_resets_the_flag() {
    let mut m = with_registers(&[(0xF, 9), (2, 4)]);
    m.apply(Instruction::Draw { x: 0xF, y: 2, n: 1 }, 0).unwrap();
    let display = m.display();
    assert!(display.pixel(9, 4) && display.pixel(12, 4));
    assert!(!display.pixel(0, 4) && !display.pixel(13, 4));
    assert_eq!(m.registers()[0xF], 0);
}

#[test]
fn draw_of_no_rows_marks_the_display_changed() {
    let mut m = with_registers(&[(0xF, 1)]);
    assert_eq!(m.apply(Instruction::Draw { x: 0, y: 0, n: 0 }, 0), Ok(quiet()));
    assert_eq!(*m.display(), Display::new());
    assert_eq!(m.registers()[0xF], 0);
    assert!(m.display_changed());
}

#[test]
fn render_hands_out_the_frame_and_clears_the_mark() {
    let mut m = machine();
    m.apply(Instruction::Draw { x: 0, y: 0, n: 5 }, 0).unwrap();
    let shown = *m.display();
    assert_eq!(m.render(), shown);
    assert!(!m.display_changed());
    assert_eq!(*m.display(), shown);
    assert_eq!(m.render(), shown);
}

#[test]
fn faults_leave_the_machine_as_it_was() {
    let mut m = with_registers(&[(1, 0x21), (0, 0x0E)]);
    m.apply(Instruction::LoadIndex { addr: 0xFFF }, 0).unwrap();
    m.apply(Instruction::Call { addr: 0x300 }, 0).unwrap();
    let registers = *m.registers();
    let memory = *m.memory();
    let stack = m.stack().clone();
    let attempts = [
        (Instruction::Null, Fault::NullInstruction),
        (Instruction::Jump { addr: 0x300 }, Fault::SelfJump),
        (Instruction::StoreBcd { x: 1 }, Fault::MemoryOverflow),
        (Instruction::DumpRegisters { x: 1 }, Fault::MemoryOverflow),
        (Instruction::LoadRegisters { x: 1 }, Fault::MemoryOverflow),
        (Instruction::Draw { x: 0, y: 0, n: 2 }, Fault::MemoryOverflow),
    ];
    for (instruction, fault) in attempts {
        assert_eq!(m.apply(instruction, 0), Err(fault));
        assert_eq!(m.check(instruction), Some(fault));
        assert_eq!(m.pc(), 0x300);
        assert_eq!(m.index(), 0xFFF);
        assert_eq!(m.registers(), &registers);
        assert_eq!(m.memory(), &memory);
        assert_eq!(m.stack(), &stack);
        assert!(!m.display_changed());
    }
}
