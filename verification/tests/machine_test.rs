use chip8::cartridge_reader::Cartridge;
use chip8::error::CpuError;
use chip8::instruction::decode;
use chip8::processor::Cpu;
use chip8::CHIP8_FONT;
use chip8::TIMER_RATE;

fn with_program(program: &[u8]) -> Cpu {
    let mut cpu = Cpu::new();
    let mut cartridge = Cartridge::new();
    cartridge.rom = program.to_vec();
    cpu.load_rom(&cartridge).unwrap();
    cpu
}

#[test]
fn power_on_state() {
    let cpu = Cpu::new();
    assert_eq!(cpu.program_counter, 0x200);
    assert_eq!(cpu.stack_pointer, 0);
    assert_eq!(cpu.i, 0);
    assert_eq!(cpu.register, [0; 16]);
    assert_eq!(&cpu.memory[..80], &CHIP8_FONT[..]);
    assert!(cpu.memory[80..].iter().all(|b| *b == 0));
    assert!(cpu.read_pixels().iter().all(|row| row.iter().all(|p| *p == 0)));
    assert_eq!(cpu.read_delay_timer(), 0);
    assert_eq!(cpu.read_sound_timer(), 0);
}

#[test]
fn font_glyphs_match_the_standard_table() {
    let cpu = Cpu::new();
    assert_eq!(&cpu.memory[0..5], &[0xF0, 0x90, 0x90, 0x90, 0xF0]);
    assert_eq!(&cpu.memory[5..10], &[0x20, 0x60, 0x20, 0x20, 0x70]);
    assert_eq!(&cpu.memory[35..40], &[0xF0, 0x10, 0x20, 0x40, 0x40]);
    assert_eq!(&cpu.memory[75..80], &[0xF0, 0x80, 0xF0, 0x80, 0x80]);
}

#[test]
fn decode_splits_the_word() {
    let ins = decode(0xD12F);
    assert_eq!((ins.c, ins.x, ins.y, ins.d), (0xD, 0x1, 0x2, 0xF));
    assert_eq!(ins.nnn, 0x12F);
    assert_eq!(ins.kk, 0x2F);
    let ins = decode(0xFFFF);
    assert_eq!((ins.c, ins.x, ins.y, ins.d, ins.nnn, ins.kk), (0xF, 0xF, 0xF, 0xF, 0xFFF, 0xFF));
    let ins = decode(0x0000);
    assert_eq!((ins.c, ins.x, ins.y, ins.d, ins.nnn, ins.kk), (0, 0, 0, 0, 0, 0));
}

#[test]
fn load_rom_fills_the_rest_of_memory() {
    let mut cpu = Cpu::new();
    let mut cartridge = Cartridge::new();
    cartridge.rom = vec![0xAB; 4096 - 0x200];
    assert_eq!(cpu.load_rom(&cartridge), Ok(()));
    assert_eq!(cpu.memory[0x200], 0xAB);
    assert_eq!(cpu.memory[4095], 0xAB);
    assert_eq!(cpu.memory[0x1FF], 0);
}

#[test]
fn load_rom_refuses_an_oversized_image() {
    let mut cpu = Cpu::new();
    cpu.memory[0x200] = 7;
    let before = cpu.memory;
    let mut cartridge = Cartridge::new();
    cartridge.rom = vec![0xAB; 4096 - 0x200 + 1];
    assert_eq!(cpu.load_rom(&cartridge), Err(CpuError::RomTooLarge));
    assert_eq!(cpu.memory, before);
    assert_eq!(cpu.program_counter, 0x200);
}

#[test]
fn load_rom_leaves_registers_and_counter_alone() {
    let mut cpu = Cpu::new();
    cpu.register[3] = 9;
    cpu.program_counter = 0x300;
    cpu.stack_pointer = 2;
    let mut cartridge = Cartridge::new();
    cartridge.rom = vec![1, 2];
    cpu.load_rom(&cartridge).unwrap();
    assert_eq!(cpu.register[3], 9);
    assert_eq!(cpu.program_counter, 0x300);
    assert_eq!(cpu.stack_pointer, 2);
    assert_eq!(cpu.memory[0x202], 0);
}

#[test]
fn add_with_carry_for_all_values() {
    for vx in 0..=255u16 {
        for vy in 0..=255u16 {
            let mut cpu = Cpu::new();
            cpu.register[2] = vx as u8;
            cpu.register[7] = vy as u8;
            cpu.add_y_to_x(2, 7);
            assert_eq!(cpu.register[2] as u16, (vx + vy) % 256);
            assert_eq!(cpu.register[0xF] == 1, vx + vy > 255);
            assert!(cpu.register[0xF] <= 1);
        }
    }
}

#[test]
fn add_immediate_wraps_without_flag() {
    let mut cpu = with_program(&[0x71, 0x05]);
    cpu.register[1] = 0xFE;
    cpu.register[0xF] = 0x55;
    cpu.step_with(0, 0).unwrap();
    assert_eq!(cpu.register[1], 3);
    assert_eq!(cpu.register[0xF], 0x55);
    assert_eq!(cpu.program_counter, 0x202);
}

#[test]
fn subtract_equal_values_clears_the_flag() {
    let mut cpu = Cpu::new();
    cpu.register[0] = 9;
    cpu.register[1] = 9;
    cpu.sub_y_from_x(0, 1);
    assert_eq!(cpu.register[0], 0);
    assert_eq!(cpu.register[0xF], 0);
}

#[test]
fn left_shift_takes_the_high_bit() {
    let mut cpu = Cpu::new();
    cpu.register[4] = 0x81;
    cpu.left_shift_x(4);
    assert_eq!(cpu.register[4], 0x02);
    assert_eq!(cpu.register[0xF], 1);
}

#[test]
fn register_round_trip() {
    let mut cpu = Cpu::new();
    cpu.i = 0x345;
    for j in 0..16 {
        cpu.register[j] = (j as u8) * 3 + 1;
    }
    let saved = cpu.register;
    cpu.store_registers_to_memory(9);
    cpu.register = [0xEE; 16];
    cpu.read_memory_to_registers(9);
    assert_eq!(&cpu.register[..10], &saved[..10]);
    assert_eq!(&cpu.register[10..], &[0xEE; 6]);
    assert_eq!(cpu.i, 0x345);
    assert_eq!(cpu.memory[0x345 + 10], 0);
}

#[test]
fn sprite_drawn_twice_is_gone() {
    let mut cpu = Cpu::new();
    cpu.register[0] = 10;
    cpu.register[1] = 5;
    cpu.i = 0;
    cpu.draw_a_sprite(0, 1, 5);
    let shown = cpu.read_pixels();
    assert_eq!(cpu.register[0xF], 0);
    assert_eq!(&shown[5][10..18], &[1, 1, 1, 1, 0, 0, 0, 0]);
    assert_eq!(&shown[6][10..18], &[1, 0, 0, 1, 0, 0, 0, 0]);
    assert_eq!(&shown[9][10..18], &[1, 1, 1, 1, 0, 0, 0, 0]);
    assert_eq!(shown.iter().flatten().filter(|p| **p == 1).count(), 14);
    cpu.draw_a_sprite(0, 1, 5);
    assert_eq!(cpu.register[0xF], 1);
    assert!(cpu.read_pixels().iter().all(|row| row.iter().all(|p| *p == 0)));
}

#[test]
fn collision_counts_over_the_whole_sprite() {
    let mut cpu = Cpu::new();
    cpu.pixels[0][0] = 1;
    cpu.memory[0x300] = 0x80;
    cpu.memory[0x301] = 0x00;
    cpu.memory[0x302] = 0x01;
    cpu.i = 0x300;
    cpu.draw_a_sprite(0, 0, 3);
    assert_eq!(cpu.register[0xF], 1);
    assert_eq!(cpu.pixels[0][0], 0);
    assert_eq!(cpu.pixels[2][7], 1);
}

#[test]
fn sprite_wraps_on_both_axes() {
    let mut cpu = Cpu::new();
    cpu.memory[0x300] = 0xFF;
    cpu.memory[0x301] = 0xFF;
    cpu.i = 0x300;
    cpu.register[0] = 60 + 64;
    cpu.register[1] = 31 + 32;
    cpu.draw_a_sprite(0, 1, 2);
    let p = cpu.read_pixels();
    for row in [31usize, 0] {
        for col in [60usize, 61, 62, 63, 0, 1, 2, 3] {
            assert_eq!(p[row][col], 1);
        }
        assert_eq!(p[row][4], 0);
        assert_eq!(p[row][59], 0);
    }
    assert_eq!(p.iter().flatten().filter(|v| **v == 1).count(), 16);
    assert_eq!(cpu.register[0xF], 0);
}

#[test]
fn sprite_of_no_rows_clears_the_flag() {
    let mut cpu = with_program(&[0xD0, 0x10]);
    cpu.register[0xF] = 1;
    assert_eq!(cpu.step_with(0, 0), Ok(()));
    assert_eq!(cpu.register[0xF], 0);
    assert_eq!(cpu.program_counter, 0x202);
}

#[test]
fn clear_screen_instruction() {
    let mut cpu = with_program(&[0x00, 0xE0]);
    cpu.pixels[3][4] = 1;
    assert_eq!(cpu.step_with(0, 0), Ok(()));
    assert!(cpu.read_pixels().iter().all(|row| row.iter().all(|p| *p == 0)));
    assert_eq!(cpu.program_counter, 0x202);
}

#[test]
fn skip_instructions_pass_over_one_instruction() {
    let mut cpu = with_program(&[0x30, 0x07]);
    cpu.register[0] = 7;
    cpu.step_with(0, 0).unwrap();
    assert_eq!(cpu.program_counter, 0x204);
    let mut cpu = with_program(&[0x30, 0x07]);
    cpu.step_with(0, 0).unwrap();
    assert_eq!(cpu.program_counter, 0x202);
    let mut cpu = with_program(&[0x90, 0x10]);
    cpu.register[1] = 1;
    cpu.step_with(0, 0).unwrap();
    assert_eq!(cpu.program_counter, 0x204);
}

#[test]
fn jump_with_offset_adds_v0() {
    let mut cpu = with_program(&[0xB3, 0x00]);
    cpu.register[0] = 0x21;
    cpu.step_with(0, 0).unwrap();
    assert_eq!(cpu.program_counter, 0x321);
}

#[test]
fn random_is_masked_by_kk() {
    let mut cpu = with_program(&[0xC5, 0x0F]);
    assert_eq!(cpu.step_with(0xAB, 0), Ok(()));
    assert_eq!(cpu.register[5], 0x0B);
    assert_eq!(cpu.program_counter, 0x202);
    let mut cpu = Cpu::new();
    cpu.store_random_to_x(1, 0xF0, 0xFF);
    assert_eq!(cpu.register[1], 0xF0);
}

#[test]
fn random_instruction_keeps_the_mask() {
    for _ in 0..200 {
        let mut cpu = with_program(&[0xC3, 0x81]);
        assert_eq!(cpu.run_next_instruction(), Ok(()));
        assert_eq!(cpu.register[3] & !0x81, 0);
        assert_eq!(cpu.program_counter, 0x202);
    }
}

#[test]
fn index_instructions() {
    let mut cpu = with_program(&[0xA1, 0x23, 0xF4, 0x1E, 0xF4, 0x29]);
    cpu.register[4] = 0x0A;
    cpu.step_with(0, 0).unwrap();
    assert_eq!(cpu.i, 0x123);
    cpu.step_with(0, 0).unwrap();
    assert_eq!(cpu.i, 0x12D);
    cpu.step_with(0, 0).unwrap();
    assert_eq!(cpu.i, 50);
    assert_eq!(cpu.program_counter, 0x206);
}

#[test]
fn sixteen_calls_then_overflow() {
    let mut cpu = with_program(&[0x22, 0x00]);
    for depth in 0..16 {
        assert_eq!(cpu.step_with(0, 0), Ok(()));
        assert_eq!(cpu.stack_pointer, depth + 1);
    }
    let stack = cpu.stack;
    assert_eq!(cpu.step_with(0, 0), Err(CpuError::StackOverflow));
    assert_eq!(cpu.stack_pointer, 16);
    assert_eq!(cpu.stack, stack);
    assert_eq!(cpu.program_counter, 0x200);
    assert_eq!(cpu.call_subroutine(0x300), Err(CpuError::StackOverflow));
}

#[test]
fn return_without_call_is_underflow() {
    let mut cpu = with_program(&[0x00, 0xEE]);
    assert_eq!(cpu.run_next_instruction(), Err(CpuError::StackUnderflow));
    assert_eq!(cpu.program_counter, 0x200);
    assert_eq!(cpu.stack_pointer, 0);
    assert_eq!(cpu.return_from_subroutine(), Err(CpuError::StackUnderflow));
}

#[test]
fn stack_pointer_beyond_the_stack_is_reported() {
    let mut cpu = Cpu::new();
    cpu.stack_pointer = 17;
    assert_eq!(cpu.return_from_subroutine(), Err(CpuError::StackOverflow));
    assert_eq!(cpu.stack_pointer, 17);
}

#[test]
fn unknown_opcode_is_reported_and_passed_over() {
    let mut cpu = with_program(&[0x50, 0x01, 0x61, 0x2A]);
    cpu.delay_timer = 2;
    let r = cpu.step_with(0, TIMER_RATE as u128);
    assert_eq!(r, Err(CpuError::UnimplementedOpcode(0x5001)));
    assert!(r.unwrap_err().is_recoverable());
    assert_eq!(cpu.program_counter, 0x202);
    assert_eq!(cpu.delay_timer, 1);
    assert_eq!(cpu.step_with(0, 0), Ok(()));
    assert_eq!(cpu.register[1], 0x2A);
    for word in [[0x00u8, 0x00], [0x8A, 0xB8], [0xE1, 0x00], [0xF1, 0xFF], [0x91, 0x21]] {
        let mut cpu = with_program(&word);
        let opcode = (word[0] as u16) << 8 | word[1] as u16;
        assert_eq!(cpu.step_with(0, 0), Err(CpuError::UnimplementedOpcode(opcode)));
        assert_eq!(cpu.program_counter, 0x202);
    }
}

#[test]
fn program_counter_past_memory_is_refused() {
    let mut cpu = Cpu::new();
    cpu.program_counter = 4095;
    assert_eq!(cpu.run_next_instruction(), Err(CpuError::AddressOutOfRange));
    assert_eq!(cpu.program_counter, 4095);
    assert!(!CpuError::AddressOutOfRange.is_recoverable());
    cpu.program_counter = 4094;
    assert_eq!(cpu.step_with(0, 0), Err(CpuError::UnimplementedOpcode(0)));
    assert_eq!(cpu.program_counter, 4096);
    assert_eq!(cpu.step_with(0, 0), Err(CpuError::AddressOutOfRange));
}

#[test]
fn memory_access_past_the_end_is_refused() {
    let mut cpu = with_program(&[0xF0, 0x33]);
    cpu.i = 4094;
    assert_eq!(cpu.step_with(0, 0), Err(CpuError::AddressOutOfRange));
    assert_eq!(cpu.program_counter, 0x200);
    cpu.i = 4093;
    cpu.register[0] = 255;
    assert_eq!(cpu.step_with(0, 0), Ok(()));
    assert_eq!(&cpu.memory[4093..], &[2, 5, 5]);

    let mut cpu = with_program(&[0xD0, 0x05]);
    cpu.i = 4092;
    assert_eq!(cpu.step_with(0, 0), Err(CpuError::AddressOutOfRange));

    let mut cpu = with_program(&[0xF3, 0x55]);
    cpu.i = 4093;
    assert_eq!(cpu.step_with(0, 0), Err(CpuError::AddressOutOfRange));
    assert!(cpu.memory[4093..].iter().all(|b| *b == 0));

    let mut cpu = with_program(&[0xF3, 0x65]);
    cpu.i = 4093;
    assert_eq!(cpu.step_with(0, 0), Err(CpuError::AddressOutOfRange));

    let mut cpu = with_program(&[0xF1, 0x1E]);
    cpu.i = 0xFFFF;
    cpu.register[1] = 1;
    assert_eq!(cpu.step_with(0, 0), Err(CpuError::AddressOutOfRange));
    assert_eq!(cpu.i, 0xFFFF);
}

#[test]
fn key_beyond_the_keypad_is_refused() {
    let mut cpu = with_program(&[0xE2, 0x9E]);
    cpu.register[2] = 16;
    assert_eq!(cpu.step_with(0, 0), Err(CpuError::KeyOutOfRange));
    assert_eq!(cpu.program_counter, 0x200);
    let mut cpu = with_program(&[0xE2, 0xA1]);
    cpu.register[2] = 200;
    assert_eq!(cpu.step_with(0, 0), Err(CpuError::KeyOutOfRange));
}

#[test]
fn key_skips() {
    let mut keys = [false; 16];
    keys[0xB] = true;
    let mut cpu = with_program(&[0xE2, 0x9E]);
    cpu.register[2] = 0xB;
    cpu.load_key_map(&keys);
    cpu.step_with(0, 0).unwrap();
    assert_eq!(cpu.program_counter, 0x204);
    let mut cpu = with_program(&[0xE2, 0xA1]);
    cpu.register[2] = 0xB;
    cpu.load_key_map(&keys);
    cpu.step_with(0, 0).unwrap();
    assert_eq!(cpu.program_counter, 0x202);
    cpu.program_counter = 0x200;
    cpu.load_key_map(&[false; 16]);
    cpu.step_with(0, 0).unwrap();
    assert_eq!(cpu.program_counter, 0x204);
}

#[test]
fn wait_for_key_repeats_until_a_key_is_down() {
    let mut cpu = with_program(&[0xF6, 0x0A]);
    for _ in 0..3 {
        assert_eq!(cpu.step_with(0, 0), Ok(()));
        assert_eq!(cpu.program_counter, 0x200);
        assert_eq!(cpu.register[6], 0);
    }
    let mut keys = [false; 16];
    keys[0xC] = true;
    keys[0x5] = true;
    cpu.load_key_map(&keys);
    assert_eq!(cpu.what_key_is_pressed(), Some(5));
    assert_eq!(cpu.step_with(0, 0), Ok(()));
    assert_eq!(cpu.register[6], 5);
    assert_eq!(cpu.program_counter, 0x202);
}

#[test]
fn wait_for_key_at_address_zero() {
    let mut cpu = Cpu::new();
    cpu.memory[0] = 0xF0;
    cpu.memory[1] = 0x0A;
    cpu.program_counter = 0;
    assert_eq!(cpu.step_with(0, 0), Ok(()));
    assert_eq!(cpu.program_counter, 0);
}

#[test]
fn wait_for_press_steps_back() {
    let mut cpu = Cpu::new();
    cpu.wait_for_press(3);
    assert_eq!(cpu.program_counter, 0x1FE);
    let mut keys = [false; 16];
    keys[0] = true;
    cpu.load_key_map(&keys);
    cpu.register[3] = 9;
    cpu.program_counter = 0;
    cpu.wait_for_press(3);
    assert_eq!(cpu.register[3], 0);
    assert_eq!(cpu.program_counter, 0);
}

#[test]
fn jump_with_offset_has_room_for_every_target() {
    let mut cpu = Cpu::new();
    cpu.register[0] = 0xFF;
    cpu.jump_to_addr_and_v0(0xFFFF);
    assert_eq!(cpu.program_counter, 0xFFFF + 0xFF);
}

#[test]
fn timers_count_once_per_period() {
    let mut cpu = Cpu::new();
    cpu.delay_timer = 10;
    cpu.sound_timer = 2;
    cpu.advance_timers(TIMER_RATE as u128 - 1);
    assert_eq!((cpu.delay_timer, cpu.sound_timer, cpu.tick_carry), (10, 2, TIMER_RATE - 1));
    cpu.advance_timers(1);
    assert_eq!((cpu.delay_timer, cpu.sound_timer, cpu.tick_carry), (9, 1, 0));
    cpu.advance_timers(3 * TIMER_RATE as u128 + 5);
    assert_eq!((cpu.delay_timer, cpu.sound_timer, cpu.tick_carry), (6, 0, 5));
    cpu.advance_timers(u128::MAX);
    assert_eq!((cpu.delay_timer, cpu.sound_timer), (0, 0));
    assert_eq!(cpu.tick_carry as u128, ((u128::MAX % 16666) + 5) % 16666);
}

#[test]
fn sound_timer_runs_down_and_stays_at_zero() {
    // V0 = 5; sound = V0; then a jump to itself.
    let mut cpu = with_program(&[0x60, 0x05, 0xF0, 0x18, 0x12, 0x04]);
    cpu.step_with(0, 0).unwrap();
    cpu.step_with(0, 0).unwrap();
    assert_eq!(cpu.read_sound_timer(), 5);
    for left in [4u8, 3, 2, 1, 0, 0, 0, 0] {
        cpu.step_with(0, TIMER_RATE as u128).unwrap();
        assert_eq!(cpu.read_sound_timer(), left);
        assert_eq!(cpu.program_counter, 0x204);
    }
}

#[test]
fn delay_timer_is_read_and_set() {
    let mut cpu = with_program(&[0xF1, 0x15, 0xF2, 0x07]);
    cpu.register[1] = 0x30;
    cpu.step_with(0, 0).unwrap();
    assert_eq!(cpu.read_delay_timer(), 0x30);
    cpu.step_with(0, 2 * TIMER_RATE as u128).unwrap();
    assert_eq!(cpu.register[2], 0x30);
    assert_eq!(cpu.read_delay_timer(), 0x2E);
}

#[test]
fn run_next_instruction_runs_a_program() {
    // V1 = 0x0F; V2 = 0xF0; V1 |= V2; I = 0x300; dump V0..V1; jump 0x20A.
    let mut cpu = with_program(&[0x61, 0x0F, 0x62, 0xF0, 0x81, 0x21, 0xA3, 0x00, 0xF1, 0x55, 0x12, 0x0A]);
    for _ in 0..8 {
        assert_eq!(cpu.run_next_instruction(), Ok(()));
    }
    assert_eq!(cpu.register[1], 0xFF);
    assert_eq!(cpu.memory[0x301], 0xFF);
    assert_eq!(cpu.program_counter, 0x20A);
}

#[test]
fn reset_gives_back_the_power_on_state() {
    let mut cpu = with_program(&[0x61, 0x0F]);
    cpu.run_next_instruction().unwrap();
    cpu.pixels[1][1] = 1;
    cpu.reset();
    assert_eq!(cpu.program_counter, 0x200);
    assert_eq!(cpu.register, [0; 16]);
    assert_eq!(cpu.memory[0x200], 0);
    assert_eq!(cpu.memory[0], 0xF0);
    assert_eq!(cpu.pixels[1][1], 0);
}

#[test]
fn program_counter_moves_by_one_instruction() {
    let mut cpu = Cpu::new();
    cpu.program_counter_increase();
    assert_eq!(cpu.program_counter, 0x202);
    cpu.program_counter_decrease();
    cpu.program_counter_decrease();
    assert_eq!(cpu.program_counter, 0x1FE);
}
