use chip8::{Chip8, Cycle, Fault, Instruction, INIT_INDEX, TIMER_PERIOD_NANOS};

fn run(chip8: &mut Chip8, instruction: Instruction) -> Result<Cycle, Fault> {
    chip8.execute(instruction, None)
}

#[test]
fn draw_tests() {
    let mut chip8 = Chip8::new(0);
    chip8.execute(Instruction::Draw { x_r: 0, y_r: 0, height: 5 }, None).unwrap();
    assert!(chip8.display[0][0]);
    assert!(chip8.display[1][0]);
    assert!(chip8.display[0][1]);
    chip8.execute(Instruction::Draw { x_r: 0, y_r: 0, height: 5 }, None).unwrap();
    assert!(!chip8.display[0][0]);
    assert!(!chip8.display[1][0]);
    assert!(!chip8.display[0][1]);
}

#[test]
fn num_tests() {
    let mut chip8 = Chip8::new(0);
    chip8.execute(Instruction::SetRegister { register: 0, value: 123 }, None).unwrap();
    chip8.execute(Instruction::SetIndexRegister { value: 0x400 }, None).unwrap();
    chip8.execute(Instruction::RegToDecimal { register: 0 }, None).unwrap();
    assert_eq!(chip8.memory[0x400], 1);
    assert_eq!(chip8.memory[0x401], 2);
    assert_eq!(chip8.memory[0x402], 3);
    chip8.execute(Instruction::SetRegister { register: 0, value: 10 }, None).unwrap();
    chip8.execute(Instruction::SetIndexRegister { value: 0x400 }, None).unwrap();
    chip8.execute(Instruction::RegToDecimal { register: 0 }, None).unwrap();
    assert_eq!(chip8.memory[0x400], 0);
    assert_eq!(chip8.memory[0x401], 1);
    assert_eq!(chip8.memory[0x402], 0);
}

#[test]
fn new_machine_holds_font() {
    let chip8 = Chip8::new(5);
    assert_eq!(&chip8.memory[0..5], &[0xF0, 0x90, 0x90, 0x90, 0xF0]);
    assert_eq!(&chip8.memory[75..80], &[0xF0, 0x80, 0xF0, 0x80, 0x80]);
    assert!(chip8.memory[80..].iter().all(|b| *b == 0));
    assert_eq!(chip8.pc, INIT_INDEX);
    assert_eq!(chip8.last_clock, 5);
    assert!(chip8.stack.is_empty());
}

#[test]
fn load_index_executes() {
    let mut chip8 = Chip8::new(0);
    let ins = chip8::decode(0xa2e0).unwrap();
    run(&mut chip8, ins).unwrap();
    assert_eq!(chip8.index_register, 0x2e0);
}

#[test]
fn add_immediate_wraps() {
    let mut chip8 = Chip8::new(0);
    run(&mut chip8, Instruction::SetRegister { register: 0xa, value: 0xf0 }).unwrap();
    run(&mut chip8, Instruction::AddToRegister { register: 0xa, value: 0xbc }).unwrap();
    assert_eq!(chip8.registers[0xa], 0xac);
    assert_eq!(chip8.registers[0xf], 0);
}

#[test]
fn add_sets_carry() {
    let mut chip8 = Chip8::new(0);
    chip8.registers[1] = 200;
    chip8.registers[2] = 100;
    run(&mut chip8, Instruction::Add { register1: 1, register2: 2 }).unwrap();
    assert_eq!(chip8.registers[1], 44);
    assert_eq!(chip8.registers[0xf], 1);
    chip8.registers[1] = 20;
    run(&mut chip8, Instruction::Add { register1: 1, register2: 2 }).unwrap();
    assert_eq!(chip8.registers[1], 120);
    assert_eq!(chip8.registers[0xf], 0);
}

#[test]
fn subtract_sets_no_borrow_flag() {
    let mut chip8 = Chip8::new(0);
    chip8.registers[1] = 5;
    chip8.registers[2] = 3;
    run(&mut chip8, Instruction::SubtractForward { register1: 1, register2: 2 }).unwrap();
    assert_eq!(chip8.registers[1], 2);
    assert_eq!(chip8.registers[0xf], 1);
    chip8.registers[1] = 3;
    chip8.registers[2] = 5;
    run(&mut chip8, Instruction::SubtractForward { register1: 1, register2: 2 }).unwrap();
    assert_eq!(chip8.registers[1], 254);
    assert_eq!(chip8.registers[0xf], 0);
    chip8.registers[1] = 3;
    chip8.registers[2] = 5;
    run(&mut chip8, Instruction::SubtractBackward { register1: 1, register2: 2 }).unwrap();
    assert_eq!(chip8.registers[1], 2);
    assert_eq!(chip8.registers[0xf], 1);
    chip8.registers[1] = 5;
    chip8.registers[2] = 3;
    run(&mut chip8, Instruction::SubtractBackward { register1: 1, register2: 2 }).unwrap();
    assert_eq!(chip8.registers[1], 254);
    assert_eq!(chip8.registers[0xf], 0);
}

#[test]
fn shifts_leave_flag_alone() {
    let mut chip8 = Chip8::new(0);
    chip8.registers[0xf] = 7;
    chip8.registers[3] = 0b1000_0011;
    run(&mut chip8, Instruction::ShiftRight { register1: 3, register2: 9 }).unwrap();
    assert_eq!(chip8.registers[3], 0b0100_0001);
    assert_eq!(chip8.registers[0xf], 7);
    chip8.registers[3] = 0b1000_0011;
    run(&mut chip8, Instruction::ShiftLeft { register1: 3, register2: 9 }).unwrap();
    assert_eq!(chip8.registers[3], 0b0000_0110);
    assert_eq!(chip8.registers[0xf], 7);
}

#[test]
fn bitwise_and_moves() {
    let mut chip8 = Chip8::new(0);
    chip8.registers[1] = 0b1100;
    chip8.registers[2] = 0b1010;
    run(&mut chip8, Instruction::BinaryOr { register1: 1, register2: 2 }).unwrap();
    assert_eq!(chip8.registers[1], 0b1110);
    chip8.registers[1] = 0b1100;
    run(&mut chip8, Instruction::BinaryAnd { register1: 1, register2: 2 }).unwrap();
    assert_eq!(chip8.registers[1], 0b1000);
    chip8.registers[1] = 0b1100;
    run(&mut chip8, Instruction::BinaryXor { register1: 1, register2: 2 }).unwrap();
    assert_eq!(chip8.registers[1], 0b0110);
    run(&mut chip8, Instruction::MovRegister { register1: 1, register2: 2 }).unwrap();
    assert_eq!(chip8.registers[1], 0b1010);
}

#[test]
fn store_clear_load_restores_registers() {
    for count in 0u8..=15 {
        for index in [0u16, 0x300, 0x7ff, 4096 - 16] {
            let mut chip8 = Chip8::new(0);
            let values: Vec<u8> = (0..16).map(|i| (i as u8).wrapping_mul(37).wrapping_add(count)).collect();
            for i in 0..16u8 {
                run(&mut chip8, Instruction::SetRegister { register: i, value: values[i as usize] }).unwrap();
            }
            run(&mut chip8, Instruction::SetIndexRegister { value: index }).unwrap();
            run(&mut chip8, Instruction::StoreMemory { register: count }).unwrap();
            assert_eq!(chip8.index_register, index);
            for i in 0..=count {
                assert_eq!(chip8.memory[index as usize + i as usize], values[i as usize]);
            }
            for i in 0..16u8 {
                run(&mut chip8, Instruction::SetRegister { register: i, value: 0 }).unwrap();
            }
            run(&mut chip8, Instruction::LoadMemory { register: count }).unwrap();
            assert_eq!(chip8.index_register, index);
            for i in 0..16u8 {
                let expected = if i <= count { values[i as usize] } else { 0 };
                assert_eq!(chip8.registers[i as usize], expected);
            }
        }
    }
}

#[test]
fn store_past_memory_end_faults() {
    let mut chip8 = Chip8::new(0);
    chip8.index_register = 4096 - 3;
    let before = chip8.memory;
    assert_eq!(
        run(&mut chip8, Instruction::StoreMemory { register: 3 }),
        Err(Fault::AddressOutOfRange { index: 4096 - 3 })
    );
    assert_eq!(chip8.memory, before);
    assert_eq!(
        run(&mut chip8, Instruction::LoadMemory { register: 3 }),
        Err(Fault::AddressOutOfRange { index: 4096 - 3 })
    );
    assert_eq!(run(&mut chip8, Instruction::StoreMemory { register: 2 }), Ok(Cycle::Complete));
    chip8.index_register = 4094;
    assert_eq!(
        run(&mut chip8, Instruction::RegToDecimal { register: 0 }),
        Err(Fault::AddressOutOfRange { index: 4094 })
    );
    chip8.index_register = 4090;
    assert_eq!(
        run(&mut chip8, Instruction::Draw { x_r: 0, y_r: 0, height: 7 }),
        Err(Fault::AddressOutOfRange { index: 4090 })
    );
    chip8.index_register = 0xffff;
    assert_eq!(run(&mut chip8, Instruction::Draw { x_r: 0, y_r: 0, height: 0 }), Ok(Cycle::RedrawRequested));
}

#[test]
fn store_bcd_values() {
    for (value, digits) in [(123u8, [1u8, 2, 3]), (10, [0, 1, 0]), (0, [0, 0, 0]), (255, [2, 5, 5]), (7, [0, 0, 7])] {
        let mut chip8 = Chip8::new(0);
        chip8.registers[4] = value;
        chip8.index_register = 0x500;
        run(&mut chip8, Instruction::RegToDecimal { register: 4 }).unwrap();
        assert_eq!(&chip8.memory[0x500..0x503], &digits);
    }
}

#[test]
fn add_to_index_flags_overflow() {
    let mut chip8 = Chip8::new(0);
    chip8.index_register = 0xffff;
    chip8.registers[2] = 1;
    run(&mut chip8, Instruction::AddToIndex { register: 2 }).unwrap();
    assert_eq!(chip8.index_register, 0);
    assert_eq!(chip8.registers[0xf], 1);
    chip8.index_register = 0xffff;
    chip8.registers[2] = 0;
    run(&mut chip8, Instruction::AddToIndex { register: 2 }).unwrap();
    assert_eq!(chip8.index_register, 0xffff);
    assert_eq!(chip8.registers[0xf], 0);
    chip8.index_register = 0x100;
    chip8.registers[2] = 0x20;
    run(&mut chip8, Instruction::AddToIndex { register: 2 }).unwrap();
    assert_eq!(chip8.index_register, 0x120);
    assert_eq!(chip8.registers[0xf], 0);
    chip8.index_register = 0xff80;
    chip8.registers[0xf] = 0xff;
    run(&mut chip8, Instruction::AddToIndex { register: 0xf }).unwrap();
    assert_eq!(chip8.index_register, 0x7f);
    assert_eq!(chip8.registers[0xf], 1);
}

#[test]
fn font_char_points_at_glyph() {
    let mut chip8 = Chip8::new(0);
    chip8.registers[1] = 0x1b;
    run(&mut chip8, Instruction::FontChar { register: 1 }).unwrap();
    assert_eq!(chip8.index_register, 0xb * 5);
}

#[test]
fn draw_twice_restores_display() {
    let mut chip8 = Chip8::new(0);
    chip8.display[3][60] = true;
    chip8.display[10][2] = true;
    chip8.registers[0] = 60;
    chip8.registers[1] = 30;
    chip8.index_register = 0x32;
    let before = chip8.display;
    run(&mut chip8, Instruction::Draw { x_r: 0, y_r: 1, height: 5 }).unwrap();
    assert_ne!(chip8.display, before);
    run(&mut chip8, Instruction::Draw { x_r: 0, y_r: 1, height: 5 }).unwrap();
    assert_eq!(chip8.display, before);
}

#[test]
fn draw_clips_at_edges() {
    let mut chip8 = Chip8::new(0);
    chip8.registers[0] = 62 + 64;
    chip8.registers[1] = 31 + 32;
    chip8.memory[0x300] = 0xff;
    chip8.memory[0x301] = 0xff;
    chip8.index_register = 0x300;
    assert_eq!(run(&mut chip8, Instruction::Draw { x_r: 0, y_r: 1, height: 2 }), Ok(Cycle::RedrawRequested));
    let lit: Vec<(usize, usize)> = (0..32)
        .flat_map(|y| (0..64).map(move |x| (y, x)))
        .filter(|(y, x)| chip8.display[*y][*x])
        .collect();
    assert_eq!(lit, vec![(31, 62), (31, 63)]);
}

#[test]
fn clear_screen_blanks_display() {
    let mut chip8 = Chip8::new(0);
    chip8.display[5][5] = true;
    assert_eq!(run(&mut chip8, Instruction::ClearScreen), Ok(Cycle::RedrawRequested));
    assert!(chip8.display.iter().all(|row| row.iter().all(|p| !*p)));
}

#[test]
fn calls_and_returns() {
    let mut chip8 = Chip8::new(0);
    chip8.pc = 0x206;
    run(&mut chip8, Instruction::CallSubroutine { dest: 0x400 }).unwrap();
    assert_eq!(chip8.pc, 0x400);
    assert_eq!(chip8.stack, vec![0x206]);
    run(&mut chip8, Instruction::Return).unwrap();
    assert_eq!(chip8.pc, 0x206);
    assert!(chip8.stack.is_empty());
    assert_eq!(run(&mut chip8, Instruction::Return), Err(Fault::StackUnderflow { pc: 0x206 }));
    run(&mut chip8, Instruction::Jump { dest: 0x345 }).unwrap();
    assert_eq!(chip8.pc, 0x345);
}

#[test]
fn skips() {
    let mut chip8 = Chip8::new(0);
    chip8.registers[1] = 9;
    chip8.registers[2] = 9;
    run(&mut chip8, Instruction::SkipEQ { register: 1, value: 9 }).unwrap();
    assert_eq!(chip8.pc, 0x202);
    run(&mut chip8, Instruction::SkipNEQ { register: 1, value: 9 }).unwrap();
    assert_eq!(chip8.pc, 0x202);
    run(&mut chip8, Instruction::SkipEQR { register1: 1, register2: 2 }).unwrap();
    assert_eq!(chip8.pc, 0x204);
    run(&mut chip8, Instruction::SkipNEQR { register1: 1, register2: 2 }).unwrap();
    assert_eq!(chip8.pc, 0x204);
}

#[test]
fn key_skips_and_wait() {
    let mut chip8 = Chip8::new(0);
    chip8.registers[1] = 4;
    chip8.execute(Instruction::SkipPressed { key: 1 }, None).unwrap();
    assert_eq!(chip8.pc, 0x200);
    chip8.execute(Instruction::SkipPressed { key: 1 }, Some(4)).unwrap();
    assert_eq!(chip8.pc, 0x202);
    chip8.execute(Instruction::SkipNotPressed { key: 1 }, None).unwrap();
    assert_eq!(chip8.pc, 0x204);
    chip8.execute(Instruction::SkipNotPressed { key: 1 }, Some(4)).unwrap();
    assert_eq!(chip8.pc, 0x204);
    chip8.execute(Instruction::SkipNotPressed { key: 1 }, Some(5)).unwrap();
    assert_eq!(chip8.pc, 0x206);
    chip8.execute(Instruction::GetKey { register: 7 }, None).unwrap();
    assert_eq!(chip8.pc, 0x204);
    chip8.execute(Instruction::GetKey { register: 7 }, Some(0xc)).unwrap();
    assert_eq!(chip8.pc, 0x204);
    assert_eq!(chip8.registers[7], 0xc);
}

#[test]
fn timer_transfers() {
    let mut chip8 = Chip8::new(0);
    chip8.registers[3] = 42;
    run(&mut chip8, Instruction::SetDelayTimer { register: 3 }).unwrap();
    run(&mut chip8, Instruction::SetSoundTimer { register: 3 }).unwrap();
    assert_eq!(chip8.delay_timer, 42);
    assert!(chip8.should_beep());
    run(&mut chip8, Instruction::GetDelayTimer { register: 5 }).unwrap();
    assert_eq!(chip8.registers[5], 42);
}

#[test]
fn random_is_masked_and_seeded() {
    let mut a = Chip8::new(0);
    let mut b = Chip8::new(0);
    let mut seen = Vec::new();
    for _ in 0..32 {
        run(&mut a, Instruction::Random { register: 2, value: 0x0f }).unwrap();
        run(&mut b, Instruction::Random { register: 2, value: 0x0f }).unwrap();
        assert!(a.registers[2] <= 0x0f);
        assert_eq!(a.registers[2], b.registers[2]);
        seen.push(a.registers[2]);
    }
    assert!(seen.iter().any(|v| *v != seen[0]));
    run(&mut a, Instruction::Random { register: 2, value: 0 }).unwrap();
    assert_eq!(a.registers[2], 0);
}

#[test]
fn timers_tick_once_per_period() {
    let mut chip8 = Chip8::new(1_000);
    chip8.delay_timer = 10;
    chip8.sound_timer = 1;
    for k in 1..100u64 {
        chip8.update_timers(1_000 + k * 1_000);
    }
    assert_eq!(chip8.delay_timer, 10);
    chip8.update_timers(1_000 + TIMER_PERIOD_NANOS);
    assert_eq!(chip8.delay_timer, 9);
    assert_eq!(chip8.sound_timer, 0);
    assert!(!chip8.should_beep());
    chip8.update_timers(1_000 + TIMER_PERIOD_NANOS + TIMER_PERIOD_NANOS - 1);
    assert_eq!(chip8.delay_timer, 9);
    chip8.update_timers(1_000 + 2 * TIMER_PERIOD_NANOS);
    assert_eq!(chip8.delay_timer, 8);
    assert_eq!(chip8.sound_timer, 0);
    chip8.update_timers(0);
    assert_eq!(chip8.delay_timer, 8);
}

#[test]
fn cycle_fetches_and_executes() {
    let mut chip8 = Chip8::new(0);
    assert_eq!(chip8.read_program(&[0x6a, 0x05, 0x7a, 0x03, 0x00, 0xe0]), 6);
    assert_eq!(chip8.get_instruction(), 0x6a05);
    assert_eq!(chip8.cycle(None, 0), Ok(Cycle::Complete));
    assert_eq!(chip8.cycle(None, 0), Ok(Cycle::Complete));
    assert_eq!(chip8.registers[0xa], 8);
    assert_eq!(chip8.cycle(None, 0), Ok(Cycle::RedrawRequested));
    assert_eq!(chip8.pc, 0x206);
    assert_eq!(chip8.cycle(None, 0), Err(Fault::UnknownInstruction { word: 0, address: 0x206 }));
}

#[test]
fn cycle_refuses_bad_pc() {
    let mut chip8 = Chip8::new(0);
    chip8.pc = 0x1fe;
    assert!(!chip8.pc_inbounds());
    assert_eq!(chip8.cycle(None, 0), Err(Fault::PcOutOfBounds { pc: 0x1fe }));
    chip8.pc = 4095;
    assert_eq!(chip8.cycle(None, 0), Err(Fault::PcOutOfBounds { pc: 4095 }));
    chip8.pc = 4094;
    assert!(chip8.pc_inbounds());
}

#[test]
fn cycle_counts_down_timers() {
    let mut chip8 = Chip8::new(0);
    chip8.read_program(&[0x12, 0x00]);
    chip8.delay_timer = 3;
    for i in 0..10u64 {
        chip8.cycle(None, i).unwrap();
    }
    assert_eq!(chip8.delay_timer, 3);
    chip8.cycle(None, TIMER_PERIOD_NANOS).unwrap();
    assert_eq!(chip8.delay_timer, 2);
    assert_eq!(chip8.pc, 0x200);
}

#[test]
fn read_program_truncates() {
    let mut chip8 = Chip8::new(0);
    let image: Vec<u8> = (0..5000u32).map(|i| (i % 251) as u8 + 1).collect();
    assert_eq!(chip8.read_program(&image), 4096 - 0x200);
    assert_eq!(chip8.memory[0x200], 1);
    assert_eq!(chip8.memory[4095], image[4095 - 0x200]);
    assert_eq!(chip8.memory[0], 0xF0);
}

#[test]
fn frame_export() {
    let mut chip8 = Chip8::new(0);
    chip8.display[0][0] = true;
    chip8.display[1][2] = true;
    let mut frame = vec![7u8; 64 * 32 * 4];
    chip8.draw(&mut frame);
    assert_eq!(frame[0], 255);
    assert_eq!(frame[1], 7);
    assert_eq!(frame[4], 0);
    assert_eq!(frame[2 * 4 + 64 * 4], 255);
    assert_eq!(frame.iter().filter(|b| **b == 255).count(), 2);
    assert_eq!(frame.iter().filter(|b| **b == 0).count(), 64 * 32 - 2);
}

#[test]
fn listing_stops_at_zero_word() {
    let mut chip8 = Chip8::new(0);
    chip8.read_program(&[0xa2, 0xe0, 0x7a, 0xbc, 0x00, 0x00, 0x12, 0x00]);
    let listing = chip8.program_listing();
    assert_eq!(
        listing,
        vec![
            (0x200, 0xa2e0, Some(Instruction::SetIndexRegister { value: 0x2e0 })),
            (0x202, 0x7abc, Some(Instruction::AddToRegister { register: 0xa, value: 0xbc })),
        ]
    );
    let mut full = Chip8::new(0);
    full.read_program(&vec![0xff; 4096]);
    let listing = full.program_listing();
    assert_eq!(listing.len(), (4096 - 0x200) / 2);
    assert_eq!(listing[0], (0x200, 0xffff, None));
}
