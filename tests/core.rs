use rusty_chip8::error::AppError;
use rusty_chip8::execute::StepOutcome;
use rusty_chip8::instruction::{decode, Instruction};
use rusty_chip8::keypad::{get_key_index, Keypad};
use rusty_chip8::machine::{font, ExecutionMode, Machine, MAX_PROGRAM_SIZE, PROGRAM_START};
use rusty_chip8::scheduler::{Scheduler, DEFAULT_TICK_PERIOD_US};
use rusty_chip8::screen::{Screen, SCREEN_HEIGHT, SCREEN_SIZE, SCREEN_WIDTH};

fn boot(rom: &[u8]) -> (Machine, Screen, Keypad) {
    (Machine::load(rom).unwrap(), Screen::new(), Keypad::new())
}

fn run(m: &mut Machine, s: &mut Screen, k: &Keypad, ins: Instruction) {
    m.execute(s, k, ins, 0).unwrap();
}

fn lit_cells(s: &Screen) -> Vec<(usize, usize)> {
    let mut v = Vec::new();
    for y in 0..SCREEN_HEIGHT {
        for x in 0..SCREEN_WIDTH {
            if s.is_lit(x, y) {
                v.push((x, y));
            }
        }
    }
    v
}

#[test]
fn screen_starts_unlit_and_toggles() {
    let mut s = Screen::new();
    assert!(s.pixels.iter().all(|p| !p));
    assert!(!s.toggle(3, 4));
    assert!(s.is_lit(3, 4));
    assert!(s.toggle(3, 4));
    assert!(!s.is_lit(3, 4));
    s.fill();
    assert!(s.pixels.iter().all(|p| *p));
    s.clear();
    assert_eq!(lit_cells(&s).len(), 0);
    assert_eq!(s.pixels.len(), SCREEN_SIZE);
}

#[test]
fn screen_coordinates_wrap() {
    assert_eq!(Screen::clamp(64, 32), (0, 0));
    assert_eq!(Screen::clamp(70, 40), (6, 8));
    assert_eq!(Screen::clamp(255, 255), (63, 31));
    assert_eq!(Screen::clamp(63, 31), (63, 31));
    let mut s = Screen::new();
    s.toggle(65, 33);
    assert_eq!(lit_cells(&s), vec![(1, 1)]);
}

#[test]
fn decode_recognises_each_class() {
    assert_eq!(decode(0x00E0), Ok(Instruction::Clear));
    assert_eq!(decode(0x00EE), Ok(Instruction::Return));
    assert_eq!(decode(0x0123), Ok(Instruction::Sys { nnn: 0x123 }));
    assert_eq!(decode(0x1ABC), Ok(Instruction::Jump { nnn: 0xABC }));
    assert_eq!(decode(0x2ABC), Ok(Instruction::Call { nnn: 0xABC }));
    assert_eq!(decode(0x3A42), Ok(Instruction::SkipEqByte { x: 0xA, kk: 0x42 }));
    assert_eq!(decode(0x5AB0), Ok(Instruction::SkipEqReg { x: 0xA, y: 0xB }));
    assert_eq!(decode(0x5AB1), Ok(Instruction::SkipEqReg { x: 0xA, y: 0xB }));
    assert_eq!(decode(0x9AB0), Ok(Instruction::SkipNeReg { x: 0xA, y: 0xB }));
    assert_eq!(decode(0x9AB3), Ok(Instruction::SkipNeReg { x: 0xA, y: 0xB }));
    assert_eq!(decode(0x8AB4), Ok(Instruction::AddReg { x: 0xA, y: 0xB }));
    assert_eq!(decode(0x8ABE), Ok(Instruction::ShiftLeft { x: 0xA, y: 0xB }));
    assert_eq!(decode(0xD125), Ok(Instruction::Draw { x: 1, y: 2, n: 5 }));
    assert_eq!(decode(0xE39E), Ok(Instruction::SkipKey { x: 3 }));
    assert_eq!(decode(0xF30A), Ok(Instruction::WaitKey { x: 3 }));
    assert_eq!(decode(0xF765), Ok(Instruction::LoadRegs { x: 7 }));
}

#[test]
fn decode_rejects_unknown_words() {
    for op in [0x800Fu16, 0xE000, 0xF0FF, 0xFFFF] {
        assert_eq!(decode(op), Err(AppError::IllegalOpcode { opcode: op }));
    }
}

#[test]
fn load_places_font_and_program() {
    let m = Machine::load(&[0xAB, 0xCD]).unwrap();
    assert_eq!(&m.memory[0..80], &font()[..]);
    assert_eq!(m.memory[PROGRAM_START], 0xAB);
    assert_eq!(m.memory[PROGRAM_START + 1], 0xCD);
    assert_eq!(m.memory[PROGRAM_START + 2], 0);
    assert_eq!(m.pc, 0x200);
    assert_eq!(m.sp, 0);
    assert_eq!(m.mode, ExecutionMode::Running);
}

#[test]
fn load_rejects_oversized_program() {
    assert!(Machine::load(&vec![0u8; MAX_PROGRAM_SIZE]).is_ok());
    assert_eq!(
        Machine::load(&vec![0u8; MAX_PROGRAM_SIZE + 1]).err(),
        Some(AppError::ProgramTooLarge { len: 3585 })
    );
}

#[test]
fn add_sets_carry() {
    let (mut m, mut s, k) = boot(&[]);
    m.registers[1] = 200;
    m.registers[2] = 100;
    run(&mut m, &mut s, &k, Instruction::AddReg { x: 1, y: 2 });
    assert_eq!((m.registers[1], m.registers[0xF]), (44, 1));
    m.registers[1] = 100;
    run(&mut m, &mut s, &k, Instruction::AddReg { x: 1, y: 2 });
    assert_eq!((m.registers[1], m.registers[0xF]), (200, 0));
    m.registers[1] = 155;
    m.registers[2] = 101;
    run(&mut m, &mut s, &k, Instruction::AddReg { x: 1, y: 2 });
    assert_eq!((m.registers[1], m.registers[0xF]), (0, 1));
}

#[test]
fn sub_sets_not_borrow() {
    let (mut m, mut s, k) = boot(&[]);
    m.registers[1] = 5;
    m.registers[2] = 10;
    run(&mut m, &mut s, &k, Instruction::SubReg { x: 1, y: 2 });
    assert_eq!((m.registers[1], m.registers[0xF]), (251, 0));
    m.registers[1] = 10;
    m.registers[2] = 10;
    run(&mut m, &mut s, &k, Instruction::SubReg { x: 1, y: 2 });
    assert_eq!((m.registers[1], m.registers[0xF]), (0, 1));
    m.registers[1] = 5;
    m.registers[2] = 10;
    run(&mut m, &mut s, &k, Instruction::SubNeg { x: 1, y: 2 });
    assert_eq!((m.registers[1], m.registers[0xF]), (5, 1));
    m.registers[1] = 11;
    run(&mut m, &mut s, &k, Instruction::SubNeg { x: 1, y: 2 });
    assert_eq!((m.registers[1], m.registers[0xF]), (255, 0));
}

#[test]
fn shifts_flag_the_bit_shifted_out() {
    let (mut m, mut s, k) = boot(&[]);
    m.registers[4] = 0b0000_0101;
    run(&mut m, &mut s, &k, Instruction::ShiftRight { x: 4, y: 0 });
    assert_eq!((m.registers[4], m.registers[0xF]), (2, 1));
    run(&mut m, &mut s, &k, Instruction::ShiftRight { x: 4, y: 0 });
    assert_eq!((m.registers[4], m.registers[0xF]), (1, 0));
    m.registers[4] = 0x81;
    run(&mut m, &mut s, &k, Instruction::ShiftLeft { x: 4, y: 0 });
    assert_eq!((m.registers[4], m.registers[0xF]), (0x02, 1));
    run(&mut m, &mut s, &k, Instruction::ShiftLeft { x: 4, y: 0 });
    assert_eq!((m.registers[4], m.registers[0xF]), (0x04, 0));
}

#[test]
fn flag_register_as_operand_ends_with_flag() {
    let (mut m, mut s, k) = boot(&[]);
    m.registers[0xF] = 0x03;
    run(&mut m, &mut s, &k, Instruction::ShiftRight { x: 0xF, y: 0 });
    assert_eq!(m.registers[0xF], 1);
}

#[test]
fn bitwise_and_immediate_ops() {
    let (mut m, mut s, k) = boot(&[]);
    run(&mut m, &mut s, &k, Instruction::LoadByte { x: 0, kk: 0b1100 });
    run(&mut m, &mut s, &k, Instruction::LoadByte { x: 1, kk: 0b1010 });
    run(&mut m, &mut s, &k, Instruction::LoadReg { x: 2, y: 0 });
    run(&mut m, &mut s, &k, Instruction::Or { x: 2, y: 1 });
    assert_eq!(m.registers[2], 0b1110);
    run(&mut m, &mut s, &k, Instruction::LoadReg { x: 2, y: 0 });
    run(&mut m, &mut s, &k, Instruction::And { x: 2, y: 1 });
    assert_eq!(m.registers[2], 0b1000);
    run(&mut m, &mut s, &k, Instruction::LoadReg { x: 2, y: 0 });
    run(&mut m, &mut s, &k, Instruction::Xor { x: 2, y: 1 });
    assert_eq!(m.registers[2], 0b0110);
    m.registers[3] = 250;
    m.registers[0xF] = 7;
    run(&mut m, &mut s, &k, Instruction::AddByte { x: 3, kk: 10 });
    assert_eq!((m.registers[3], m.registers[0xF]), (4, 7));
    assert_eq!(m.pc, 0x200 + 2 * 9);
}

#[test]
fn random_masks_the_drawn_byte() {
    let (mut m, mut s, k) = boot(&[]);
    m.execute(&mut s, &k, Instruction::Random { x: 5, kk: 0x0F }, 0xAB).unwrap();
    assert_eq!(m.registers[5], 0x0B);
    let (mut m, mut s, k) = boot(&[0xC5, 0x00]);
    m.registers[5] = 0xFF;
    assert_eq!(m.step(&mut s, &k), Ok(StepOutcome::Executed));
    assert_eq!(m.registers[5], 0);
}

#[test]
fn bcd_stores_three_digits() {
    let (mut m, mut s, k) = boot(&[]);
    m.registers[6] = 234;
    m.i = 0x300;
    run(&mut m, &mut s, &k, Instruction::StoreBcd { x: 6 });
    assert_eq!(&m.memory[0x300..0x303], &[2, 3, 4]);
    m.registers[6] = 7;
    run(&mut m, &mut s, &k, Instruction::StoreBcd { x: 6 });
    assert_eq!(&m.memory[0x300..0x303], &[0, 0, 7]);
    assert_eq!(m.i, 0x300);
}

#[test]
fn store_and_load_registers_round_trip() {
    let (mut m, mut s, k) = boot(&[]);
    for r in 0..16 {
        m.registers[r] = (r as u8) * 3 + 1;
    }
    m.i = 0x400;
    run(&mut m, &mut s, &k, Instruction::StoreRegs { x: 5 });
    assert_eq!(m.i, 0x400);
    assert_eq!(&m.memory[0x400..0x407], &[1, 4, 7, 10, 13, 16, 0]);
    let saved = m.registers;
    m.registers = [0; 16];
    run(&mut m, &mut s, &k, Instruction::LoadRegs { x: 5 });
    assert_eq!(m.i, 0x400);
    assert_eq!(&m.registers[0..6], &saved[0..6]);
    assert_eq!(&m.registers[6..], &[0u8; 10][..]);
}

#[test]
fn memory_access_past_the_end_fails() {
    let (mut m, mut s, k) = boot(&[]);
    m.i = 0xFFE;
    let before = m.memory;
    assert_eq!(
        m.execute(&mut s, &k, Instruction::StoreBcd { x: 0 }, 0),
        Err(AppError::AddressOutOfRange { address: 0xFFE })
    );
    assert_eq!(m.memory, before);
    assert_eq!(m.pc, 0x200);
    m.i = 0xFFC;
    assert_eq!(
        m.execute(&mut s, &k, Instruction::Draw { x: 0, y: 0, n: 5 }, 0),
        Err(AppError::AddressOutOfRange { address: 0xFFC })
    );
    m.pc = 0xFFF;
    assert_eq!(m.step(&mut s, &k), Err(AppError::AddressOutOfRange { address: 0xFFF }));
}

#[test]
fn draw_twice_restores_display() {
    let (mut m, mut s, k) = boot(&[]);
    m.i = 0; // digit 0
    m.registers[0] = 10;
    m.registers[1] = 5;
    s.toggle(10, 5);
    s.toggle(40, 20);
    let before = s.pixels;
    run(&mut m, &mut s, &k, Instruction::Draw { x: 0, y: 1, n: 5 });
    assert_eq!(m.registers[0xF], 1);
    run(&mut m, &mut s, &k, Instruction::Draw { x: 0, y: 1, n: 5 });
    assert_eq!(m.registers[0xF], 1);
    assert_eq!(s.pixels, before);

    let mut s = Screen::new();
    run(&mut m, &mut s, &k, Instruction::Draw { x: 0, y: 1, n: 5 });
    assert_eq!(m.registers[0xF], 0);
    run(&mut m, &mut s, &k, Instruction::Draw { x: 0, y: 1, n: 5 });
    assert_eq!(m.registers[0xF], 1);
    assert_eq!(lit_cells(&s).len(), 0);
}

#[test]
fn draw_wraps_at_the_edges() {
    let mut s = Screen::new();
    let collision = s.draw(&[0xFF, 0x80], 63, 31);
    assert!(!collision);
    let mut expected = vec![(63, 31), (63, 0)];
    for x in 0..7 {
        expected.push((x, 31));
    }
    expected.sort_by_key(|&(x, y)| (y, x));
    assert_eq!(lit_cells(&s), expected);
}

#[test]
fn skips_move_pc_by_two_or_four() {
    let (mut m, mut s, mut k) = boot(&[]);
    m.registers[1] = 7;
    m.registers[2] = 7;
    let cases = [
        (Instruction::SkipEqByte { x: 1, kk: 7 }, 4),
        (Instruction::SkipEqByte { x: 1, kk: 8 }, 2),
        (Instruction::SkipNeByte { x: 1, kk: 7 }, 2),
        (Instruction::SkipNeByte { x: 1, kk: 8 }, 4),
        (Instruction::SkipEqReg { x: 1, y: 2 }, 4),
        (Instruction::SkipNeReg { x: 1, y: 2 }, 2),
        (Instruction::SkipKey { x: 1 }, 2),
        (Instruction::SkipNoKey { x: 1 }, 4),
    ];
    for (ins, by) in cases {
        let pc = m.pc;
        run(&mut m, &mut s, &k, ins);
        assert_eq!(m.pc, pc + by);
    }
    m.key_down(&mut k, 7);
    let pc = m.pc;
    run(&mut m, &mut s, &k, Instruction::SkipKey { x: 1 });
    assert_eq!(m.pc, pc + 4);
    m.registers[1] = 16;
    assert_eq!(
        m.execute(&mut s, &k, Instruction::SkipKey { x: 1 }, 0),
        Err(AppError::InvalidKey { key: 16 })
    );
}

#[test]
fn calls_and_returns_use_the_stack() {
    // 0x200: call 0x206; 0x202: jump self; 0x206: return
    let (mut m, mut s, k) = boot(&[0x22, 0x06, 0x12, 0x02, 0x00, 0x00, 0x00, 0xEE]);
    m.step(&mut s, &k).unwrap();
    assert_eq!((m.pc, m.sp, m.stack[0]), (0x206, 1, 0x200));
    m.step(&mut s, &k).unwrap();
    assert_eq!((m.pc, m.sp), (0x202, 0));
}

#[test]
fn stack_overflow_and_underflow_are_errors() {
    let (mut m, mut s, k) = boot(&[0x22, 0x00]);
    for _ in 0..16 {
        m.step(&mut s, &k).unwrap();
    }
    assert_eq!(m.sp, 16);
    assert_eq!(m.step(&mut s, &k), Err(AppError::StackOverflow));
    assert_eq!(m.sp, 16);
    let (mut m, mut s, k) = boot(&[0x00, 0xEE]);
    assert_eq!(m.step(&mut s, &k), Err(AppError::StackUnderflow));
    assert_eq!(m.pc, 0x200);
}

#[test]
fn illegal_opcode_stops_the_step() {
    let (mut m, mut s, k) = boot(&[0xFF, 0xFF]);
    assert_eq!(m.step(&mut s, &k), Err(AppError::IllegalOpcode { opcode: 0xFFFF }));
    assert_eq!(m.pc, 0x200);
}

#[test]
fn jumps_and_index_updates() {
    let (mut m, mut s, k) = boot(&[]);
    m.registers[0] = 0x10;
    run(&mut m, &mut s, &k, Instruction::JumpV0 { nnn: 0x300 });
    assert_eq!(m.pc, 0x310);
    run(&mut m, &mut s, &k, Instruction::LoadI { nnn: 0xFFF });
    m.registers[3] = 0x20;
    run(&mut m, &mut s, &k, Instruction::AddI { x: 3 });
    assert_eq!(m.i, 0x101F);
    m.i = 0xFFFF;
    run(&mut m, &mut s, &k, Instruction::AddI { x: 3 });
    assert_eq!(m.i, 0x1F);
    m.registers[3] = 0xA;
    run(&mut m, &mut s, &k, Instruction::LoadFont { x: 3 });
    assert_eq!(m.i, 50);
    run(&mut m, &mut s, &k, Instruction::Sys { nnn: 0x123 });
}

#[test]
fn timers_count_down_to_zero() {
    let (mut m, mut s, k) = boot(&[]);
    m.registers[0] = 2;
    run(&mut m, &mut s, &k, Instruction::SetDelay { x: 0 });
    run(&mut m, &mut s, &k, Instruction::SetSound { x: 0 });
    assert!(m.sound_active());
    m.tick_timers();
    assert_eq!((m.delay_timer, m.sound_timer), (1, 1));
    m.tick_timers();
    m.tick_timers();
    assert_eq!((m.delay_timer, m.sound_timer), (0, 0));
    assert!(!m.sound_active());
    run(&mut m, &mut s, &k, Instruction::LoadDelay { x: 1 });
    assert_eq!(m.registers[1], 0);
}

#[test]
fn key_wait_blocks_until_key_down() {
    let (mut m, mut s, mut k) = boot(&[0xF3, 0x0A, 0x12, 0x02]);
    assert_eq!(m.step(&mut s, &k), Ok(StepOutcome::Executed));
    assert_eq!(m.mode, ExecutionMode::AwaitingKey(3));
    assert_eq!(m.pc, 0x200);
    for _ in 0..5 {
        assert_eq!(m.step(&mut s, &k), Ok(StepOutcome::Suspended));
        assert_eq!(m.pc, 0x200);
    }
    m.key_down(&mut k, 0xB);
    assert_eq!(m.registers[3], 0xB);
    assert_eq!(m.mode, ExecutionMode::Running);
    assert_eq!(m.pc, 0x202);
    assert!(k.is_pressed(0xB));
    k.release(0xB);
    assert!(!k.is_pressed(0xB));
}

#[test]
fn held_key_does_not_satisfy_a_later_wait() {
    let (mut m, mut s, mut k) = boot(&[0xF3, 0x0A]);
    m.key_down(&mut k, 2);
    m.step(&mut s, &k).unwrap();
    m.key_down(&mut k, 2);
    assert_eq!(m.mode, ExecutionMode::AwaitingKey(3));
    k.release(2);
    m.key_down(&mut k, 2);
    assert_eq!(m.mode, ExecutionMode::Running);
    assert_eq!(m.registers[3], 2);
}

#[test]
fn pause_toggles_running() {
    let (mut m, mut s, k) = boot(&[0x60, 0x01]);
    m.toggle_pause();
    assert_eq!(m.mode, ExecutionMode::Paused);
    assert_eq!(m.step(&mut s, &k), Ok(StepOutcome::Suspended));
    assert_eq!(m.registers[0], 0);
    m.toggle_pause();
    assert_eq!(m.mode, ExecutionMode::Running);
}

#[test]
fn clear_then_jump_keeps_display_unlit() {
    let (mut m, mut s, k) = boot(&[0x00, 0xE0, 0x12, 0x00]);
    s.fill();
    m.step(&mut s, &k).unwrap();
    m.step(&mut s, &k).unwrap();
    assert_eq!(m.pc, 0x200);
    let mut sched = Scheduler::new();
    for _ in 0..50 {
        sched.run_frame(DEFAULT_TICK_PERIOD_US, &mut m, &mut s, &k).unwrap();
        assert_eq!(lit_cells(&s).len(), 0);
        assert!(m.pc == 0x200 || m.pc == 0x202);
    }
}

#[test]
fn digit_sprite_draws_font_pattern() {
    // V0 = 5; I = sprite of V0; V1 = 10; V2 = 8; draw 5 rows at (V1, V2)
    let rom = [0x60, 0x05, 0xF0, 0x29, 0x61, 0x0A, 0x62, 0x08, 0xD1, 0x25];
    let (mut m, mut s, k) = boot(&rom);
    for _ in 0..5 {
        m.step(&mut s, &k).unwrap();
    }
    assert_eq!(m.i, 25);
    assert_eq!(m.registers[0xF], 0);
    let rows = [0xF0u8, 0x80, 0xF0, 0x10, 0xF0];
    let mut expected = Vec::new();
    for (r, byte) in rows.iter().enumerate() {
        for c in 0..8 {
            if byte & (0x80 >> c) != 0 {
                expected.push((10 + c, 8 + r));
            }
        }
    }
    assert_eq!(lit_cells(&s), expected);
}

#[test]
fn scheduler_ticks_once_per_period() {
    // VA = 60; delay = VA; jump self
    let (mut m, mut s, k) = boot(&[0x6A, 0x3C, 0xFA, 0x15, 0x12, 0x04]);
    let mut sched = Scheduler::new();
    assert_eq!(sched.run_frame(10_000, &mut m, &mut s, &k), Ok(0));
    assert_eq!(sched.lag_us, 10_000);
    assert_eq!(m.pc, 0x200);
    assert_eq!(sched.run_frame(6_666, &mut m, &mut s, &k), Ok(1));
    assert_eq!(sched.lag_us, 0);
    assert_eq!(m.delay_timer, 60);
    assert_eq!(sched.run_frame(3 * DEFAULT_TICK_PERIOD_US + 5, &mut m, &mut s, &k), Ok(3));
    assert_eq!(m.delay_timer, 57);
    assert_eq!(sched.lag_us, 5);
}

#[test]
fn scheduler_runs_the_instruction_budget() {
    let rom: Vec<u8> = [0x70u8, 0x01].iter().cycle().take(80).copied().collect();
    let (mut m, mut s, k) = boot(&rom);
    let mut sched = Scheduler::with_config(1_000, 15, true);
    assert_eq!(sched.run_frame(1_000, &mut m, &mut s, &k), Ok(1));
    assert_eq!(m.registers[0], 15);
    sched.set_speed(3);
    assert_eq!(sched.run_frame(2_000, &mut m, &mut s, &k), Ok(2));
    assert_eq!(m.registers[0], 21);
}

#[test]
fn scheduler_stands_still_while_paused() {
    let (mut m, mut s, k) = boot(&[0x12, 0x00]);
    m.delay_timer = 9;
    m.toggle_pause();
    let mut sched = Scheduler::new();
    assert_eq!(sched.run_frame(10 * DEFAULT_TICK_PERIOD_US, &mut m, &mut s, &k), Ok(0));
    assert_eq!(sched.lag_us, 0);
    assert_eq!(m.delay_timer, 9);
}

#[test]
fn key_wait_timer_policy() {
    let (mut m, mut s, k) = boot(&[0xF0, 0x0A]);
    m.delay_timer = 9;
    let mut sched = Scheduler::with_config(1_000, 15, true);
    assert_eq!(sched.run_frame(3_000, &mut m, &mut s, &k), Ok(3));
    assert_eq!(m.mode, ExecutionMode::AwaitingKey(0));
    assert_eq!(m.delay_timer, 6);

    let (mut m, mut s, k) = boot(&[0xF0, 0x0A]);
    m.delay_timer = 9;
    let mut sched = Scheduler::with_config(1_000, 15, false);
    assert_eq!(sched.run_frame(3_000, &mut m, &mut s, &k), Ok(1));
    assert_eq!(m.delay_timer, 8);
    assert_eq!(sched.lag_us, 2_000);
    assert!(sched.suspended(m.mode));
    assert_eq!(sched.run_frame(1_000, &mut m, &mut s, &k), Ok(0));
    assert_eq!(sched.lag_us, 2_000);
}

#[test]
fn scheduler_reports_step_errors() {
    let (mut m, mut s, k) = boot(&[0x60, 0x01, 0xFF, 0xFF]);
    let mut sched = Scheduler::new();
    assert_eq!(
        sched.run_frame(DEFAULT_TICK_PERIOD_US, &mut m, &mut s, &k),
        Err(AppError::IllegalOpcode { opcode: 0xFFFF })
    );
    assert_eq!(m.registers[0], 1);
    assert_eq!(m.pc, 0x202);
}

#[test]
fn run_tick_with_given_bytes() {
    let (mut m, mut s, k) = boot(&[0xC0, 0xFF, 0xC1, 0x0F]);
    m.delay_timer = 1;
    Scheduler::run_tick_with(&mut m, &mut s, &k, 2, &[0x12, 0x34]).unwrap();
    assert_eq!((m.registers[0], m.registers[1], m.delay_timer), (0x12, 0x04, 0));
    let (mut m, mut s, k) = boot(&[0x60, 0x07]);
    Scheduler::run_tick(&mut m, &mut s, &k, 1).unwrap();
    assert_eq!(m.registers[0], 7);
}

#[test]
fn lit_cells_lists_cells_in_row_major_order() {
    let mut s = Screen::new();
    assert!(s.lit_cells().is_empty());
    s.toggle(5, 9);
    s.toggle(63, 0);
    s.toggle(0, 9);
    s.toggle(7, 31);
    assert_eq!(s.lit_cells(), vec![(63, 0), (0, 9), (5, 9), (7, 31)]);
    s.fill();
    assert_eq!(s.lit_cells().len(), SCREEN_SIZE);
}

#[test]
fn keyboard_characters_map_to_keys() {
    assert_eq!(get_key_index('1'), Some(0));
    assert_eq!(get_key_index('4'), Some(3));
    assert_eq!(get_key_index('q'), Some(4));
    assert_eq!(get_key_index('f'), Some(11));
    assert_eq!(get_key_index('v'), Some(15));
    assert_eq!(get_key_index('5'), None);
    assert_eq!(get_key_index('Q'), None);
}

#[test]
fn register_skips_ignore_the_low_nibble() {
    let (mut m, mut s, k) = boot(&[0x51, 0x21]);
    assert_eq!(m.step(&mut s, &k), Ok(StepOutcome::Executed));
    assert_eq!(m.pc, 0x204);
    let (mut m, mut s, k) = boot(&[0x91, 0x2F]);
    m.registers[2] = 1;
    assert_eq!(m.step(&mut s, &k), Ok(StepOutcome::Executed));
    assert_eq!(m.pc, 0x204);
}
