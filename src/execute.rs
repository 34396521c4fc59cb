//! Instruction semantics, and the fetch-decode-execute step.
use vstd::prelude::*;
use crate::error::AppError;
use crate::instruction::{decode, decode_spec, Instruction};
use crate::keypad::Keypad;
use crate::machine::{ExecutionMode, Machine, MachineView, MEMORY_SIZE, STACK_DEPTH};
use crate::screen::{collides, drawn, Screen, SCREEN_SIZE};

verus! {

/// Value of register `x`.
pub open spec fn reg(m: MachineView, x: u8) -> u8 {
    m.registers[x as int]
}

/// `m` with register `x` set to `v`.
pub open spec fn set_reg(m: MachineView, x: u8, v: u8) -> MachineView {
    MachineView { registers: m.registers.update(x as int, v), ..m }
}

/// `m` with register `x` set to `v` and then register F set to the flag.
pub open spec fn set_reg_flag(m: MachineView, x: u8, v: u8, flag: bool) -> MachineView {
    set_reg(set_reg(m, x, v), 0xF, if flag { 1u8 } else { 0u8 })
}

/// `a + b` wrapped to 8 bits.
pub open spec fn add8(a: u8, b: u8) -> u8 {
    if a + b > 255 {
        (a + b - 256) as u8
    } else {
        (a + b) as u8
    }
}

/// `a - b` wrapped to 8 bits.
pub open spec fn sub8(a: u8, b: u8) -> u8 {
    if a >= b {
        (a - b) as u8
    } else {
        (a - b + 256) as u8
    }
}

/// `a + b` wrapped to 16 bits.
pub open spec fn add16(a: u16, b: u16) -> u16 {
    if a + b > 0xFFFF {
        (a + b - 0x10000) as u16
    } else {
        (a + b) as u16
    }
}

/// `m` with the program counter moved on by `by` bytes, wrapping at 16 bits.
pub open spec fn move_pc(m: MachineView, by: u16) -> MachineView {
    MachineView { pc: add16(m.pc, by), ..m }
}

/// `m` moved on to the next instruction.
pub open spec fn advance(m: MachineView) -> MachineView {
    move_pc(m, 2u16)
}

/// `m` moved on past the next instruction if `cond` holds, else to it.
pub open spec fn skip_if(m: MachineView, cond: bool) -> MachineView {
    move_pc(m, if cond { 4u16 } else { 2u16 })
}

/// A display with every cell unlit.
pub open spec fn cleared() -> Seq<bool> {
    Seq::new(SCREEN_SIZE as nat, |p: int| false)
}

/// Whether `len` bytes from `start` lie inside memory.
pub open spec fn in_memory(start: int, len: int) -> bool {
    start + len <= MEMORY_SIZE
}

/// Memory with the decimal digits of `v` at `i`, `i + 1`, `i + 2`.
pub open spec fn bcd_stored(mem: Seq<u8>, i: int, v: u8) -> Seq<u8> {
    mem.update(i, v / 100).update(i + 1, (v / 10) % 10).update(i + 2, v % 10)
}

/// Memory with registers `0..=x` copied to `i..=i + x`.
pub open spec fn regs_stored(mem: Seq<u8>, regs: Seq<u8>, i: int, x: int) -> Seq<u8> {
    Seq::new(mem.len(), |a: int| if i <= a <= i + x { regs[a - i] } else { mem[a] })
}

/// Registers with `0..=x` loaded from memory at `i..=i + x`.
pub open spec fn regs_loaded(regs: Seq<u8>, mem: Seq<u8>, i: int, x: int) -> Seq<u8> {
    Seq::new(regs.len(), |k: int| if k <= x { mem[i + k] } else { regs[k] })
}

/// The state and display after executing `ins` on `m` with display
/// `cells` and keys `keys`; `rnd` is the random byte that `Cxkk` uses.
pub open spec fn execute_spec(
    m: MachineView,
    cells: Seq<bool>,
    keys: Seq<bool>,
    ins: Instruction,
    rnd: u8,
) -> Result<(MachineView, Seq<bool>), AppError> {
    match ins {
        Instruction::Sys { nnn } => Ok((advance(m), cells)),
        Instruction::Clear => Ok((advance(m), cleared())),
        Instruction::Return => if m.sp == 0 {
            Err(AppError::StackUnderflow)
        } else if m.sp > STACK_DEPTH {
            Err(AppError::StackOverflow)
        } else {
            let top = m.stack[m.sp - 1];
            Ok((advance(MachineView { sp: (m.sp - 1) as u8, pc: top, ..m }), cells))
        },
        Instruction::Jump { nnn } => Ok((MachineView { pc: nnn, ..m }, cells)),
        Instruction::Call { nnn } => if m.sp >= STACK_DEPTH {
            Err(AppError::StackOverflow)
        } else {
            Ok(
                (
                    MachineView {
                        stack: m.stack.update(m.sp as int, m.pc),
                        sp: (m.sp + 1) as u8,
                        pc: nnn,
                        ..m
                    },
                    cells,
                ),
            )
        },
        Instruction::SkipEqByte { x, kk } => Ok((skip_if(m, reg(m, x) == kk), cells)),
        Instruction::SkipNeByte { x, kk } => Ok((skip_if(m, reg(m, x) != kk), cells)),
        Instruction::SkipEqReg { x, y } => Ok((skip_if(m, reg(m, x) == reg(m, y)), cells)),
        Instruction::SkipNeReg { x, y } => Ok((skip_if(m, reg(m, x) != reg(m, y)), cells)),
        Instruction::LoadByte { x, kk } => Ok((advance(set_reg(m, x, kk)), cells)),
        Instruction::AddByte { x, kk } => Ok(
            (advance(set_reg(m, x, add8(reg(m, x), kk))), cells),
        ),
        Instruction::LoadReg { x, y } => Ok((advance(set_reg(m, x, reg(m, y))), cells)),
        Instruction::Or { x, y } => Ok((advance(set_reg(m, x, reg(m, x) | reg(m, y))), cells)),
        Instruction::And { x, y } => Ok((advance(set_reg(m, x, reg(m, x) & reg(m, y))), cells)),
        Instruction::Xor { x, y } => Ok((advance(set_reg(m, x, reg(m, x) ^ reg(m, y))), cells)),
        Instruction::AddReg { x, y } => {
            let (a, b) = (reg(m, x), reg(m, y));
            Ok((advance(set_reg_flag(m, x, add8(a, b), a + b > 255)), cells))
        },
        Instruction::SubReg { x, y } => {
            let (a, b) = (reg(m, x), reg(m, y));
            Ok((advance(set_reg_flag(m, x, sub8(a, b), a >= b)), cells))
        },
        Instruction::SubNeg { x, y } => {
            let (a, b) = (reg(m, x), reg(m, y));
            Ok((advance(set_reg_flag(m, x, sub8(b, a), b >= a)), cells))
        },
        Instruction::ShiftRight { x, y } => {
            let a = reg(m, x);
            Ok((advance(set_reg_flag(m, x, a / 2, a % 2 == 1)), cells))
        },
        Instruction::ShiftLeft { x, y } => {
            let a = reg(m, x);
            Ok((advance(set_reg_flag(m, x, add8(a, a), a >= 128)), cells))
        },
        Instruction::LoadI { nnn } => Ok((advance(MachineView { i: nnn, ..m }), cells)),
        Instruction::JumpV0 { nnn } => Ok(
            (MachineView { pc: add16(nnn, reg(m, 0) as u16), ..m }, cells),
        ),
        Instruction::Random { x, kk } => Ok((advance(set_reg(m, x, rnd & kk)), cells)),
        Instruction::Draw { x, y, n } => if !in_memory(m.i as int, n as int) {
            Err(AppError::AddressOutOfRange { address: m.i as usize })
        } else {
            let sprite = m.memory.subrange(m.i as int, m.i + n);
            let (vx, vy) = (reg(m, x), reg(m, y));
            Ok(
                (
                    advance(set_reg(m, 0xF, if collides(cells, sprite, vx, vy) { 1u8 } else { 0u8 })),
                    drawn(cells, sprite, vx, vy),
                ),
            )
        },
        Instruction::SkipKey { x } => if reg(m, x) >= 16 {
            Err(AppError::InvalidKey { key: reg(m, x) })
        } else {
            Ok((skip_if(m, keys[reg(m, x) as int]), cells))
        },
        Instruction::SkipNoKey { x } => if reg(m, x) >= 16 {
            Err(AppError::InvalidKey { key: reg(m, x) })
        } else {
            Ok((skip_if(m, !keys[reg(m, x) as int]), cells))
        },
        Instruction::LoadDelay { x } => Ok((advance(set_reg(m, x, m.delay_timer)), cells)),
        Instruction::WaitKey { x } => Ok((MachineView { mode: ExecutionMode::AwaitingKey(x), ..m }, cells)),
        Instruction::SetDelay { x } => Ok((advance(MachineView { delay_timer: reg(m, x), ..m }), cells)),
        Instruction::SetSound { x } => Ok((advance(MachineView { sound_timer: reg(m, x), ..m }), cells)),
        Instruction::AddI { x } => Ok(
            (advance(MachineView { i: add16(m.i, reg(m, x) as u16), ..m }), cells),
        ),
        Instruction::LoadFont { x } => Ok(
            (advance(MachineView { i: (reg(m, x) * 5) as u16, ..m }), cells),
        ),
        Instruction::StoreBcd { x } => if !in_memory(m.i as int, 3) {
            Err(AppError::AddressOutOfRange { address: m.i as usize })
        } else {
            Ok((advance(MachineView { memory: bcd_stored(m.memory, m.i as int, reg(m, x)), ..m }), cells))
        },
        Instruction::StoreRegs { x } => if !in_memory(m.i as int, x + 1) {
            Err(AppError::AddressOutOfRange { address: m.i as usize })
        } else {
            Ok(
                (
                    advance(MachineView { memory: regs_stored(m.memory, m.registers, m.i as int, x as int), ..m }),
                    cells,
                ),
            )
        },
        Instruction::LoadRegs { x } => if !in_memory(m.i as int, x + 1) {
            Err(AppError::AddressOutOfRange { address: m.i as usize })
        } else {
            Ok(
                (
                    advance(MachineView { registers: regs_loaded(m.registers, m.memory, m.i as int, x as int), ..m }),
                    cells,
                ),
            )
        },
    }
}

/// `r` reports `expected`: on success the machine and display hold the
/// expected values, on failure the error is reported and nothing changed.
pub open spec fn executed_as(
    r: Result<(), AppError>,
    expected: Result<(MachineView, Seq<bool>), AppError>,
    m0: MachineView,
    c0: Seq<bool>,
    m1: MachineView,
    c1: Seq<bool>,
) -> bool {
    match expected {
        Ok((m2, c2)) => r is Ok && m1 == m2 && c1 == c2,
        Err(e) => r == Err::<(), AppError>(e) && m1 == m0 && c1 == c0,
    }
}

proof fn lemma_shift_right(a: u8)
    ensures
        a >> 1u8 == a / 2,
        a & 1u8 == (if a % 2 == 1 { 1u8 } else { 0u8 }),
{
    assert(a >> 1u8 == a / 2) by (bit_vector);
    assert(a & 1u8 == (if a % 2 == 1 { 1u8 } else { 0u8 })) by (bit_vector);
}

proof fn lemma_shift_left(a: u8)
    ensures
        a << 1u8 == add8(a, a),
        (a & 0x80u8) >> 7u8 == (if a >= 128 { 1u8 } else { 0u8 }),
{
    assert(a << 1u8 == (if a >= 128 { (a + a - 256) as u8 } else { (a + a) as u8 })) by (bit_vector);
    assert((a & 0x80u8) >> 7u8 == (if a >= 128 { 1u8 } else { 0u8 })) by (bit_vector);
}

impl Machine {
    /// Executes one decoded instruction against the machine, the display
    /// and the keypad; `rnd` is the random byte that `Cxkk` masks.
    #[verifier::spinoff_prover]
    pub fn execute(&mut self, screen: &mut Screen, keypad: &Keypad, ins: Instruction, rnd: u8) -> (r:
        Result<(), AppError>)
        requires
            ins.wf(),
        ensures
            executed_as(
                r,
                execute_spec(old(self)@, old(screen).pixels@, keypad.keys@, ins, rnd),
                old(self)@,
                old(screen).pixels@,
                final(self)@,
                final(screen).pixels@,
            ),
    {
        match ins {
            Instruction::Sys { .. }
            | Instruction::Clear => self.execute_clear_sys(screen, keypad, ins, rnd),
            Instruction::Return
            | Instruction::Call { .. } => self.execute_call_return(screen, keypad, ins, rnd),
            Instruction::Jump { .. }
            | Instruction::JumpV0 { .. } => self.execute_jump(screen, keypad, ins, rnd),
            Instruction::SkipEqByte { .. }
            | Instruction::SkipNeByte { .. }
            | Instruction::SkipEqReg { .. }
            | Instruction::SkipNeReg { .. } => self.execute_skip_value(screen, keypad, ins, rnd),
            Instruction::SkipKey { .. }
            | Instruction::SkipNoKey { .. } => self.execute_skip_key(screen, keypad, ins, rnd),
            Instruction::LoadByte { .. }
            | Instruction::LoadReg { .. }
            | Instruction::Random { .. } => self.execute_load(screen, keypad, ins, rnd),
            Instruction::AddByte { .. }
            | Instruction::Or { .. }
            | Instruction::And { .. }
            | Instruction::Xor { .. } => self.execute_bitwise(screen, keypad, ins, rnd),
            Instruction::AddReg { .. }
            | Instruction::SubReg { .. }
            | Instruction::SubNeg { .. } => self.execute_add_sub(screen, keypad, ins, rnd),
            Instruction::ShiftRight { .. }
            | Instruction::ShiftLeft { .. } => self.execute_shift(screen, keypad, ins, rnd),
            Instruction::Draw { .. } => self.execute_draw(screen, keypad, ins, rnd),
            Instruction::LoadDelay { .. }
            | Instruction::WaitKey { .. }
            | Instruction::SetDelay { .. }
            | Instruction::SetSound { .. } => self.execute_timer(screen, keypad, ins, rnd),
            Instruction::AddI { .. }
            | Instruction::LoadFont { .. }
            | Instruction::LoadI { .. } => self.execute_index(screen, keypad, ins, rnd),
            Instruction::StoreBcd { .. } => self.execute_bcd(screen, keypad, ins, rnd),
            Instruction::StoreRegs { .. }
            | Instruction::LoadRegs { .. } => self.execute_block(screen, keypad, ins, rnd),
        }
    }

    /// Executes the ignored system call and the display clear.
    #[verifier::spinoff_prover]
    fn execute_clear_sys(&mut self, screen: &mut Screen, keypad: &Keypad, ins: Instruction, rnd: u8) -> (r: Result<
        (),
        AppError,
    >)
        requires
            ins.wf(),
            ins is Sys || ins is Clear,
        ensures
            executed_as(
                r,
                execute_spec(old(self)@, old(screen).pixels@, keypad.keys@, ins, rnd),
                old(self)@,
                old(screen).pixels@,
                final(self)@,
                final(screen).pixels@,
            ),
    {
        match ins {
            Instruction::Sys { nnn } => {
                self.pc = self.pc.wrapping_add(2);
            },
            Instruction::Clear => {
                screen.clear();
                assert(screen.pixels@ =~= cleared());
                self.pc = self.pc.wrapping_add(2);
            },
            _ => {},
        }
        Ok(())
    }

    /// Executes subroutine calls and returns.
    #[verifier::spinoff_prover]
    fn execute_call_return(&mut self, screen: &mut Screen, keypad: &Keypad, ins: Instruction, rnd: u8) -> (r: Result<
        (),
        AppError,
    >)
        requires
            ins.wf(),
            ins is Return || ins is Call,
        ensures
            executed_as(
                r,
                execute_spec(old(self)@, old(screen).pixels@, keypad.keys@, ins, rnd),
                old(self)@,
                old(screen).pixels@,
                final(self)@,
                final(screen).pixels@,
            ),
    {
        match ins {
            Instruction::Return => {
                if self.sp == 0 {
                    return Err(AppError::StackUnderflow);
                }
                if self.sp as usize > STACK_DEPTH {
                    return Err(AppError::StackOverflow);
                }
                self.sp = self.sp - 1;
                self.pc = self.stack[self.sp as usize].wrapping_add(2);
            },
            Instruction::Call { nnn } => {
                if self.sp as usize >= STACK_DEPTH {
                    return Err(AppError::StackOverflow);
                }
                self.stack[self.sp as usize] = self.pc;
                self.sp = self.sp + 1;
                self.pc = nnn;
            },
            _ => {},
        }
        Ok(())
    }

    /// Executes jumps.
    #[verifier::spinoff_prover]
    fn execute_jump(&mut self, screen: &mut Screen, keypad: &Keypad, ins: Instruction, rnd: u8) -> (r: Result<
        (),
        AppError,
    >)
        requires
            ins.wf(),
            ins is Jump || ins is JumpV0,
        ensures
            executed_as(
                r,
                execute_spec(old(self)@, old(screen).pixels@, keypad.keys@, ins, rnd),
                old(self)@,
                old(screen).pixels@,
                final(self)@,
                final(screen).pixels@,
            ),
    {
        match ins {
            Instruction::Jump { nnn } => {
                self.pc = nnn;
            },
            Instruction::JumpV0 { nnn } => {
                self.pc = nnn + self.registers[0] as u16;
            },
            _ => {},
        }
        Ok(())
    }

    /// Executes skips that compare registers.
    #[verifier::spinoff_prover]
    fn execute_skip_value(&mut self, screen: &mut Screen, keypad: &Keypad, ins: Instruction, rnd: u8) -> (r: Result<
        (),
        AppError,
    >)
        requires
            ins.wf(),
            ins is SkipEqByte || ins is SkipNeByte || ins is SkipEqReg || ins is SkipNeReg,
        ensures
            executed_as(
                r,
                execute_spec(old(self)@, old(screen).pixels@, keypad.keys@, ins, rnd),
                old(self)@,
                old(screen).pixels@,
                final(self)@,
                final(screen).pixels@,
            ),
    {
        match ins {
            Instruction::SkipEqByte { x, kk } => {
                let by: u16 = if self.registers[x as usize] == kk { 4 } else { 2 };
                self.pc = self.pc.wrapping_add(by);
            },
            Instruction::SkipNeByte { x, kk } => {
                let by: u16 = if self.registers[x as usize] != kk { 4 } else { 2 };
                self.pc = self.pc.wrapping_add(by);
            },
            Instruction::SkipEqReg { x, y } => {
                let by: u16 = if self.registers[x as usize] == self.registers[y as usize] { 4 } else { 2 };
                self.pc = self.pc.wrapping_add(by);
            },
            Instruction::SkipNeReg { x, y } => {
                let by: u16 = if self.registers[x as usize] != self.registers[y as usize] { 4 } else { 2 };
                self.pc = self.pc.wrapping_add(by);
            },
            _ => {},
        }
        Ok(())
    }

    /// Executes skips on the keypad.
    #[verifier::spinoff_prover]
    fn execute_skip_key(&mut self, screen: &mut Screen, keypad: &Keypad, ins: Instruction, rnd: u8) -> (r: Result<
        (),
        AppError,
    >)
        requires
            ins.wf(),
            ins is SkipKey || ins is SkipNoKey,
        ensures
            executed_as(
                r,
                execute_spec(old(self)@, old(screen).pixels@, keypad.keys@, ins, rnd),
                old(self)@,
                old(screen).pixels@,
                final(self)@,
                final(screen).pixels@,
            ),
    {
        match ins {
            Instruction::SkipKey { x } => {
                let key = self.registers[x as usize];
                if key >= 16 {
                    return Err(AppError::InvalidKey { key });
                }
                let by: u16 = if keypad.is_pressed(key) { 4 } else { 2 };
                self.pc = self.pc.wrapping_add(by);
            },
            Instruction::SkipNoKey { x } => {
                let key = self.registers[x as usize];
                if key >= 16 {
                    return Err(AppError::InvalidKey { key });
                }
                let by: u16 = if !keypad.is_pressed(key) { 4 } else { 2 };
                self.pc = self.pc.wrapping_add(by);
            },
            _ => {},
        }
        Ok(())
    }

    /// Executes register loads.
    #[verifier::spinoff_prover]
    fn execute_load(&mut self, screen: &mut Screen, keypad: &Keypad, ins: Instruction, rnd: u8) -> (r: Result<
        (),
        AppError,
    >)
        requires
            ins.wf(),
            ins is LoadByte || ins is LoadReg || ins is Random,
        ensures
            executed_as(
                r,
                execute_spec(old(self)@, old(screen).pixels@, keypad.keys@, ins, rnd),
                old(self)@,
                old(screen).pixels@,
                final(self)@,
                final(screen).pixels@,
            ),
    {
        match ins {
            Instruction::LoadByte { x, kk } => {
                self.registers[x as usize] = kk;
                self.pc = self.pc.wrapping_add(2);
            },
            Instruction::LoadReg { x, y } => {
                self.registers[x as usize] = self.registers[y as usize];
                self.pc = self.pc.wrapping_add(2);
            },
            Instruction::Random { x, kk } => {
                self.registers[x as usize] = rnd & kk;
                self.pc = self.pc.wrapping_add(2);
            },
            _ => {},
        }
        Ok(())
    }

    /// Executes byte addition and bitwise operations.
    #[verifier::spinoff_prover]
    fn execute_bitwise(&mut self, screen: &mut Screen, keypad: &Keypad, ins: Instruction, rnd: u8) -> (r: Result<
        (),
        AppError,
    >)
        requires
            ins.wf(),
            ins is AddByte || ins is Or || ins is And || ins is Xor,
        ensures
            executed_as(
                r,
                execute_spec(old(self)@, old(screen).pixels@, keypad.keys@, ins, rnd),
                old(self)@,
                old(screen).pixels@,
                final(self)@,
                final(screen).pixels@,
            ),
    {
        match ins {
            Instruction::AddByte { x, kk } => {
                self.registers[x as usize] = self.registers[x as usize].wrapping_add(kk);
                self.pc = self.pc.wrapping_add(2);
            },
            Instruction::Or { x, y } => {
                self.registers[x as usize] = self.registers[x as usize] | self.registers[y as usize];
                self.pc = self.pc.wrapping_add(2);
            },
            Instruction::And { x, y } => {
                self.registers[x as usize] = self.registers[x as usize] & self.registers[y as usize];
                self.pc = self.pc.wrapping_add(2);
            },
            Instruction::Xor { x, y } => {
                self.registers[x as usize] = self.registers[x as usize] ^ self.registers[y as usize];
                self.pc = self.pc.wrapping_add(2);
            },
            _ => {},
        }
        Ok(())
    }

    /// Executes additions and subtractions with a flag.
    #[verifier::spinoff_prover]
    fn execute_add_sub(&mut self, screen: &mut Screen, keypad: &Keypad, ins: Instruction, rnd: u8) -> (r: Result<
        (),
        AppError,
    >)
        requires
            ins.wf(),
            ins is AddReg || ins is SubReg || ins is SubNeg,
        ensures
            executed_as(
                r,
                execute_spec(old(self)@, old(screen).pixels@, keypad.keys@, ins, rnd),
                old(self)@,
                old(screen).pixels@,
                final(self)@,
                final(screen).pixels@,
            ),
    {
        match ins {
            Instruction::AddReg { x, y } => {
                let a = self.registers[x as usize];
                let b = self.registers[y as usize];
                let carry: u8 = if a as u16 + b as u16 > 255 { 1 } else { 0 };
                self.registers[x as usize] = a.wrapping_add(b);
                self.registers[0xF] = carry;
                self.pc = self.pc.wrapping_add(2);
            },
            Instruction::SubReg { x, y } => {
                let a = self.registers[x as usize];
                let b = self.registers[y as usize];
                let not_borrow: u8 = if a >= b { 1 } else { 0 };
                self.registers[x as usize] = a.wrapping_sub(b);
                self.registers[0xF] = not_borrow;
                self.pc = self.pc.wrapping_add(2);
            },
            Instruction::SubNeg { x, y } => {
                let a = self.registers[x as usize];
                let b = self.registers[y as usize];
                let not_borrow: u8 = if b >= a { 1 } else { 0 };
                self.registers[x as usize] = b.wrapping_sub(a);
                self.registers[0xF] = not_borrow;
                self.pc = self.pc.wrapping_add(2);
            },
            _ => {},
        }
        Ok(())
    }

    /// Executes shifts.
    #[verifier::spinoff_prover]
    fn execute_shift(&mut self, screen: &mut Screen, keypad: &Keypad, ins: Instruction, rnd: u8) -> (r: Result<
        (),
        AppError,
    >)
        requires
            ins.wf(),
            ins is ShiftRight || ins is ShiftLeft,
        ensures
            executed_as(
                r,
                execute_spec(old(self)@, old(screen).pixels@, keypad.keys@, ins, rnd),
                old(self)@,
                old(screen).pixels@,
                final(self)@,
                final(screen).pixels@,
            ),
    {
        match ins {
            Instruction::ShiftRight { x, y } => {
                let a = self.registers[x as usize];
                proof {
                    lemma_shift_right(a);
                }
                self.registers[x as usize] = a >> 1u8;
                self.registers[0xF] = a & 1u8;
                self.pc = self.pc.wrapping_add(2);
            },
            Instruction::ShiftLeft { x, y } => {
                let a = self.registers[x as usize];
                proof {
                    lemma_shift_left(a);
                }
                self.registers[x as usize] = a << 1u8;
                self.registers[0xF] = (a & 0x80u8) >> 7u8;
                self.pc = self.pc.wrapping_add(2);
            },
            _ => {},
        }
        Ok(())
    }

    /// Executes sprite drawing.
    #[verifier::spinoff_prover]
    fn execute_draw(&mut self, screen: &mut Screen, keypad: &Keypad, ins: Instruction, rnd: u8) -> (r: Result<
        (),
        AppError,
    >)
        requires
            ins.wf(),
            ins is Draw,
        ensures
            executed_as(
                r,
                execute_spec(old(self)@, old(screen).pixels@, keypad.keys@, ins, rnd),
                old(self)@,
                old(screen).pixels@,
                final(self)@,
                final(screen).pixels@,
            ),
    {
        match ins {
            Instruction::Draw { x, y, n } => {
                let start = self.i as usize;
                if start + n as usize > MEMORY_SIZE {
                    return Err(AppError::AddressOutOfRange { address: start });
                }
                let mut sprite: Vec<u8> = Vec::new();
                let mut k: usize = 0;
                while k < n as usize
                    invariant
                        k <= n < 16,
                        start + n <= MEMORY_SIZE,
                        start == self.i,
                        sprite@ =~= self.memory@.subrange(start as int, start + k),
                    decreases n - k,
                {
                    sprite.push(self.memory[start + k]);
                    k = k + 1;
                }
                let vx = self.registers[x as usize];
                let vy = self.registers[y as usize];
                let collision = screen.draw(sprite.as_slice(), vx, vy);
                self.registers[0xF] = if collision { 1 } else { 0 };
                self.pc = self.pc.wrapping_add(2);
            },
            _ => {},
        }
        Ok(())
    }

    /// Executes timer loads and stores and the key wait.
    #[verifier::spinoff_prover]
    fn execute_timer(&mut self, screen: &mut Screen, keypad: &Keypad, ins: Instruction, rnd: u8) -> (r: Result<
        (),
        AppError,
    >)
        requires
            ins.wf(),
            ins is LoadDelay || ins is WaitKey || ins is SetDelay || ins is SetSound,
        ensures
            executed_as(
                r,
                execute_spec(old(self)@, old(screen).pixels@, keypad.keys@, ins, rnd),
                old(self)@,
                old(screen).pixels@,
                final(self)@,
                final(screen).pixels@,
            ),
    {
        match ins {
            Instruction::LoadDelay { x } => {
                self.registers[x as usize] = self.delay_timer;
                self.pc = self.pc.wrapping_add(2);
            },
            Instruction::WaitKey { x } => {
                self.mode = ExecutionMode::AwaitingKey(x);
            },
            Instruction::SetDelay { x } => {
                self.delay_timer = self.registers[x as usize];
                self.pc = self.pc.wrapping_add(2);
            },
            Instruction::SetSound { x } => {
                self.sound_timer = self.registers[x as usize];
                self.pc = self.pc.wrapping_add(2);
            },
            _ => {},
        }
        Ok(())
    }

    /// Executes address register updates.
    #[verifier::spinoff_prover]
    fn execute_index(&mut self, screen: &mut Screen, keypad: &Keypad, ins: Instruction, rnd: u8) -> (r: Result<
        (),
        AppError,
    >)
        requires
            ins.wf(),
            ins is AddI || ins is LoadFont || ins is LoadI,
        ensures
            executed_as(
                r,
                execute_spec(old(self)@, old(screen).pixels@, keypad.keys@, ins, rnd),
                old(self)@,
                old(screen).pixels@,
                final(self)@,
                final(screen).pixels@,
            ),
    {
        match ins {
            Instruction::AddI { x } => {
                self.i = self.i.wrapping_add(self.registers[x as usize] as u16);
                self.pc = self.pc.wrapping_add(2);
            },
            Instruction::LoadFont { x } => {
                self.i = self.registers[x as usize] as u16 * 5;
                self.pc = self.pc.wrapping_add(2);
            },
            Instruction::LoadI { nnn } => {
                self.i = nnn;
                self.pc = self.pc.wrapping_add(2);
            },
            _ => {},
        }
        Ok(())
    }

    /// Executes decimal store.
    #[verifier::spinoff_prover]
    fn execute_bcd(&mut self, screen: &mut Screen, keypad: &Keypad, ins: Instruction, rnd: u8) -> (r: Result<
        (),
        AppError,
    >)
        requires
            ins.wf(),
            ins is StoreBcd,
        ensures
            executed_as(
                r,
                execute_spec(old(self)@, old(screen).pixels@, keypad.keys@, ins, rnd),
                old(self)@,
                old(screen).pixels@,
                final(self)@,
                final(screen).pixels@,
            ),
    {
        match ins {
            Instruction::StoreBcd { x } => {
                let start = self.i as usize;
                if start + 3 > MEMORY_SIZE {
                    return Err(AppError::AddressOutOfRange { address: start });
                }
                let v = self.registers[x as usize];
                self.memory[start] = v / 100;
                self.memory[start + 1] = (v / 10) % 10;
                self.memory[start + 2] = v % 10;
                self.pc = self.pc.wrapping_add(2);
            },
            _ => {},
        }
        Ok(())
    }

    /// Executes register block store and load.
    #[verifier::spinoff_prover]
    fn execute_block(&mut self, screen: &mut Screen, keypad: &Keypad, ins: Instruction, rnd: u8) -> (r: Result<
        (),
        AppError,
    >)
        requires
            ins.wf(),
            ins is StoreRegs || ins is LoadRegs,
        ensures
            executed_as(
                r,
                execute_spec(old(self)@, old(screen).pixels@, keypad.keys@, ins, rnd),
                old(self)@,
                old(screen).pixels@,
                final(self)@,
                final(screen).pixels@,
            ),
    {
        match ins {
            Instruction::StoreRegs { x } => {
                let start = self.i as usize;
                if start + x as usize + 1 > MEMORY_SIZE {
                    return Err(AppError::AddressOutOfRange { address: start });
                }
                let ghost m0 = self@;
                let mut k: usize = 0;
                while k <= x as usize
                    invariant
                        k <= x + 1,
                        x < 16,
                        start == m0.i,
                        start + x + 1 <= MEMORY_SIZE,
                        self@ == (MachineView { memory: self@.memory, ..m0 }),
                        self@.memory =~= Seq::new(
                            MEMORY_SIZE as nat,
                            |a: int| if start <= a < start + k { m0.registers[a - start] } else { m0.memory[a] },
                        ),
                    decreases x + 1 - k,
                {
                    self.memory[start + k] = self.registers[k];
                    k = k + 1;
                }
                assert(self@.memory =~= regs_stored(m0.memory, m0.registers, start as int, x as int));
                self.pc = self.pc.wrapping_add(2);
            },
            Instruction::LoadRegs { x } => {
                let start = self.i as usize;
                if start + x as usize + 1 > MEMORY_SIZE {
                    return Err(AppError::AddressOutOfRange { address: start });
                }
                let ghost m0 = self@;
                let mut k: usize = 0;
                while k <= x as usize
                    invariant
                        k <= x + 1,
                        x < 16,
                        start == m0.i,
                        start + x + 1 <= MEMORY_SIZE,
                        self@ == (MachineView { registers: self@.registers, ..m0 }),
                        self@.registers =~= Seq::new(
                            16,
                            |j: int| if j < k { m0.memory[start + j] } else { m0.registers[j] },
                        ),
                    decreases x + 1 - k,
                {
                    self.registers[k] = self.memory[start + k];
                    k = k + 1;
                }
                assert(self@.registers =~= regs_loaded(m0.registers, m0.memory, start as int, x as int));
                self.pc = self.pc.wrapping_add(2);
            },
            _ => {},
        }
        Ok(())
    }
}


/// What one call of `step` did.
#[derive(Debug, Clone, Copy, PartialEq, Eq, Structural)]
pub enum StepOutcome {
    /// An instruction was fetched and executed.
    Executed,
    /// The machine is paused or waiting for a key; nothing happened.
    Suspended,
}

/// The big-endian 16-bit word at `pc`.
pub open spec fn opcode_at(mem: Seq<u8>, pc: int) -> u16 {
    (mem[pc] as int * 256 + mem[pc + 1] as int) as u16
}

/// One fetch-decode-execute step: nothing happens unless the machine is
/// running; otherwise the word at the program counter is decoded and
/// executed. `rnd` is the random byte that `Cxkk` would use.
pub open spec fn step_spec(m: MachineView, cells: Seq<bool>, keys: Seq<bool>, rnd: u8) -> Result<
    (MachineView, Seq<bool>, StepOutcome),
    AppError,
> {
    if m.mode != ExecutionMode::Running {
        Ok((m, cells, StepOutcome::Suspended))
    } else if !in_memory(m.pc as int, 2) {
        Err(AppError::AddressOutOfRange { address: m.pc as usize })
    } else {
        let op = opcode_at(m.memory, m.pc as int);
        match decode_spec(op) {
            None => Err(AppError::IllegalOpcode { opcode: op }),
            Some(ins) => match execute_spec(m, cells, keys, ins, rnd) {
                Ok((m2, c2)) => Ok((m2, c2, StepOutcome::Executed)),
                Err(e) => Err(e),
            },
        }
    }
}

/// `r` reports `expected`: on success the machine and display hold the
/// expected values, on failure the error is reported and nothing changed.
pub open spec fn stepped_as(
    r: Result<StepOutcome, AppError>,
    expected: Result<(MachineView, Seq<bool>, StepOutcome), AppError>,
    m0: MachineView,
    c0: Seq<bool>,
    m1: MachineView,
    c1: Seq<bool>,
) -> bool {
    match expected {
        Ok((m2, c2, o)) => r == Ok::<StepOutcome, AppError>(o) && m1 == m2 && c1 == c2,
        Err(e) => r == Err::<StepOutcome, AppError>(e) && m1 == m0 && c1 == c0,
    }
}

/// Relies on `rand::random::<u8>`: a byte drawn from the thread-local
/// generator. Nothing is promised of its value.
#[verifier::external_body]
pub(crate) fn random_byte() -> (r: u8) {
    rand::random::<u8>()
}

impl Machine {
    /// Fetches, decodes and executes one instruction, with `rnd` as the
    /// random byte for `Cxkk`. Does nothing while paused or waiting for a
    /// key. A failing step changes nothing.
    pub fn step_with(&mut self, screen: &mut Screen, keypad: &Keypad, rnd: u8) -> (r: Result<
        StepOutcome,
        AppError,
    >)
        ensures
            stepped_as(
                r,
                step_spec(old(self)@, old(screen).pixels@, keypad.keys@, rnd),
                old(self)@,
                old(screen).pixels@,
                final(self)@,
                final(screen).pixels@,
            ),
    {
        if !matches!(self.mode, ExecutionMode::Running) {
            return Ok(StepOutcome::Suspended);
        }
        let pc = self.pc as usize;
        if pc + 2 > MEMORY_SIZE {
            return Err(AppError::AddressOutOfRange { address: pc });
        }
        let hi = self.memory[pc];
        let lo = self.memory[pc + 1];
        let opcode = ((hi as u16) << 8u16) | (lo as u16);
        assert(((hi as u16) << 8u16) | (lo as u16) == hi as u16 * 256 + lo as u16) by (bit_vector);
        let ins = decode(opcode)?;
        self.execute(screen, keypad, ins, rnd)?;
        Ok(StepOutcome::Executed)
    }

    /// Fetches, decodes and executes one instruction, drawing a fresh
    /// random byte for `Cxkk`. Does nothing while paused or waiting for a
    /// key. A failing step changes nothing.
    pub fn step(&mut self, screen: &mut Screen, keypad: &Keypad) -> (r: Result<StepOutcome, AppError>)
        ensures
            exists|rnd: u8|
                stepped_as(
                    r,
                    step_spec(old(self)@, old(screen).pixels@, keypad.keys@, rnd),
                    old(self)@,
                    old(screen).pixels@,
                    final(self)@,
                    final(screen).pixels@,
                ),
    {
        let rnd = random_byte();
        self.step_with(screen, keypad, rnd)
    }
}

} // verus!
