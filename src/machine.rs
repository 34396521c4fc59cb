//! The machine state: memory, registers, stack, timers and execution mode.
use vstd::prelude::*;
use crate::error::AppError;
use crate::keypad::{Keypad, KEY_COUNT};

verus! {

/// Size of the address space, in bytes.
pub const MEMORY_SIZE: usize = 4096;

/// Address at which the program image is loaded and execution starts.
pub const PROGRAM_START: usize = 0x200;

/// Largest program image that fits between `PROGRAM_START` and the end of memory.
pub const MAX_PROGRAM_SIZE: usize = 3584;

/// Number of return addresses the call stack holds.
pub const STACK_DEPTH: usize = 16;

/// Bytes per built-in digit sprite.
pub const FONT_SPRITE_SIZE: usize = 5;

/// The built-in hexadecimal digit sprites 0 to F, five rows each, stored
/// from address 0.
pub open spec fn font_spec() -> Seq<u8> {
    seq![
        0xF0u8, 0x90, 0x90, 0x90, 0xF0, // 0
        0x20, 0x60, 0x20, 0x20, 0x70, // 1
        0xF0, 0x10, 0xF0, 0x80, 0xF0, // 2
        0xF0, 0x10, 0xF0, 0x10, 0xF0, // 3
        0x90, 0x90, 0xF0, 0x10, 0x10, // 4
        0xF0, 0x80, 0xF0, 0x10, 0xF0, // 5
        0xF0, 0x80, 0xF0, 0x90, 0xF0, // 6
        0xF0, 0x10, 0x20, 0x40, 0x40, // 7
        0xF0, 0x90, 0xF0, 0x90, 0xF0, // 8
        0xF0, 0x90, 0xF0, 0x10, 0xF0, // 9
        0xF0, 0x90, 0xF0, 0x90, 0x90, // A
        0xE0, 0x90, 0xE0, 0x90, 0xE0, // B
        0xF0, 0x80, 0x80, 0x80, 0xF0, // C
        0xE0, 0x90, 0x90, 0x90, 0xE0, // D
        0xF0, 0x80, 0xF0, 0x80, 0xF0, // E
        0xF0, 0x80, 0xF0, 0x80, 0x80, // F
    ]
}

/// The built-in digit sprites, as stored from address 0.
pub fn font() -> (r: [u8; 80])
    ensures
        r@ == font_spec(),
{
    let r: [u8; 80] = [
        0xF0, 0x90, 0x90, 0x90, 0xF0, // 0
        0x20, 0x60, 0x20, 0x20, 0x70, // 1
        0xF0, 0x10, 0xF0, 0x80, 0xF0, // 2
        0xF0, 0x10, 0xF0, 0x10, 0xF0, // 3
        0x90, 0x90, 0xF0, 0x10, 0x10, // 4
        0xF0, 0x80, 0xF0, 0x10, 0xF0, // 5
        0xF0, 0x80, 0xF0, 0x90, 0xF0, // 6
        0xF0, 0x10, 0x20, 0x40, 0x40, // 7
        0xF0, 0x90, 0xF0, 0x90, 0xF0, // 8
        0xF0, 0x90, 0xF0, 0x10, 0xF0, // 9
        0xF0, 0x90, 0xF0, 0x90, 0x90, // A
        0xE0, 0x90, 0xE0, 0x90, 0xE0, // B
        0xF0, 0x80, 0x80, 0x80, 0xF0, // C
        0xE0, 0x90, 0x90, 0x90, 0xE0, // D
        0xF0, 0x80, 0xF0, 0x80, 0xF0, // E
        0xF0, 0x80, 0xF0, 0x80, 0x80, // F
    ];
    assert(r@ =~= font_spec());
    r
}


/// What the machine is doing between instructions.
#[derive(Debug, Clone, Copy, PartialEq, Eq, Structural)]
pub enum ExecutionMode {
    /// Executing instructions and ticking timers.
    Running,
    /// Halted by the user: neither instructions nor timers advance.
    Paused,
    /// Suspended on a key-wait instruction that stores into the register.
    AwaitingKey(u8),
}

/// The complete mutable state of the virtual machine.
pub struct Machine {
    pub memory: [u8; 4096],
    pub registers: [u8; 16],
    /// The address register `I`.
    pub i: u16,
    pub pc: u16,
    /// Return addresses; slots `0..sp` are in use.
    pub stack: [u16; 16],
    pub sp: u8,
    pub delay_timer: u8,
    pub sound_timer: u8,
    pub mode: ExecutionMode,
}

/// The machine state as mathematical values.
pub struct MachineView {
    pub memory: Seq<u8>,
    pub registers: Seq<u8>,
    pub i: u16,
    pub pc: u16,
    pub stack: Seq<u16>,
    pub sp: u8,
    pub delay_timer: u8,
    pub sound_timer: u8,
    pub mode: ExecutionMode,
}

impl View for Machine {
    type V = MachineView;

    open spec fn view(&self) -> MachineView {
        MachineView {
            memory: self.memory@,
            registers: self.registers@,
            i: self.i,
            pc: self.pc,
            stack: self.stack@,
            sp: self.sp,
            delay_timer: self.delay_timer,
            sound_timer: self.sound_timer,
            mode: self.mode,
        }
    }
}

/// Memory right after loading `rom`: the font from address 0, the image
/// from `PROGRAM_START`, zero elsewhere.
pub open spec fn loaded_memory(rom: Seq<u8>) -> Seq<u8> {
    Seq::new(
        MEMORY_SIZE as nat,
        |a: int|
            if a < 80 {
                font_spec()[a]
            } else if PROGRAM_START <= a < PROGRAM_START + rom.len() {
                rom[a - PROGRAM_START]
            } else {
                0u8
            },
    )
}

/// The state of a machine that has just loaded `rom`.
pub open spec fn loaded_spec(rom: Seq<u8>) -> MachineView {
    MachineView {
        memory: loaded_memory(rom),
        registers: Seq::new(16, |k: int| 0u8),
        i: 0,
        pc: PROGRAM_START as u16,
        stack: Seq::new(16, |k: int| 0u16),
        sp: 0,
        delay_timer: 0,
        sound_timer: 0,
        mode: ExecutionMode::Running,
    }
}

/// A countdown value after one tick: one less, floored at zero.
pub open spec fn count_down(t: u8) -> u8 {
    if t > 0 {
        (t - 1) as u8
    } else {
        0
    }
}

/// The state after one timer tick.
pub open spec fn tick_spec(m: MachineView) -> MachineView {
    MachineView {
        delay_timer: count_down(m.delay_timer),
        sound_timer: count_down(m.sound_timer),
        ..m
    }
}

/// The state after a key-down transition of `key`: a pending key wait is
/// satisfied, the key's index lands in the waiting register and execution
/// resumes after the wait instruction.
pub open spec fn key_down_spec(m: MachineView, key: u8) -> MachineView {
    match m.mode {
        ExecutionMode::AwaitingKey(r) => if r < 16 {
            MachineView {
                registers: m.registers.update(r as int, key),
                mode: ExecutionMode::Running,
                pc: ((m.pc + 2) % 0x10000) as u16,
                ..m
            }
        } else {
            m
        },
        _ => m,
    }
}

/// The state after the user toggles the pause: running and paused swap,
/// a pending key wait stays pending.
pub open spec fn toggle_pause_spec(m: MachineView) -> MachineView {
    match m.mode {
        ExecutionMode::Running => MachineView { mode: ExecutionMode::Paused, ..m },
        ExecutionMode::Paused => MachineView { mode: ExecutionMode::Running, ..m },
        _ => m,
    }
}

impl Machine {
    /// A machine with the font and `rom` in memory and every register,
    /// timer and pointer at its initial value; fails with
    /// `ProgramTooLarge` if `rom` does not fit in memory.
    pub fn load(rom: &[u8]) -> (r: Result<Machine, AppError>)
        ensures
            r is Ok <==> rom@.len() <= MAX_PROGRAM_SIZE,
            r matches Ok(m) ==> m@ == loaded_spec(rom@),
            r is Err ==> r == Err::<Machine, AppError>(AppError::ProgramTooLarge { len: rom@.len() as usize }),
    {
        if rom.len() > MAX_PROGRAM_SIZE {
            return Err(AppError::ProgramTooLarge { len: rom.len() });
        }
        let glyphs = font();
        let mut memory: [u8; 4096] = [0u8; 4096];
        let mut a: usize = 0;
        while a < 80
            invariant
                a <= 80,
                glyphs@ == font_spec(),
                forall|k: int| 0 <= k < a ==> memory@[k] == font_spec()[k],
                forall|k: int| a <= k < MEMORY_SIZE ==> memory@[k] == 0u8,
            decreases 80 - a,
        {
            memory[a] = glyphs[a];
            a = a + 1;
        }
        let mut k: usize = 0;
        while k < rom.len()
            invariant
                k <= rom@.len() <= MAX_PROGRAM_SIZE,
                forall|b: int| 0 <= b < 80 ==> memory@[b] == font_spec()[b],
                forall|b: int| 80 <= b < PROGRAM_START ==> memory@[b] == 0u8,
                forall|b: int| 0 <= b < k ==> memory@[PROGRAM_START + b] == rom@[b],
                forall|b: int| PROGRAM_START + k <= b < MEMORY_SIZE ==> memory@[b] == 0u8,
            decreases rom@.len() - k,
        {
            memory[PROGRAM_START + k] = rom[k];
            k = k + 1;
        }
        let m = Machine {
            memory,
            registers: [0u8; 16],
            i: 0,
            pc: PROGRAM_START as u16,
            stack: [0u16; 16],
            sp: 0,
            delay_timer: 0,
            sound_timer: 0,
            mode: ExecutionMode::Running,
        };
        assert(m@.memory =~= loaded_memory(rom@));
        assert(m@.registers =~= loaded_spec(rom@).registers);
        assert(m@.stack =~= loaded_spec(rom@).stack);
        Ok(m)
    }

    /// Counts both timers down by one, stopping at zero.
    pub fn tick_timers(&mut self)
        ensures
            final(self)@ == tick_spec(old(self)@),
    {
        if self.delay_timer > 0 {
            self.delay_timer = self.delay_timer - 1;
        }
        if self.sound_timer > 0 {
            self.sound_timer = self.sound_timer - 1;
        }
    }

    /// Whether the sound timer asks for a tone.
    pub fn sound_active(&self) -> (r: bool)
        ensures
            r == (self.sound_timer > 0),
    {
        self.sound_timer > 0
    }

    /// Delivers a key-down event: marks the key down and, on an up-to-down
    /// transition, satisfies a pending key wait.
    pub fn key_down(&mut self, keypad: &mut Keypad, key: u8)
        requires
            key < KEY_COUNT,
        ensures
            final(keypad).keys@ == old(keypad).keys@.update(key as int, true),
            final(self)@ == (if old(keypad).keys@[key as int] {
                old(self)@
            } else {
                key_down_spec(old(self)@, key)
            }),
    {
        let transition = keypad.press(key);
        if transition {
            if let ExecutionMode::AwaitingKey(r) = self.mode {
                if r < 16 {
                    self.registers[r as usize] = key;
                    self.mode = ExecutionMode::Running;
                    self.pc = self.pc.wrapping_add(2);
                }
            }
        }
    }

    /// Swaps running and paused; a pending key wait is left as it is.
    pub fn toggle_pause(&mut self)
        ensures
            final(self)@ == toggle_pause_spec(old(self)@),
    {
        match self.mode {
            ExecutionMode::Running => {
                self.mode = ExecutionMode::Paused;
            },
            ExecutionMode::Paused => {
                self.mode = ExecutionMode::Running;
            },
            ExecutionMode::AwaitingKey(_) => {},
        }
    }
}

} // verus!
