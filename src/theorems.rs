//! Laws of the instruction semantics, stated over the specification
//! functions that the executable code is verified against.
use vstd::prelude::*;
use crate::execute::{execute_spec, reg, step_spec, StepOutcome};
use crate::instruction::Instruction;
use crate::machine::{key_down_spec, ExecutionMode, MachineView};
use crate::screen::{cell_index, collides, covers, drawn, sprite_bit, SCREEN_SIZE};

verus! {

/// The shape of a machine state: 4 KB of memory, sixteen registers and
/// sixteen stack slots.
pub open spec fn view_wf(m: MachineView) -> bool {
    &&& m.memory.len() == 4096
    &&& m.registers.len() == 16
    &&& m.stack.len() == 16
}

/// `8xy4` stores `(a + b) mod 256` in `Vx` and sets `VF` to 1 exactly when
/// `a + b > 255`, for all register values `a`, `b`.
pub proof fn add_with_carry(m: MachineView, cells: Seq<bool>, keys: Seq<bool>, x: u8, y: u8, rnd: u8)
    requires
        view_wf(m),
        x < 15,
        y < 16,
    ensures
        ({
            let (a, b) = (reg(m, x), reg(m, y));
            execute_spec(m, cells, keys, Instruction::AddReg { x, y }, rnd) matches Ok((m2, c2)) && reg(
                m2,
                x,
            ) == (a + b) % 256 && reg(m2, 0xF) == (if a + b > 255 { 1u8 } else { 0u8 })
        }),
{
}

/// `8xy5` stores `(a - b) mod 256` in `Vx` with `VF` = 1 exactly when
/// `a >= b`; `8xy7` stores `(b - a) mod 256` with `VF` = 1 exactly when
/// `b >= a`.
pub proof fn sub_with_borrow(m: MachineView, cells: Seq<bool>, keys: Seq<bool>, x: u8, y: u8, rnd: u8)
    requires
        view_wf(m),
        x < 15,
        y < 16,
    ensures
        ({
            let (a, b) = (reg(m, x), reg(m, y));
            execute_spec(m, cells, keys, Instruction::SubReg { x, y }, rnd) matches Ok((m2, c2)) && reg(
                m2,
                x,
            ) == (a - b) % 256 && reg(m2, 0xF) == (if a >= b { 1u8 } else { 0u8 })
        }),
        ({
            let (a, b) = (reg(m, x), reg(m, y));
            execute_spec(m, cells, keys, Instruction::SubNeg { x, y }, rnd) matches Ok((m2, c2)) && reg(
                m2,
                x,
            ) == (b - a) % 256 && reg(m2, 0xF) == (if b >= a { 1u8 } else { 0u8 })
        }),
{
}

/// Shifts set `VF` to the bit shifted out of the old value, and the bit
/// shifted in is always 0.
pub proof fn shift_flag_is_bit_out(m: MachineView, cells: Seq<bool>, keys: Seq<bool>, x: u8, y: u8, rnd: u8)
    requires
        view_wf(m),
        x < 15,
        y < 16,
    ensures
        ({
            let a = reg(m, x);
            execute_spec(m, cells, keys, Instruction::ShiftRight { x, y }, rnd) matches Ok((m2, c2))
                && reg(m2, 0xF) == a % 2 && reg(m2, x) == a / 2 && reg(m2, x) < 128
        }),
        ({
            let a = reg(m, x);
            execute_spec(m, cells, keys, Instruction::ShiftLeft { x, y }, rnd) matches Ok((m2, c2))
                && reg(m2, 0xF) == a / 128 && reg(m2, x) == (a * 2) % 256 && reg(m2, x) % 2 == 0
        }),
{
}

/// Drawing the same sprite at the same place twice restores the display,
/// and the second draw collides exactly when the first lit some cell.
pub proof fn draw_twice_restores(cells: Seq<bool>, sprite: Seq<u8>, x: u8, y: u8)
    ensures
        drawn(drawn(cells, sprite, x, y), sprite, x, y) == cells,
        collides(drawn(cells, sprite, x, y), sprite, x, y) == exists|p: int|
            0 <= p < cells.len() && !cells[p] && #[trigger] drawn(cells, sprite, x, y)[p],
{
    let once = drawn(cells, sprite, x, y);
    assert(drawn(once, sprite, x, y) =~= cells);
    if collides(once, sprite, x, y) {
        let p = choose|p: int| 0 <= p < once.len() && once[p] && #[trigger] covers(sprite, x, y, p);
        assert(!cells[p] && once[p]);
    }
    if exists|p: int| 0 <= p < cells.len() && !cells[p] && #[trigger] drawn(cells, sprite, x, y)[p] {
        let p = choose|p: int| 0 <= p < cells.len() && !cells[p] && #[trigger] drawn(cells, sprite, x, y)[p];
        assert(once[p] && covers(sprite, x, y, p));
    }
}

/// Column `c` and row `r` of a sprite drawn at `(x, y)` land on cell
/// `((x + c) mod width, (y + r) mod height)`; in particular, at
/// `x = width - 1` column `c >= 1` wraps to column `c - 1`.
pub proof fn draw_wraps_around(sprite: Seq<u8>, x: u8, y: u8, c: int, r: int)
    requires
        0 <= c < 8,
        0 <= r < sprite.len(),
        sprite.len() <= 32,
    ensures
        covers(sprite, x, y, cell_index((x + c) % 64, (y + r) % 32)) == sprite_bit(sprite[r], c),
        x == 63 && c >= 1 ==> covers(sprite, x, y, cell_index(c - 1, (y + r) % 32)) == sprite_bit(
            sprite[r],
            c,
        ),
{
}

/// Skip instructions change nothing but the program counter, and move it
/// on by exactly 2 or exactly 4 bytes.
pub proof fn skip_moves_two_or_four(m: MachineView, cells: Seq<bool>, keys: Seq<bool>, ins: Instruction, rnd: u8)
    requires
        view_wf(m),
        keys.len() == 16,
        ins.wf(),
        ins is SkipEqByte || ins is SkipNeByte || ins is SkipEqReg || ins is SkipNeReg || ins is SkipKey
            || ins is SkipNoKey,
    ensures
        execute_spec(m, cells, keys, ins, rnd) matches Ok((m2, c2)) ==> c2 == cells && (m2 == (MachineView {
            pc: ((m.pc + 2) % 0x10000) as u16,
            ..m
        }) || m2 == (MachineView { pc: ((m.pc + 4) % 0x10000) as u16, ..m })),
{
}

/// Storing registers `0..=x` at `I` and loading them back into zeroed
/// registers from the same address restores them; `I` is left alone by
/// both.
pub proof fn store_load_round_trip(m: MachineView, cells: Seq<bool>, keys: Seq<bool>, x: u8, rnd: u8)
    requires
        view_wf(m),
        x < 16,
        m.i + x + 1 <= 4096,
    ensures
        execute_spec(m, cells, keys, Instruction::StoreRegs { x }, rnd) matches Ok((m1, c1)) && m1.i == m.i
            && ({
            let zeroed = MachineView { registers: Seq::new(16, |k: int| 0u8), ..m1 };
            execute_spec(zeroed, c1, keys, Instruction::LoadRegs { x }, rnd) matches Ok((m2, c2)) && m2.i
                == m.i && forall|k: int| 0 <= k <= x ==> #[trigger] m2.registers[k] == m.registers[k]
        }),
{
}

/// `Fx0A` suspends the machine awaiting a key for register `x` without
/// moving the program counter; further steps change nothing; a key-down
/// then stores the key's index in `Vx` and moves on past the instruction.
pub proof fn key_wait_blocks_until_key(
    m: MachineView,
    cells: Seq<bool>,
    keys: Seq<bool>,
    x: u8,
    rnd: u8,
    rnd2: u8,
    key: u8,
)
    requires
        view_wf(m),
        x < 16,
        key < 16,
    ensures
        execute_spec(m, cells, keys, Instruction::WaitKey { x }, rnd) matches Ok((m1, c1)) && m1.mode
            == ExecutionMode::AwaitingKey(x) && m1.pc == m.pc && step_spec(m1, c1, keys, rnd2) == Ok::<
            (MachineView, Seq<bool>, StepOutcome),
            crate::error::AppError,
        >((m1, c1, StepOutcome::Suspended)) && ({
            let m2 = key_down_spec(m1, key);
            &&& m2.registers[x as int] == key
            &&& m2.mode == ExecutionMode::Running
            &&& m2.pc == (m.pc + 2) % 0x10000
        }),
{
}

} // verus!
