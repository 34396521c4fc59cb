//! The monochrome display surface, addressed toroidally.
use vstd::prelude::*;

verus! {

/// Width of the display, in cells.
pub const SCREEN_WIDTH: usize = 64;

/// Height of the display, in cells.
pub const SCREEN_HEIGHT: usize = 32;

/// Number of cells of the display.
pub const SCREEN_SIZE: usize = 2048;

/// Index of the cell at column `x`, row `y` in the row-major cell array.
pub open spec fn cell_index(x: int, y: int) -> int {
    y * SCREEN_WIDTH + x
}

/// Whether bit `col` of a sprite row is set, counting from the most
/// significant bit as column 0.
pub open spec fn sprite_bit(row: u8, col: int) -> bool {
    (row >> ((7 - col) as u8)) & 1u8 == 1u8
}

/// Column of cell `p` relative to a sprite drawn at column `x`, wrapped.
pub open spec fn sprite_col(x: u8, p: int) -> int {
    (p % 64 - x) % 64
}

/// Row of cell `p` relative to a sprite drawn at row `y`, wrapped.
pub open spec fn sprite_row(y: u8, p: int) -> int {
    (p / 64 - y) % 32
}

/// Whether the sprite drawn at `(x, y)` has a set bit over cell `p`:
/// column `c` and row `r` of the sprite land on cell
/// `((x + c) mod width, (y + r) mod height)`.
pub open spec fn covers(sprite: Seq<u8>, x: u8, y: u8, p: int) -> bool {
    let col = sprite_col(x, p);
    let row = sprite_row(y, p);
    col < 8 && row < sprite.len() && sprite_bit(sprite[row], col)
}

/// The cells after XOR-drawing `sprite` at `(x, y)`.
pub open spec fn drawn(cells: Seq<bool>, sprite: Seq<u8>, x: u8, y: u8) -> Seq<bool> {
    Seq::new(cells.len(), |p: int| cells[p] != covers(sprite, x, y, p))
}

/// Whether XOR-drawing `sprite` at `(x, y)` turns some lit cell off.
pub open spec fn collides(cells: Seq<bool>, sprite: Seq<u8>, x: u8, y: u8) -> bool {
    exists|p: int| 0 <= p < cells.len() && cells[p] && #[trigger] covers(sprite, x, y, p)
}

/// Cells covered by the sprite's rows before `r`, and by row `r` before column `c`.
spec fn covered_before(sprite: Seq<u8>, x: u8, y: u8, p: int, r: int, c: int) -> bool {
    covers(sprite, x, y, p) && (sprite_row(y, p) < r || (sprite_row(y, p) == r
        && sprite_col(x, p) < c))
}

/// Column `c` and row `r` of a sprite at `(x, y)` land on exactly one cell.
proof fn lemma_sprite_cell(x: u8, y: u8, c: int, r: int, p: int)
    requires
        0 <= c < 64,
        0 <= r < 32,
        0 <= p < SCREEN_SIZE,
    ensures
        (sprite_col(x, p) == c && sprite_row(y, p) == r) <==> p == cell_index(
            (x + c) % 64,
            (y + r) % 32,
        ),
        0 <= sprite_col(x, p) < 64,
        0 <= sprite_row(y, p) < 32,
{
}

/// A grid of lit / unlit cells, row-major, origin top-left.
pub struct Screen {
    pub pixels: [bool; 2048],
}

impl Screen {
    /// Whether the cell at column `x`, row `y` is lit.
    pub open spec fn lit(&self, x: int, y: int) -> bool {
        self.pixels@[cell_index(x, y)]
    }

    /// A display with every cell unlit.
    pub fn new() -> (s: Screen)
        ensures
            forall|i: int| 0 <= i < SCREEN_SIZE ==> !s.pixels@[i],
    {
        Screen { pixels: [false; 2048] }
    }

    /// Toggles the cell at `(x mod width, y mod height)` and returns whether
    /// it was lit before.
    pub fn toggle(&mut self, x: u8, y: u8) -> (was_lit: bool)
        ensures
            was_lit == old(self).lit(x as int % 64, y as int % 32),
            final(self).pixels@ == old(self).pixels@.update(
                cell_index(x as int % 64, y as int % 32),
                !old(self).lit(x as int % 64, y as int % 32),
            ),
    {
        let (cx, cy) = Self::clamp(x, y);
        let index = cy * SCREEN_WIDTH + cx;
        let previous = self.pixels[index];
        self.pixels[index] = !previous;
        previous
    }

    /// Unlights every cell.
    pub fn clear(&mut self)
        ensures
            forall|i: int| 0 <= i < SCREEN_SIZE ==> !final(self).pixels@[i],
    {
        self.pixels = [false; 2048];
    }

    /// Lights every cell.
    pub fn fill(&mut self)
        ensures
            forall|i: int| 0 <= i < SCREEN_SIZE ==> final(self).pixels@[i],
    {
        self.pixels = [true; 2048];
    }

    /// Wraps a coordinate pair onto the display: column modulo the width,
    /// row modulo the height.
    pub fn clamp(x: u8, y: u8) -> (r: (usize, usize))
        ensures
            r.0 == x % 64,
            r.1 == y % 32,
    {
        ((x % 64) as usize, (y % 32) as usize)
    }

    /// XOR-draws `sprite`, one byte per row and most significant bit
    /// first, with its top-left corner at `(x, y)`, wrapping at the edges;
    /// returns whether some lit cell was turned off.
    pub fn draw(&mut self, sprite: &[u8], x: u8, y: u8) -> (collision: bool)
        requires
            sprite@.len() <= SCREEN_HEIGHT,
        ensures
            final(self).pixels@ == drawn(old(self).pixels@, sprite@, x, y),
            collision == collides(old(self).pixels@, sprite@, x, y),
    {
        let ghost s0 = self.pixels@;
        let mut collision = false;
        let mut r: usize = 0;
        while r < sprite.len()
            invariant
                r <= sprite@.len() <= SCREEN_HEIGHT,
                s0.len() == SCREEN_SIZE,
                forall|p: int|
                    0 <= p < SCREEN_SIZE ==> self.pixels@[p] == (s0[p] != covered_before(
                        sprite@,
                        x,
                        y,
                        p,
                        r as int,
                        0,
                    )),
                collision == exists|p: int|
                    0 <= p < SCREEN_SIZE && s0[p] && #[trigger] covered_before(
                        sprite@,
                        x,
                        y,
                        p,
                        r as int,
                        0,
                    ),
            decreases sprite@.len() - r,
        {
            let row = sprite[r];
            let mut c: u8 = 0;
            while c < 8
                invariant
                    r < sprite@.len() <= SCREEN_HEIGHT,
                    row == sprite@[r as int],
                    c <= 8,
                    s0.len() == SCREEN_SIZE,
                    forall|p: int|
                        0 <= p < SCREEN_SIZE ==> self.pixels@[p] == (s0[p] != covered_before(
                            sprite@,
                            x,
                            y,
                            p,
                            r as int,
                            c as int,
                        )),
                    collision == exists|p: int|
                        0 <= p < SCREEN_SIZE && s0[p] && #[trigger] covered_before(
                            sprite@,
                            x,
                            y,
                            p,
                            r as int,
                            c as int,
                        ),
                decreases 8 - c,
            {
                let ghost q = cell_index((x + c) % 64, (y + r) % 32);
                let ghost coll0 = collision;
                assert forall|p: int| 0 <= p < SCREEN_SIZE implies (sprite_col(x, p) == c
                    && sprite_row(y, p) == r) == (p == q) by {
                    lemma_sprite_cell(x, y, c as int, r as int, p);
                }
                assert(0 <= q < SCREEN_SIZE);
                if (row >> (7 - c)) & 1u8 == 1u8 {
                    let cx = x.wrapping_add(c);
                    let cy = y.wrapping_add(r as u8);
                    assert(cx as int % 64 == (x + c) % 64);
                    assert(cy as int % 32 == (y + r) % 32);
                    let was_lit = self.toggle(cx, cy);
                    assert(covers(sprite@, x, y, q));
                    assert(!covered_before(sprite@, x, y, q, r as int, c as int));
                    assert(was_lit == s0[q]);
                    if was_lit {
                        collision = true;
                    }
                    assert forall|p: int| 0 <= p < SCREEN_SIZE implies #[trigger] covered_before(
                        sprite@,
                        x,
                        y,
                        p,
                        r as int,
                        c + 1,
                    ) == (covered_before(sprite@, x, y, p, r as int, c as int) || p == q) by {
                        lemma_sprite_cell(x, y, c as int, r as int, p);
                    }
                    proof {
                        if coll0 {
                            let p = choose|p: int|
                                0 <= p < SCREEN_SIZE && s0[p] && #[trigger] covered_before(
                                    sprite@,
                                    x,
                                    y,
                                    p,
                                    r as int,
                                    c as int,
                                );
                            assert(covered_before(sprite@, x, y, p, r as int, c + 1));
                        } else if was_lit {
                            assert(covered_before(sprite@, x, y, q, r as int, c + 1));
                        } else {
                            assert forall|p: int| 0 <= p < SCREEN_SIZE && s0[p] implies !#[trigger] covered_before(
                                sprite@,
                                x,
                                y,
                                p,
                                r as int,
                                c + 1,
                            ) by {
                                if p != q {
                                    assert(!covered_before(sprite@, x, y, p, r as int, c as int));
                                }
                            }
                        }
                    }
                } else {
                    assert forall|p: int| 0 <= p < SCREEN_SIZE implies #[trigger] covered_before(
                        sprite@,
                        x,
                        y,
                        p,
                        r as int,
                        c + 1,
                    ) == covered_before(sprite@, x, y, p, r as int, c as int) by {
                        lemma_sprite_cell(x, y, c as int, r as int, p);
                    }
                    proof {
                        if coll0 {
                            let p = choose|p: int|
                                0 <= p < SCREEN_SIZE && s0[p] && #[trigger] covered_before(
                                    sprite@,
                                    x,
                                    y,
                                    p,
                                    r as int,
                                    c as int,
                                );
                            assert(covered_before(sprite@, x, y, p, r as int, c + 1));
                        } else {
                            assert forall|p: int| 0 <= p < SCREEN_SIZE && s0[p] implies !#[trigger] covered_before(
                                sprite@,
                                x,
                                y,
                                p,
                                r as int,
                                c + 1,
                            ) by {
                                assert(!covered_before(sprite@, x, y, p, r as int, c as int));
                            }
                        }
                    }
                }
                c = c + 1;
            }
            assert forall|p: int| 0 <= p < SCREEN_SIZE implies #[trigger] covered_before(
                sprite@,
                x,
                y,
                p,
                r + 1,
                0,
            ) == covered_before(sprite@, x, y, p, r as int, 8) by {
                lemma_sprite_cell(x, y, 0, 0, p);
            }
            proof {
                if collision {
                    let p = choose|p: int|
                        0 <= p < SCREEN_SIZE && s0[p] && #[trigger] covered_before(
                            sprite@,
                            x,
                            y,
                            p,
                            r as int,
                            8,
                        );
                    assert(covered_before(sprite@, x, y, p, r + 1, 0));
                } else {
                    assert forall|p: int| 0 <= p < SCREEN_SIZE && s0[p] implies !#[trigger] covered_before(
                        sprite@,
                        x,
                        y,
                        p,
                        r + 1,
                        0,
                    ) by {
                        assert(!covered_before(sprite@, x, y, p, r as int, 8));
                    }
                }
            }
            r = r + 1;
        }
        assert forall|p: int| 0 <= p < SCREEN_SIZE implies #[trigger] covered_before(
            sprite@,
            x,
            y,
            p,
            r as int,
            0,
        ) == covers(sprite@, x, y, p) by {
            lemma_sprite_cell(x, y, 0, 0, p);
        }
        proof {
            if collision {
                let p = choose|p: int|
                    0 <= p < SCREEN_SIZE && s0[p] && #[trigger] covered_before(
                        sprite@,
                        x,
                        y,
                        p,
                        r as int,
                        0,
                    );
                assert(covers(sprite@, x, y, p));
            } else {
                assert forall|p: int| 0 <= p < SCREEN_SIZE && s0[p] implies !#[trigger] covers(
                    sprite@,
                    x,
                    y,
                    p,
                ) by {
                    assert(!covered_before(sprite@, x, y, p, r as int, 0));
                }
            }
        }
        assert(self.pixels@ =~= drawn(s0, sprite@, x, y));
        collision
    }

    /// The lit cells as `(column, row)` pairs, in row-major order.
    pub fn lit_cells(&self) -> (r: Vec<(usize, usize)>)
        ensures
            forall|k: int|
                0 <= k < r@.len() ==> {
                    let (x, y) = #[trigger] r@[k];
                    x < SCREEN_WIDTH && y < SCREEN_HEIGHT && self.lit(x as int, y as int)
                },
            forall|j: int, k: int|
                0 <= j < k < r@.len() ==> cell_index(r@[j].0 as int, r@[j].1 as int) < cell_index(
                    r@[k].0 as int,
                    r@[k].1 as int,
                ),
            forall|p: int|
                0 <= p < SCREEN_SIZE && #[trigger] self.pixels@[p] ==> exists|k: int|
                    0 <= k < r@.len() && cell_index(r@[k].0 as int, r@[k].1 as int) == p,
    {
        let mut cells: Vec<(usize, usize)> = Vec::new();
        let mut y: usize = 0;
        while y < SCREEN_HEIGHT
            invariant
                y <= SCREEN_HEIGHT,
                forall|k: int|
                    0 <= k < cells@.len() ==> {
                        let (cx, cy) = #[trigger] cells@[k];
                        cx < SCREEN_WIDTH && cy < y && self.lit(cx as int, cy as int)
                    },
                forall|j: int, k: int|
                    0 <= j < k < cells@.len() ==> cell_index(cells@[j].0 as int, cells@[j].1 as int)
                        < cell_index(cells@[k].0 as int, cells@[k].1 as int),
                forall|p: int|
                    0 <= p < y * SCREEN_WIDTH && #[trigger] self.pixels@[p] ==> exists|k: int|
                        0 <= k < cells@.len() && cell_index(cells@[k].0 as int, cells@[k].1 as int)
                            == p,
            decreases SCREEN_HEIGHT - y,
        {
            let mut x: usize = 0;
            while x < SCREEN_WIDTH
                invariant
                    y < SCREEN_HEIGHT,
                    x <= SCREEN_WIDTH,
                    forall|k: int|
                        0 <= k < cells@.len() ==> {
                            let (cx, cy) = #[trigger] cells@[k];
                            cx < SCREEN_WIDTH && cy <= y && self.lit(cx as int, cy as int)
                                && cell_index(cx as int, cy as int) < cell_index(x as int, y as int)
                        },
                    forall|j: int, k: int|
                        0 <= j < k < cells@.len() ==> cell_index(cells@[j].0 as int, cells@[j].1 as int)
                            < cell_index(cells@[k].0 as int, cells@[k].1 as int),
                    forall|p: int|
                        0 <= p < cell_index(x as int, y as int) && #[trigger] self.pixels@[p] ==> exists|
                            k: int,
                        |
                            0 <= k < cells@.len() && cell_index(cells@[k].0 as int, cells@[k].1 as int)
                                == p,
                decreases SCREEN_WIDTH - x,
            {
                if self.pixels[y * SCREEN_WIDTH + x] {
                    let ghost before = cells@;
                    cells.push((x, y));
                    assert forall|p: int|
                        0 <= p < cell_index(x + 1, y as int) && #[trigger] self.pixels@[p] implies exists|
                            k: int,
                        |
                            0 <= k < cells@.len() && cell_index(cells@[k].0 as int, cells@[k].1 as int)
                                == p by {
                        if p == cell_index(x as int, y as int) {
                            assert(cell_index(cells@[before.len() as int].0 as int, cells@[before.len() as int].1 as int) == p);
                        } else {
                            let k = choose|k: int|
                                0 <= k < before.len() && cell_index(before[k].0 as int, before[k].1 as int) == p;
                            assert(cells@[k] == before[k]);
                        }
                    }
                }
                x = x + 1;
            }
            y = y + 1;
        }
        cells
    }

    /// Whether the cell at column `x`, row `y` is lit.
    pub fn is_lit(&self, x: usize, y: usize) -> (r: bool)
        requires
            x < SCREEN_WIDTH,
            y < SCREEN_HEIGHT,
        ensures
            r == self.lit(x as int, y as int),
    {
        self.pixels[y * SCREEN_WIDTH + x]
    }
}

} // verus!
