//! What drawing a sprite does to the display.
//!
//! A sprite is up to fifteen rows of eight pixels, one byte per row, most
//! significant bit leftmost, read from memory at `I`. It is drawn by
//! exclusive-or, and what falls off one edge of the display comes back in at
//! the opposite edge.

use vstd::prelude::*;
use crate::fault::Fault;
use crate::layout::{FLAG_REG, SCREEN_HEIGHT, SCREEN_SIZE, SCREEN_WIDTH};
use crate::state::{readable, State};

verus! {

/// Bit `col` of the sprite row `row`, counted from the most significant bit.
pub open spec fn sprite_bit(row: u8, col: int) -> bool {
    0 <= col < 8 && row & (0x80u8 >> (col as u8)) != 0
}

/// The display cell on which column `col` of row `row` of a sprite falls,
/// when the sprite's origin is `(vx, vy)`.
pub open spec fn target_cell(vx: int, vy: int, row: int, col: int) -> int {
    (vx + col) % (SCREEN_WIDTH as int) + SCREEN_WIDTH * ((vy + row) % (SCREEN_HEIGHT as int))
}

/// The column of the sprite that falls on display cell `k`, if that is below
/// 8, when the sprite's origin is in column `vx`.
pub open spec fn sprite_col(vx: int, k: int) -> int {
    (k % (SCREEN_WIDTH as int) - vx) % (SCREEN_WIDTH as int)
}

/// The row of the sprite that falls on display cell `k`, if the sprite has
/// that many rows, when the sprite's origin is in row `vy`.
pub open spec fn sprite_row(vy: int, k: int) -> int {
    (k / (SCREEN_WIDTH as int) - vy) % (SCREEN_HEIGHT as int)
}

impl State {
    /// Whether the sprite of `n` rows at `I`, drawn with its origin at
    /// `(vx, vy)`, has a set pixel on display cell `k`.
    pub open spec fn sprite_hits(self, vx: int, vy: int, n: int, k: int) -> bool {
        let row = sprite_row(vy, k);
        let col = sprite_col(vx, k);
        row < n && col < 8 && sprite_bit(self.ram[self.i + row], col)
    }

    /// Whether drawing the sprite turns some pixel off: one of its set
    /// pixels falls on a pixel that is on.
    pub open spec fn collides(self, vx: int, vy: int, n: int) -> bool {
        exists|k: int|
            0 <= k < SCREEN_SIZE && self.screen[k] && #[trigger] self.sprite_hits(vx, vy, n, k)
    }

    /// The state after the sprite of `n` rows at `I` was drawn with its
    /// origin at `(vx, vy)`: each display cell under a set pixel of the sprite
    /// is flipped, and the flag register says whether a pixel went off.
    pub open spec fn draw_at(self, vx: int, vy: int, n: int) -> State {
        State {
            screen: Seq::new(
                SCREEN_SIZE as nat,
                |k: int| self.screen[k] != self.sprite_hits(vx, vy, n, k),
            ),
            v: self.v.update(FLAG_REG as int, if self.collides(vx, vy, n) { 1u8 } else { 0u8 }),
            ..self
        }
    }

    /// `sprite_hits`, of the part of the sprite that comes before column `c`
    /// of row `r` when the sprite is drawn row by row, each row from the left.
    pub open spec fn hits_before(self, vx: int, vy: int, n: int, r: int, c: int, k: int) -> bool {
        &&& self.sprite_hits(vx, vy, n, k)
        &&& (sprite_row(vy, k) < r || (sprite_row(vy, k) == r && sprite_col(vx, k) < c))
    }

    /// `collides`, of the part of the sprite that comes before column `c` of
    /// row `r`.
    pub open spec fn collides_before(self, vx: int, vy: int, n: int, r: int, c: int) -> bool {
        exists|k: int|
            0 <= k < SCREEN_SIZE && self.screen[k] && #[trigger] self.hits_before(
                vx,
                vy,
                n,
                r,
                c,
                k,
            )
    }

    /// `Dxyn`: draw the sprite of `n` rows at `I` with its origin at
    /// `(Vx, Vy)`. A fault unless the `n` bytes can be read.
    pub open spec fn op_draw(self, x: int, y: int, n: int) -> Result<State, Fault> {
        if !readable(self.i as int, n) {
            Err(Fault::BadRead { addr: self.i, len: n as u16 })
        } else {
            Ok(self.draw_at(self.v[x] as int, self.v[y] as int, n))
        }
    }
}

/// Column `col` of row `row` of a sprite falls on a cell of the display, and
/// on that cell no other row or column of the sprite falls.
pub proof fn lemma_target_cell(vx: int, vy: int, row: int, col: int)
    requires
        0 <= vx,
        0 <= vy,
        0 <= row < SCREEN_HEIGHT,
        0 <= col < SCREEN_WIDTH,
    ensures
        0 <= target_cell(vx, vy, row, col) < SCREEN_SIZE,
        sprite_row(vy, target_cell(vx, vy, row, col)) == row,
        sprite_col(vx, target_cell(vx, vy, row, col)) == col,
{
}

/// Each cell of the display is the target of the row and column of the
/// sprite that fall on it.
pub proof fn lemma_cell_is_target(vx: int, vy: int, k: int)
    requires
        0 <= vx,
        0 <= vy,
        0 <= k < SCREEN_SIZE,
    ensures
        0 <= sprite_row(vy, k) < SCREEN_HEIGHT,
        0 <= sprite_col(vx, k) < SCREEN_WIDTH,
        target_cell(vx, vy, sprite_row(vy, k), sprite_col(vx, k)) == k,
{
}

} // verus!
