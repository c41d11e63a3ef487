//! The draw instruction.

use vstd::prelude::*;
use crate::emu::Emu;
use crate::fault::Fault;
use crate::layout::{RAM_SIZE, SCREEN_HEIGHT, SCREEN_SIZE, SCREEN_WIDTH};
use crate::sprite::{
    lemma_cell_is_target, lemma_target_cell, sprite_bit, sprite_col, sprite_row, target_cell,
};
use crate::state::State;
use crate::step::outcome;

verus! {

impl Emu {
    /// `Dxyn`: draws the sprite of `rows` rows that memory holds at `I`, with
    /// its origin at `(Vx, Vy)`. Pixels are flipped, not set, and the sprite
    /// wraps round the edges of the display. The flag register becomes 1 if
    /// a pixel went off, 0 if none did.
    pub(crate) fn draw(&mut self, x: u16, y: u16, rows: u16) -> (res: Result<(), Fault>)
        requires
            x < 16,
            y < 16,
            rows < 16,
        ensures
            old(self)@.op_draw(x as int, y as int, rows as int) == outcome(res, final(self)@),
            res is Err ==> final(self)@ == old(self)@,
    {
        proof {
            use_type_invariant(&*self);
        }
        if rows > 0 && self.i_reg as usize + rows as usize > RAM_SIZE {
            return Err(Fault::BadRead { addr: self.i_reg, len: rows });
        }
        let x_coord: u16 = self.v_reg[x as usize] as u16;
        let y_coord: u16 = self.v_reg[y as usize] as u16;
        let num_rows: u16 = rows;
        let ghost before = self@;
        let ghost vx = x_coord as int;
        let ghost vy = y_coord as int;
        let ghost n = rows as int;

        let mut flipped = false;
        for y_line in 0..num_rows
            invariant
                num_rows == rows,
                n == rows,
                rows < 16,
                vx == x_coord,
                vy == y_coord,
                x_coord < 256,
                y_coord < 256,
                before.wf(),
                rows > 0 ==> before.i + rows <= RAM_SIZE,
                self@ == (State { screen: self@.screen, ..before }),
                self@.screen.len() == SCREEN_SIZE,
                forall|k: int|
                    0 <= k < SCREEN_SIZE ==> self@.screen[k] == (before.screen[k]
                        != before.hits_before(vx, vy, n, y_line as int, 0, k)),
                flipped == before.collides_before(vx, vy, n, y_line as int, 0),
        {
            let addr: u16 = self.i_reg + y_line;
            let pixels: u8 = self.ram[addr as usize];
            for x_line in 0..8u8
                invariant
                    y_line < num_rows,
                    num_rows == rows,
                    n == rows,
                    rows < 16,
                    vx == x_coord,
                    vy == y_coord,
                    x_coord < 256,
                    y_coord < 256,
                    before.wf(),
                    before.i + rows <= RAM_SIZE,
                    pixels == before.ram[before.i + y_line],
                    self@ == (State { screen: self@.screen, ..before }),
                    self@.screen.len() == SCREEN_SIZE,
                    forall|k: int|
                        0 <= k < SCREEN_SIZE ==> self@.screen[k] == (before.screen[k]
                            != before.hits_before(vx, vy, n, y_line as int, x_line as int, k)),
                    flipped == before.collides_before(vx, vy, n, y_line as int, x_line as int),
            {
                let ghost r = y_line as int;
                let ghost c = x_line as int;
                let ghost cell = target_cell(vx, vy, r, c);
                let ghost was_flipped = flipped;
                proof {
                    use_type_invariant(&*self);
                    lemma_target_cell(vx, vy, r, c);
                    assert forall|k: int| 0 <= k < SCREEN_SIZE && k != cell implies !(sprite_row(
                        vy,
                        k,
                    ) == r && sprite_col(vx, k) == c) by {
                        lemma_cell_is_target(vx, vy, k);
                    }
                }
                if (pixels & (0b1000_0000u8 >> x_line)) != 0 {
                    let x: usize = (x_coord + x_line as u16) as usize % SCREEN_WIDTH;
                    let y: usize = (y_coord + y_line) as usize % SCREEN_HEIGHT;

                    let idx: usize = x + SCREEN_WIDTH * y;
                    flipped = flipped || self.screen[idx];
                    self.screen[idx] = !self.screen[idx];
                }
                proof {
                    let bit = sprite_bit(pixels, c);
                    assert forall|k: int| 0 <= k < SCREEN_SIZE implies before.hits_before(
                        vx,
                        vy,
                        n,
                        r,
                        c + 1,
                        k,
                    ) == (before.hits_before(vx, vy, n, r, c, k) || (k == cell && bit)) by {}
                    if before.collides_before(vx, vy, n, r, c + 1) {
                        let k = choose|k: int|
                            0 <= k < SCREEN_SIZE && before.screen[k] && #[trigger] before.hits_before(
                                vx,
                                vy,
                                n,
                                r,
                                c + 1,
                                k,
                            );
                        assert(before.hits_before(vx, vy, n, r, c, k) || (k == cell && bit));
                    }
                    if bit && before.screen[cell] {
                        assert(before.hits_before(vx, vy, n, r, c + 1, cell));
                    }
                    if was_flipped {
                        let k = choose|k: int|
                            0 <= k < SCREEN_SIZE && before.screen[k] && #[trigger] before.hits_before(
                                vx,
                                vy,
                                n,
                                r,
                                c,
                                k,
                            );
                        assert(before.hits_before(vx, vy, n, r, c + 1, k));
                    }
                }
            }
            proof {
                let r = y_line as int;
                assert forall|k: int| 0 <= k < SCREEN_SIZE implies before.hits_before(
                    vx,
                    vy,
                    n,
                    r,
                    8,
                    k,
                ) == before.hits_before(vx, vy, n, r + 1, 0, k) by {
                    lemma_cell_is_target(vx, vy, k);
                }
                if before.collides_before(vx, vy, n, r, 8) {
                    let k = choose|k: int|
                        0 <= k < SCREEN_SIZE && before.screen[k] && #[trigger] before.hits_before(
                            vx,
                            vy,
                            n,
                            r,
                            8,
                            k,
                        );
                    assert(before.hits_before(vx, vy, n, r + 1, 0, k));
                }
                if before.collides_before(vx, vy, n, r + 1, 0) {
                    let k = choose|k: int|
                        0 <= k < SCREEN_SIZE && before.screen[k] && #[trigger] before.hits_before(
                            vx,
                            vy,
                            n,
                            r + 1,
                            0,
                            k,
                        );
                    assert(before.hits_before(vx, vy, n, r, 8, k));
                }
            }
        }
        proof {
            use_type_invariant(&*self);
            assert forall|k: int| 0 <= k < SCREEN_SIZE implies before.hits_before(
                vx,
                vy,
                n,
                n,
                0,
                k,
            ) == before.sprite_hits(vx, vy, n, k) by {
                lemma_cell_is_target(vx, vy, k);
            }
            if before.collides_before(vx, vy, n, n, 0) {
                let k = choose|k: int|
                    0 <= k < SCREEN_SIZE && before.screen[k] && #[trigger] before.hits_before(
                        vx,
                        vy,
                        n,
                        n,
                        0,
                        k,
                    );
                assert(before.sprite_hits(vx, vy, n, k));
            }
            if before.collides(vx, vy, n) {
                let k = choose|k: int|
                    0 <= k < SCREEN_SIZE && before.screen[k] && #[trigger] before.sprite_hits(
                        vx,
                        vy,
                        n,
                        k,
                    );
                assert(before.hits_before(vx, vy, n, n, 0, k));
            }
        }
        if flipped {
            self.v_reg[0xF] = 1;
        } else {
            self.v_reg[0xF] = 0;
        }
        proof {
            assert(self@.screen =~= before.draw_at(vx, vy, n).screen);
        }
        Ok(())
    }
}

} // verus!
