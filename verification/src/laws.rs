//! Laws of the machine: what holds of every state and every instruction.
//!
//! Each law is stated over `State::step`, the function that `Emu::tick`
//! computes, or over the functions of `State` that `step` is made of.

use vstd::prelude::*;
use crate::layout::{
    FLAG_REG, FONTSET, FONTSET_SIZE, NUM_KEYS, NUM_REGS, RAM_SIZE, SCREEN_HEIGHT, SCREEN_SIZE,
    SCREEN_WIDTH, START_ADDR,
};
use crate::sprite::{lemma_cell_is_target, lemma_target_cell, sprite_bit, target_cell};
use crate::state::{op_class, op_n, op_nn, op_x, op_y, State};

verus! {

/// The initial state is well formed. Its memory holds the font, byte for
/// byte, and zero everywhere else; every register, stack slot and timer is
/// zero, every key is up and every pixel is off.
pub proof fn law_initial_state()
    ensures
        State::initial().wf(),
        State::initial().pc == START_ADDR,
        State::initial().i == 0,
        State::initial().sp == 0,
        State::initial().dt == 0,
        State::initial().st == 0,
        forall|a: int| 0 <= a < FONTSET_SIZE ==> State::initial().ram[a] == FONTSET@[a],
        forall|a: int| FONTSET_SIZE <= a < RAM_SIZE ==> State::initial().ram[a] == 0,
        forall|k: int| 0 <= k < NUM_REGS ==> State::initial().v[k] == 0,
        forall|k: int| 0 <= k < State::initial().stack.len() ==> State::initial().stack[k] == 0,
        forall|k: int| 0 <= k < NUM_KEYS ==> !State::initial().keys[k],
        forall|k: int| 0 <= k < SCREEN_SIZE ==> !State::initial().screen[k],
{
}

/// A step that succeeds leaves a well-formed state well formed.
pub proof fn law_step_keeps_wf(s: State, rnd: u8)
    requires
        s.wf(),
        s.step(rnd) is Ok,
    ensures
        s.step(rnd)->Ok_0.wf(),
{
}

/// No instruction writes below the load address: whatever a step does, the
/// font and the rest of low memory stay as they were.
pub proof fn law_step_keeps_low_memory(s: State, rnd: u8, a: int)
    requires
        s.wf(),
        s.step(rnd) is Ok,
        0 <= a < START_ADDR,
    ensures
        s.step(rnd)->Ok_0.ram[a] == s.ram[a],
{
}

/// Loading a program writes nothing below the load address.
pub proof fn law_load_keeps_low_memory(s: State, data: Seq<u8>, a: int)
    requires
        s.wf(),
        State::program_fits(data.len() as int),
        0 <= a < START_ADDR,
    ensures
        s.load(data).ram[a] == s.ram[a],
        s.load(data).wf(),
{
}

/// Only the instruction `Cxnn` looks at the random byte: for any other word
/// at the program counter, a step gives the same result whatever the byte.
pub proof fn law_step_ignores_random_byte(s: State, rnd1: u8, rnd2: u8)
    requires
        op_class(s.word_at_pc()) != 0xC,
    ensures
        s.step(rnd1) == s.step(rnd2),
{
}

/// `8xy4`: the flag register becomes 1 if and only if the sum of `Vx` and
/// `Vy`, taken as unbounded integers, is above 255, and 0 if not. `Vx`
/// becomes the sum modulo 256, unless `Vx` is the flag register: then the
/// flag is what it holds.
pub proof fn law_add_sets_carry(s: State, rnd: u8)
    requires
        s.wf(),
        s.can_fetch(),
        op_class(s.word_at_pc()) == 0x8,
        op_n(s.word_at_pc()) == 0x4,
    ensures
        s.step(rnd) is Ok,
        ({
            let after = s.step(rnd)->Ok_0;
            let x = op_x(s.word_at_pc());
            let y = op_y(s.word_at_pc());
            let sum = s.v[x] + s.v[y];
            &&& after.v[FLAG_REG as int] == 1 <==> sum > 255
            &&& after.v[FLAG_REG as int] == 0 <==> sum <= 255
            &&& x != FLAG_REG ==> after.v[x] == sum % 256
        }),
{
}

/// `8xy5`: the flag register becomes 0 if and only if `Vx` was below `Vy`,
/// and 1 if not. `Vx` becomes `Vx - Vy` modulo 256, unless `Vx` is the flag
/// register: then the flag is what it holds.
pub proof fn law_sub_sets_borrow(s: State, rnd: u8)
    requires
        s.wf(),
        s.can_fetch(),
        op_class(s.word_at_pc()) == 0x8,
        op_n(s.word_at_pc()) == 0x5,
    ensures
        s.step(rnd) is Ok,
        ({
            let after = s.step(rnd)->Ok_0;
            let x = op_x(s.word_at_pc());
            let y = op_y(s.word_at_pc());
            &&& after.v[FLAG_REG as int] == 0 <==> s.v[x] < s.v[y]
            &&& after.v[FLAG_REG as int] == 1 <==> s.v[x] >= s.v[y]
            &&& x != FLAG_REG ==> after.v[x] == (s.v[x] - s.v[y]) % 256
        }),
{
}

/// `8xy7`: the flag register becomes 0 if and only if `Vy` was below `Vx`,
/// and 1 if not. `Vx` becomes `Vy - Vx` modulo 256, unless `Vx` is the flag
/// register.
pub proof fn law_reverse_sub_sets_borrow(s: State, rnd: u8)
    requires
        s.wf(),
        s.can_fetch(),
        op_class(s.word_at_pc()) == 0x8,
        op_n(s.word_at_pc()) == 0x7,
    ensures
        s.step(rnd) is Ok,
        ({
            let after = s.step(rnd)->Ok_0;
            let x = op_x(s.word_at_pc());
            let y = op_y(s.word_at_pc());
            &&& after.v[FLAG_REG as int] == 0 <==> s.v[y] < s.v[x]
            &&& after.v[FLAG_REG as int] == 1 <==> s.v[y] >= s.v[x]
            &&& x != FLAG_REG ==> after.v[x] == (s.v[y] - s.v[x]) % 256
        }),
{
}

/// `8xy6`: the flag register becomes the lowest bit that `Vx` had, and `Vx`
/// is shifted right by one, unless `Vx` is the flag register.
pub proof fn law_shift_right_keeps_low_bit(s: State, rnd: u8)
    requires
        s.wf(),
        s.can_fetch(),
        op_class(s.word_at_pc()) == 0x8,
        op_n(s.word_at_pc()) == 0x6,
    ensures
        s.step(rnd) is Ok,
        ({
            let after = s.step(rnd)->Ok_0;
            let x = op_x(s.word_at_pc());
            &&& after.v[FLAG_REG as int] == s.v[x] & 1
            &&& x != FLAG_REG ==> after.v[x] == s.v[x] >> 1
        }),
{
    let vx = s.v[op_x(s.word_at_pc())];
    assert(vx & 1 == vx % 2 && vx >> 1 == vx / 2) by (bit_vector);
}

/// `8xyE`: the flag register becomes the highest bit that `Vx` had, and `Vx`
/// is shifted left by one, unless `Vx` is the flag register.
pub proof fn law_shift_left_keeps_high_bit(s: State, rnd: u8)
    requires
        s.wf(),
        s.can_fetch(),
        op_class(s.word_at_pc()) == 0x8,
        op_n(s.word_at_pc()) == 0xE,
    ensures
        s.step(rnd) is Ok,
        ({
            let after = s.step(rnd)->Ok_0;
            let x = op_x(s.word_at_pc());
            &&& after.v[FLAG_REG as int] == (s.v[x] >> 7) & 1
            &&& x != FLAG_REG ==> after.v[x] == s.v[x] << 1
        }),
{
    let vx = s.v[op_x(s.word_at_pc())];
    assert((vx >> 7) & 1 == vx / 128 && vx << 1 == (vx * 2) % 256) by (bit_vector);
}

/// Drawing a sprite twice at one place undoes the first drawing: the display
/// is as it was. The second drawing reports a collision if and only if the
/// first one switched some pixel on.
pub proof fn law_draw_twice_restores(s: State, vx: int, vy: int, n: int)
    requires
        s.wf(),
        0 <= vx,
        0 <= vy,
        0 <= n <= SCREEN_HEIGHT,
    ensures
        s.draw_at(vx, vy, n).draw_at(vx, vy, n).screen == s.screen,
        s.draw_at(vx, vy, n).draw_at(vx, vy, n).v[FLAG_REG as int] == 1 <==> exists|k: int|
            0 <= k < SCREEN_SIZE && !s.screen[k] && #[trigger] s.sprite_hits(vx, vy, n, k),
        s.draw_at(vx, vy, n).draw_at(vx, vy, n).v[FLAG_REG as int] == 0 <==> !exists|k: int|
            0 <= k < SCREEN_SIZE && !s.screen[k] && #[trigger] s.sprite_hits(vx, vy, n, k),
{
    let once = s.draw_at(vx, vy, n);
    let twice = once.draw_at(vx, vy, n);
    assert forall|k: int| 0 <= k < SCREEN_SIZE implies once.sprite_hits(vx, vy, n, k)
        == s.sprite_hits(vx, vy, n, k) by {}
    assert(twice.screen =~= s.screen);
    if once.collides(vx, vy, n) {
        let k = choose|k: int|
            0 <= k < SCREEN_SIZE && once.screen[k] && #[trigger] once.sprite_hits(vx, vy, n, k);
        assert(!s.screen[k] && s.sprite_hits(vx, vy, n, k));
    }
    if exists|k: int| 0 <= k < SCREEN_SIZE && !s.screen[k] && #[trigger] s.sprite_hits(vx, vy, n, k) {
        let k = choose|k: int|
            0 <= k < SCREEN_SIZE && !s.screen[k] && #[trigger] s.sprite_hits(vx, vy, n, k);
        assert(once.screen[k] && once.sprite_hits(vx, vy, n, k));
    }
}

/// The draw instruction, run twice with the sprite at one place, leaves the
/// display as it was. The place is the same both times if the first drawing
/// left `Vx` and `Vy` alone, as it does when neither is the flag register.
pub proof fn law_draw_instruction_twice_restores(s: State, x: int, y: int, n: int)
    requires
        s.wf(),
        0 <= x < NUM_REGS,
        0 <= y < NUM_REGS,
        0 <= n < 16,
        s.op_draw(x, y, n) is Ok,
        s.op_draw(x, y, n)->Ok_0.v[x] == s.v[x],
        s.op_draw(x, y, n)->Ok_0.v[y] == s.v[y],
    ensures
        s.op_draw(x, y, n)->Ok_0.op_draw(x, y, n) is Ok,
        s.op_draw(x, y, n)->Ok_0.op_draw(x, y, n)->Ok_0.screen == s.screen,
        x != FLAG_REG && y != FLAG_REG ==> s.op_draw(x, y, n)->Ok_0.op_draw(x, y, n)->Ok_0 == (State {
            v: s.op_draw(x, y, n)->Ok_0.op_draw(x, y, n)->Ok_0.v,
            ..s
        }),
{
    law_draw_twice_restores(s, s.v[x] as int, s.v[y] as int, n);
}

/// Drawing wraps round the edges of the display: column `col` of row `row`
/// of a sprite with its origin at `(vx, vy)` falls on the pixel in column
/// `(vx + col) % SCREEN_WIDTH` and row `(vy + row) % SCREEN_HEIGHT`, and that
/// pixel is flipped if and only if the sprite's bit is set.
pub proof fn law_draw_wraps(s: State, vx: int, vy: int, n: int, row: int, col: int)
    requires
        s.wf(),
        0 <= vx,
        0 <= vy,
        0 <= row < n <= SCREEN_HEIGHT,
        0 <= col < 8,
    ensures
        0 <= target_cell(vx, vy, row, col) < SCREEN_SIZE,
        target_cell(vx, vy, row, col) == (vx + col) % (SCREEN_WIDTH as int) + SCREEN_WIDTH * ((vy
            + row) % (SCREEN_HEIGHT as int)),
        s.draw_at(vx, vy, n).screen[target_cell(vx, vy, row, col)] == (s.screen[target_cell(
            vx,
            vy,
            row,
            col,
        )] != sprite_bit(s.ram[s.i + row], col)),
{
    lemma_target_cell(vx, vy, row, col);
}

/// A sprite with its origin in the last column and the last row of the
/// display has its first column and first row there, and the rest of it at
/// the opposite edges: column `col` of the sprite, if not the first, falls in
/// column `col - 1` of the display, and row `row`, if not the first, in row
/// `row - 1`.
pub proof fn law_draw_wraps_at_corner(s: State, n: int, row: int, col: int)
    requires
        s.wf(),
        0 <= row < n <= SCREEN_HEIGHT,
        0 <= col < 8,
    ensures
        ({
            let cell = (if col == 0 {
                SCREEN_WIDTH - 1
            } else {
                col - 1
            }) + SCREEN_WIDTH * (if row == 0 {
                SCREEN_HEIGHT - 1
            } else {
                row - 1
            });
            s.draw_at(SCREEN_WIDTH - 1, SCREEN_HEIGHT - 1, n).screen[cell] == (s.screen[cell]
                != sprite_bit(s.ram[s.i + row], col))
        }),
{
    law_draw_wraps(s, SCREEN_WIDTH - 1, SCREEN_HEIGHT - 1, n, row, col);
}

/// A display cell on which no set pixel of the sprite falls is left as it
/// was.
pub proof fn law_draw_leaves_the_rest(s: State, vx: int, vy: int, n: int, k: int)
    requires
        s.wf(),
        0 <= k < SCREEN_SIZE,
        !s.sprite_hits(vx, vy, n, k),
    ensures
        s.draw_at(vx, vy, n).screen[k] == s.screen[k],
{
}

/// `Fx0A` with no key down: the step changes nothing. The program counter is
/// where it was, so the next step runs the same instruction again.
pub proof fn law_wait_blocks(s: State, rnd: u8)
    requires
        s.wf(),
        s.can_fetch(),
        op_class(s.word_at_pc()) == 0xF,
        op_nn(s.word_at_pc()) == 0x0A,
        !s.any_key_pressed(),
    ensures
        s.step(rnd) == Ok::<State, crate::fault::Fault>(s),
{
    assert(s.advance().op_wait(op_x(s.word_at_pc())) =~= s);
}

/// `Fx0A` with a key down: the step moves the program counter to the next
/// instruction and puts in `Vx` the lowest index of a key that is down.
pub proof fn law_wait_takes_lowest_key(s: State, rnd: u8, key: int)
    requires
        s.wf(),
        s.can_fetch(),
        op_class(s.word_at_pc()) == 0xF,
        op_nn(s.word_at_pc()) == 0x0A,
        s.is_lowest_pressed(key),
    ensures
        s.step(rnd) == Ok::<State, crate::fault::Fault>(
            State {
                pc: (s.pc + 2) as u16,
                v: s.v.update(op_x(s.word_at_pc()), key as u8),
                ..s
            },
        ),
{
    let t = s.advance();
    assert(t.keys[key]);
    assert(t.is_lowest_pressed(key));
    let lowest = t.lowest_pressed();
    assert(t.is_lowest_pressed(lowest));
    assert(lowest == key);
}

} // verus!
