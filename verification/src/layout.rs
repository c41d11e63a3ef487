//! Sizes and addresses of the machine, and the built-in hexadecimal font.

use vstd::prelude::*;

verus! {

/// Width of the display in pixels.
pub const SCREEN_WIDTH: usize = 64;

/// Height of the display in pixels.
pub const SCREEN_HEIGHT: usize = 32;

/// Number of pixels of the display; pixel `(x, y)` is cell `x + SCREEN_WIDTH * y`.
pub const SCREEN_SIZE: usize = 2048;

/// Address at which programs are loaded and at which execution starts.
pub const START_ADDR: u16 = 0x200;

/// Number of bytes of addressable memory.
pub const RAM_SIZE: usize = 4096;

/// Number of general-purpose registers; the last one doubles as the flag register.
pub const NUM_REGS: usize = 16;

/// Index of the flag register.
pub const FLAG_REG: usize = 15;

/// Number of return addresses the call stack can hold.
pub const STACK_SIZE: usize = 16;

/// Number of keys of the hexadecimal keypad.
pub const NUM_KEYS: usize = 16;

/// Number of bytes of one glyph of the built-in font.
pub const GLYPH_SIZE: usize = 5;

/// Number of bytes of the built-in font: sixteen glyphs of five rows each.
pub const FONTSET_SIZE: usize = 80;

/// The built-in font: one glyph of five rows for each hexadecimal digit,
/// in the order `0` to `F`. Each row uses the high four bits of its byte.
pub const FONTSET: [u8; 80] = [
    0xF0, 0x90, 0x90, 0x90, 0xF0,
    0x20, 0x60, 0x20, 0x20, 0x70,
    0xF0, 0x10, 0xF0, 0x80, 0xF0,
    0xF0, 0x10, 0xF0, 0x10, 0xF0,
    0x90, 0x90, 0xF0, 0x10, 0x10,
    0xF0, 0x80, 0xF0, 0x10, 0xF0,
    0xF0, 0x80, 0xF0, 0x90, 0xF0,
    0xF0, 0x10, 0x20, 0x40, 0x40,
    0xF0, 0x90, 0xF0, 0x90, 0xF0,
    0xF0, 0x90, 0xF0, 0x10, 0xF0,
    0xF0, 0x90, 0xF0, 0x90, 0x90,
    0xE0, 0x90, 0xE0, 0x90, 0xE0,
    0xF0, 0x80, 0x80, 0x80, 0xF0,
    0xE0, 0x90, 0x90, 0x90, 0xE0,
    0xF0, 0x80, 0xF0, 0x80, 0xF0,
    0xF0, 0x80, 0xF0, 0x80, 0x80,
];

/// The column and the row of cell `cell` of the display.
pub fn cell_position(cell: usize) -> (pos: (usize, usize))
    requires
        cell < SCREEN_SIZE,
    ensures
        pos.0 == cell % SCREEN_WIDTH,
        pos.1 == cell / SCREEN_WIDTH,
        pos.0 < SCREEN_WIDTH,
        pos.1 < SCREEN_HEIGHT,
        pos.0 + SCREEN_WIDTH * pos.1 == cell,
{
    (cell % SCREEN_WIDTH, cell / SCREEN_WIDTH)
}

} // verus!
