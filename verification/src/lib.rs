//! The core of a CHIP-8 virtual machine: memory, registers, display, and an
//! interpreter that executes one instruction per step.
//!
//! `Emu` is the machine. Its view is a `State`, a plain mathematical value,
//! and every operation's contract says which function of `State` it computes.

pub mod cpu;
pub mod draw;
pub mod emu;
pub mod fault;
pub mod laws;
pub mod layout;
pub mod ops;
mod random;
pub mod sprite;
pub mod state;
pub mod step;

pub use emu::Emu;
pub use fault::Fault;
pub use layout::{SCREEN_HEIGHT, SCREEN_WIDTH};
pub use state::State;
