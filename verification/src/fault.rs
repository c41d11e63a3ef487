//! The ways in which a loaded program can bring the machine to a halt.

use vstd::prelude::*;

verus! {

/// A fault raised by the machine. Every fault is caused by the loaded
/// program, not by the host; an operation that reports one leaves the machine
/// exactly as it found it.
#[derive(Clone, Copy, Debug, PartialEq, Eq)]
pub enum Fault {
    /// A program of `size` bytes does not fit between the load address and
    /// the end of memory.
    ProgramTooLarge { size: usize },
    /// The word `word`, fetched at address `addr`, is no instruction.
    UnknownInstruction { word: u16, addr: u16 },
    /// A call was made while the call stack was full.
    StackOverflow,
    /// A return was made while the call stack was empty.
    StackUnderflow,
    /// `len` bytes were to be read at `addr`, and not all of them lie in
    /// memory.
    BadRead { addr: u16, len: u16 },
    /// `len` bytes were to be written at `addr`, and not all of them lie in
    /// the part of memory that programs may write: from the load address to
    /// the end of memory.
    BadWrite { addr: u16, len: u16 },
    /// A key instruction named key `key`, and the keypad has no such key.
    BadKey { key: u8 },
}

} // verus!
