//! What one step of the machine does: fetch a word, decode it, execute it.

use vstd::prelude::*;
use crate::fault::Fault;
use crate::layout::RAM_SIZE;
use crate::state::{op_class, op_n, op_nn, op_nnn, op_x, op_y, State};

verus! {

/// The result of an operation on the machine, from its report to the caller
/// and the state it left: success carries the new state, failure the fault.
pub open spec fn outcome(res: Result<(), Fault>, after: State) -> Result<State, Fault> {
    match res {
        Ok(_) => Ok(after),
        Err(fault) => Err(fault),
    }
}

impl State {
    /// Whether the two bytes of the next instruction lie in memory.
    pub open spec fn can_fetch(self) -> bool {
        self.pc + 1 < RAM_SIZE
    }

    /// The instruction word at the program counter: the byte there is its
    /// high half, the byte after it its low half.
    pub open spec fn word_at_pc(self) -> u16 {
        (self.ram[self.pc as int] * 0x100 + self.ram[self.pc + 1]) as u16
    }

    /// The state after the instruction at the program counter was fetched:
    /// the program counter is past it.
    pub open spec fn advance(self) -> State {
        State { pc: (self.pc + 2) as u16, ..self }
    }

    /// Whether the program counter is where a fetch leaves it.
    pub open spec fn fetched(self) -> bool {
        2 <= self.pc <= RAM_SIZE
    }

    /// What executing the instruction word `op` makes of this state, in
    /// which the program counter is already past the instruction. `rnd` is
    /// the random byte that the instruction gets if it asks for one. A word
    /// that is no instruction is a fault, and so is an instruction that
    /// cannot be carried out.
    pub open spec fn execute(self, op: u16, rnd: u8) -> Result<State, Fault> {
        let class = op_class(op);
        let x = op_x(op);
        let y = op_y(op);
        let n = op_n(op);
        let nn = op_nn(op);
        let nnn = op_nnn(op);
        if op == 0x0000 {
            Ok(self)
        } else if op == 0x00E0 {
            Ok(self.op_cls())
        } else if op == 0x00EE {
            self.op_ret()
        } else if class == 0x1 {
            Ok(self.jump(nnn))
        } else if class == 0x2 {
            self.op_call(nnn)
        } else if class == 0x3 {
            Ok(self.skip_if(self.v[x] == nn))
        } else if class == 0x4 {
            Ok(self.skip_if(self.v[x] != nn))
        } else if class == 0x5 && n == 0x0 {
            Ok(self.skip_if(self.v[x] == self.v[y]))
        } else if class == 0x6 {
            Ok(self.set_v(x, nn))
        } else if class == 0x7 {
            Ok(self.op_add_nn(x, nn))
        } else if class == 0x8 && n == 0x0 {
            Ok(self.set_v(x, self.v[y]))
        } else if class == 0x8 && n == 0x1 {
            Ok(self.set_v(x, self.v[x] | self.v[y]))
        } else if class == 0x8 && n == 0x2 {
            Ok(self.set_v(x, self.v[x] & self.v[y]))
        } else if class == 0x8 && n == 0x3 {
            Ok(self.set_v(x, self.v[x] ^ self.v[y]))
        } else if class == 0x8 && n == 0x4 {
            Ok(self.op_add(x, y))
        } else if class == 0x8 && n == 0x5 {
            Ok(self.op_sub(x, y))
        } else if class == 0x8 && n == 0x6 {
            Ok(self.op_shr(x))
        } else if class == 0x8 && n == 0x7 {
            Ok(self.op_subn(x, y))
        } else if class == 0x8 && n == 0xE {
            Ok(self.op_shl(x))
        } else if class == 0x9 && n == 0x0 {
            Ok(self.skip_if(self.v[x] != self.v[y]))
        } else if class == 0xA {
            Ok(self.set_i(nnn))
        } else if class == 0xB {
            Ok(self.op_jump_v0(nnn))
        } else if class == 0xC {
            Ok(self.op_rand(x, nn, rnd))
        } else if class == 0xD {
            self.op_draw(x, y, n)
        } else if class == 0xE && nn == 0x9E {
            self.op_skip_key(x, true)
        } else if class == 0xE && nn == 0xA1 {
            self.op_skip_key(x, false)
        } else if class == 0xF && nn == 0x07 {
            Ok(self.set_v(x, self.dt))
        } else if class == 0xF && nn == 0x0A {
            Ok(self.op_wait(x))
        } else if class == 0xF && nn == 0x15 {
            Ok(State { dt: self.v[x], ..self })
        } else if class == 0xF && nn == 0x18 {
            Ok(State { st: self.v[x], ..self })
        } else if class == 0xF && nn == 0x1E {
            Ok(self.op_add_i(x))
        } else if class == 0xF && nn == 0x29 {
            Ok(self.op_font(x))
        } else if class == 0xF && nn == 0x33 {
            self.op_bcd(x)
        } else if class == 0xF && nn == 0x55 {
            self.op_store(x)
        } else if class == 0xF && nn == 0x65 {
            self.op_load(x)
        } else {
            Err(Fault::UnknownInstruction { word: op, addr: (self.pc - 2) as u16 })
        }
    }

    /// What one step makes of this state: the word at the program counter is
    /// fetched and executed. `rnd` is the random byte that the instruction
    /// gets if it asks for one. A program counter too close to the end of
    /// memory is a fault.
    pub open spec fn step(self, rnd: u8) -> Result<State, Fault> {
        if !self.can_fetch() {
            Err(Fault::BadRead { addr: self.pc, len: 2 })
        } else {
            self.advance().execute(self.word_at_pc(), rnd)
        }
    }
}

} // verus!
