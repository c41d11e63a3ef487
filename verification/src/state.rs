//! The machine as a mathematical value, and what each operation makes of it.
//!
//! Everything here is ghost code. The executable machine is `Emu`; its view
//! is a `State`, and the contract of each of its operations names the
//! function of this module that the operation computes.

use vstd::prelude::*;
use crate::fault::Fault;
use crate::layout::{
    FLAG_REG, FONTSET, FONTSET_SIZE, NUM_KEYS, NUM_REGS, RAM_SIZE, SCREEN_SIZE, STACK_SIZE,
    START_ADDR,
};

verus! {

/// The whole architectural state of the machine.
#[verifier::ext_equal]
pub struct State {
    /// Program counter: the address of the next instruction.
    pub pc: u16,
    /// Memory, `RAM_SIZE` bytes.
    pub ram: Seq<u8>,
    /// The display, `SCREEN_SIZE` cells, row after row.
    pub screen: Seq<bool>,
    /// The general-purpose registers `V0` to `VF`.
    pub v: Seq<u8>,
    /// The address register `I`.
    pub i: u16,
    /// Number of return addresses on the call stack.
    pub sp: u16,
    /// The slots of the call stack; those below `sp` are in use.
    pub stack: Seq<u16>,
    /// For each key of the keypad, whether it is held down.
    pub keys: Seq<bool>,
    /// The delay timer.
    pub dt: u8,
    /// The sound timer.
    pub st: u8,
}

/// The first field of an instruction word: its category.
pub open spec fn op_class(op: u16) -> int {
    op as int / 0x1000
}

/// The second field of an instruction word, mostly a register index.
pub open spec fn op_x(op: u16) -> int {
    (op as int / 0x100) % 0x10
}

/// The third field of an instruction word, mostly a register index.
pub open spec fn op_y(op: u16) -> int {
    (op as int / 0x10) % 0x10
}

/// The last field of an instruction word.
pub open spec fn op_n(op: u16) -> int {
    op as int % 0x10
}

/// The low byte of an instruction word.
pub open spec fn op_nn(op: u16) -> u8 {
    (op as int % 0x100) as u8
}

/// The low twelve bits of an instruction word: an address.
pub open spec fn op_nnn(op: u16) -> u16 {
    (op as int % 0x1000) as u16
}

/// Whether `len` bytes at `addr` can be read: an empty range always can,
/// another one if it ends in memory.
pub open spec fn readable(addr: int, len: int) -> bool {
    len <= 0 || (0 <= addr && addr + len <= RAM_SIZE)
}

/// Whether a program may write `len` bytes at `addr`: an empty range always,
/// another one if it starts at or after the load address and ends in memory.
pub open spec fn writable(addr: int, len: int) -> bool {
    len <= 0 || (START_ADDR <= addr && addr + len <= RAM_SIZE)
}

/// Memory as it is before any program is loaded: the font at address 0, and
/// zero everywhere else.
pub open spec fn initial_ram() -> Seq<u8> {
    Seq::new(RAM_SIZE as nat, |a: int| if a < FONTSET_SIZE { FONTSET@[a] } else { 0u8 })
}

/// The display with every pixel off.
pub open spec fn blank_screen() -> Seq<bool> {
    Seq::new(SCREEN_SIZE as nat, |k: int| false)
}

impl State {
    /// Every array has its fixed size, and the stack pointer is within the
    /// stack's capacity. This holds of the view of every `Emu`.
    pub open spec fn wf(self) -> bool {
        &&& self.ram.len() == RAM_SIZE
        &&& self.screen.len() == SCREEN_SIZE
        &&& self.v.len() == NUM_REGS
        &&& self.stack.len() == STACK_SIZE
        &&& self.keys.len() == NUM_KEYS
        &&& self.sp <= STACK_SIZE
    }

    /// The state of a machine that was just built or reset.
    pub open spec fn initial() -> State {
        State {
            pc: START_ADDR,
            ram: initial_ram(),
            screen: blank_screen(),
            v: Seq::new(NUM_REGS as nat, |k: int| 0u8),
            i: 0,
            sp: 0,
            stack: Seq::new(STACK_SIZE as nat, |k: int| 0u16),
            keys: Seq::new(NUM_KEYS as nat, |k: int| false),
            dt: 0,
            st: 0,
        }
    }

    /// Whether a program of `len` bytes fits between the load address and the
    /// end of memory.
    pub open spec fn program_fits(len: int) -> bool {
        START_ADDR + len <= RAM_SIZE
    }

    /// The state after `data` was copied to memory at the load address.
    pub open spec fn load(self, data: Seq<u8>) -> State {
        State {
            ram: Seq::new(
                RAM_SIZE as nat,
                |a: int|
                    if START_ADDR <= a < START_ADDR + data.len() {
                        data[a - START_ADDR]
                    } else {
                        self.ram[a]
                    },
            ),
            ..self
        }
    }

    /// The state after key `idx` went down (`pressed`) or up.
    pub open spec fn set_key(self, idx: int, pressed: bool) -> State {
        State { keys: self.keys.update(idx, pressed), ..self }
    }

    /// The state after one tick of the timers' clock: each timer that is not
    /// zero goes down by one.
    pub open spec fn tick_timers(self) -> State {
        State {
            dt: if self.dt > 0 { (self.dt - 1) as u8 } else { 0 },
            st: if self.st > 0 { (self.st - 1) as u8 } else { 0 },
            ..self
        }
    }

    /// The state after `val` was pushed on the call stack.
    pub open spec fn push(self, val: u16) -> State {
        State {
            stack: self.stack.update(self.sp as int, val),
            sp: (self.sp + 1) as u16,
            ..self
        }
    }

    /// The state after the top of the call stack was taken off. The slot keeps
    /// its value.
    pub open spec fn pop(self) -> State {
        State { sp: (self.sp - 1) as u16, ..self }
    }

    /// The value on top of the call stack.
    pub open spec fn top(self) -> u16 {
        self.stack[self.sp - 1]
    }

    /// The state with the program counter at `pc`.
    pub open spec fn jump(self, pc: u16) -> State {
        State { pc, ..self }
    }

    /// The state with the next instruction skipped if `cond` holds.
    pub open spec fn skip_if(self, cond: bool) -> State {
        if cond {
            State { pc: (self.pc + 2) as u16, ..self }
        } else {
            self
        }
    }

    /// The state with `val` in register `x`.
    pub open spec fn set_v(self, x: int, val: u8) -> State {
        State { v: self.v.update(x, val), ..self }
    }

    /// The state with `val` in register `x` and then `flag` in the flag
    /// register. Where `x` is the flag register itself, the flag is what
    /// stays.
    pub open spec fn set_v_flag(self, x: int, val: u8, flag: u8) -> State {
        State { v: self.v.update(x, val).update(FLAG_REG as int, flag), ..self }
    }

    /// The state with `i` in the address register.
    pub open spec fn set_i(self, i: u16) -> State {
        State { i, ..self }
    }

    /// `00E0`: every pixel goes off.
    pub open spec fn op_cls(self) -> State {
        State { screen: blank_screen(), ..self }
    }

    /// `00EE`: return to the address on top of the call stack. An empty stack
    /// is a fault.
    pub open spec fn op_ret(self) -> Result<State, Fault> {
        if self.sp == 0 {
            Err(Fault::StackUnderflow)
        } else {
            Ok(self.pop().jump(self.top()))
        }
    }

    /// `2nnn`: push the program counter and go to `nnn`. A full stack is a
    /// fault.
    pub open spec fn op_call(self, nnn: u16) -> Result<State, Fault> {
        if self.sp >= STACK_SIZE {
            Err(Fault::StackOverflow)
        } else {
            Ok(self.push(self.pc).jump(nnn))
        }
    }

    /// `7xnn`: add `nn` to `Vx`, modulo 256. The flag register is not
    /// touched.
    pub open spec fn op_add_nn(self, x: int, nn: u8) -> State {
        self.set_v(x, ((self.v[x] + nn) % 256) as u8)
    }

    /// `8xy4`: `Vx` becomes the sum of `Vx` and `Vy` modulo 256, the flag 1
    /// if the sum is above 255 and 0 if not.
    pub open spec fn op_add(self, x: int, y: int) -> State {
        let sum = self.v[x] + self.v[y];
        self.set_v_flag(x, (sum % 256) as u8, if sum > 255 { 1 } else { 0 })
    }

    /// `8xy5`: `Vx` becomes `Vx - Vy` modulo 256, the flag 0 if `Vx` was
    /// below `Vy` (a borrow) and 1 if not.
    pub open spec fn op_sub(self, x: int, y: int) -> State {
        let diff = self.v[x] - self.v[y];
        self.set_v_flag(x, (diff % 256) as u8, if diff < 0 { 0 } else { 1 })
    }

    /// `8xy7`: `Vx` becomes `Vy - Vx` modulo 256, the flag 0 if `Vy` was
    /// below `Vx` (a borrow) and 1 if not.
    pub open spec fn op_subn(self, x: int, y: int) -> State {
        let diff = self.v[y] - self.v[x];
        self.set_v_flag(x, (diff % 256) as u8, if diff < 0 { 0 } else { 1 })
    }

    /// `8xy6`: `Vx` is halved, and the flag is the bit that fell out: the
    /// lowest bit of the old `Vx`.
    pub open spec fn op_shr(self, x: int) -> State {
        self.set_v_flag(x, (self.v[x] / 2) as u8, (self.v[x] % 2) as u8)
    }

    /// `8xyE`: `Vx` is doubled modulo 256, and the flag is the bit that fell
    /// out: the highest bit of the old `Vx`.
    pub open spec fn op_shl(self, x: int) -> State {
        self.set_v_flag(x, ((self.v[x] * 2) % 256) as u8, (self.v[x] / 128) as u8)
    }

    /// `Bnnn`: go to `V0 + nnn`.
    pub open spec fn op_jump_v0(self, nnn: u16) -> State {
        self.jump((self.v[0] + nnn) as u16)
    }

    /// `Cxnn`: `Vx` becomes the random byte `rnd`, masked by `nn`.
    pub open spec fn op_rand(self, x: int, nn: u8, rnd: u8) -> State {
        self.set_v(x, rnd & nn)
    }

    /// `Ex9E` (`wanted` true) and `ExA1` (`wanted` false): skip the next
    /// instruction if key `Vx` is down, or up. A `Vx` that names no key is a
    /// fault.
    pub open spec fn op_skip_key(self, x: int, wanted: bool) -> Result<State, Fault> {
        if self.v[x] >= NUM_KEYS {
            Err(Fault::BadKey { key: self.v[x] })
        } else {
            Ok(self.skip_if(self.keys[self.v[x] as int] == wanted))
        }
    }

    /// Whether some key is held down.
    pub open spec fn any_key_pressed(self) -> bool {
        exists|k: int| 0 <= k < NUM_KEYS && self.keys[k]
    }

    /// Whether `k` is the key with the lowest index among those held down.
    pub open spec fn is_lowest_pressed(self, k: int) -> bool {
        &&& 0 <= k < NUM_KEYS
        &&& self.keys[k]
        &&& forall|j: int| 0 <= j < k ==> !self.keys[j]
    }

    /// The key with the lowest index among those held down, if there is one.
    pub open spec fn lowest_pressed(self) -> int {
        choose|k: int| self.is_lowest_pressed(k)
    }

    /// `Fx0A`: with a key down, `Vx` becomes the lowest index of such a key.
    /// With none, the program counter goes back by 2, to this instruction,
    /// which so runs again at the next step.
    pub open spec fn op_wait(self, x: int) -> State {
        if self.any_key_pressed() {
            self.set_v(x, self.lowest_pressed() as u8)
        } else {
            self.jump((self.pc - 2) as u16)
        }
    }

    /// `Fx1E`: add `Vx` to `I`, modulo 65536.
    pub open spec fn op_add_i(self, x: int) -> State {
        self.set_i(((self.i + self.v[x]) % 0x1_0000) as u16)
    }

    /// `Fx29`: `I` becomes the address of the glyph for `Vx`.
    pub open spec fn op_font(self, x: int) -> State {
        self.set_i((self.v[x] * 5) as u16)
    }

    /// `Fx33`: the decimal digits of `Vx` go to memory at `I`: hundreds, tens,
    /// ones. A fault unless the three bytes may be written.
    pub open spec fn op_bcd(self, x: int) -> Result<State, Fault> {
        if !writable(self.i as int, 3) {
            Err(Fault::BadWrite { addr: self.i, len: 3 })
        } else {
            let vx = self.v[x];
            Ok(
                State {
                    ram: self.ram.update(self.i as int, (vx / 100) as u8).update(
                        self.i + 1,
                        ((vx / 10) % 10) as u8,
                    ).update(self.i + 2, (vx % 10) as u8),
                    ..self
                },
            )
        }
    }

    /// `Fx55`: `V0` to `Vx` go to memory at `I`. A fault unless the `x + 1`
    /// bytes may be written.
    pub open spec fn op_store(self, x: int) -> Result<State, Fault> {
        if !writable(self.i as int, x + 1) {
            Err(Fault::BadWrite { addr: self.i, len: (x + 1) as u16 })
        } else {
            Ok(
                State {
                    ram: Seq::new(
                        RAM_SIZE as nat,
                        |a: int|
                            if self.i <= a <= self.i + x {
                                self.v[a - self.i]
                            } else {
                                self.ram[a]
                            },
                    ),
                    ..self
                },
            )
        }
    }

    /// `Fx65`: `V0` to `Vx` are read from memory at `I`. A fault unless the
    /// `x + 1` bytes can be read.
    pub open spec fn op_load(self, x: int) -> Result<State, Fault> {
        if !readable(self.i as int, x + 1) {
            Err(Fault::BadRead { addr: self.i, len: (x + 1) as u16 })
        } else {
            Ok(
                State {
                    v: Seq::new(
                        NUM_REGS as nat,
                        |k: int|
                            if k <= x {
                                self.ram[self.i + k]
                            } else {
                                self.v[k]
                            },
                    ),
                    ..self
                },
            )
        }
    }
}

} // verus!
