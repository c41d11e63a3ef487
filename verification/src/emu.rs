//! The machine itself: its storage, its life cycle, and what the host does to
//! it between steps.

use vstd::prelude::*;
use crate::fault::Fault;
use crate::layout::{
    FONTSET, FONTSET_SIZE, NUM_KEYS, NUM_REGS, RAM_SIZE, SCREEN_SIZE, STACK_SIZE, START_ADDR,
};
use crate::state::{initial_ram, State};

verus! {

/// A CHIP-8 machine. It owns all of its state; the host loads a program,
/// then calls `tick` to run instructions, `tick_timers` at the timers' rate,
/// `keypress` as keys go down and up, and `get_display` to show the screen.
#[derive(Debug)]
pub struct Emu {
    pub(crate) pc: u16,
    pub(crate) ram: [u8; RAM_SIZE],
    pub(crate) screen: [bool; SCREEN_SIZE],
    pub(crate) v_reg: [u8; NUM_REGS],
    pub(crate) i_reg: u16,
    pub(crate) sp: u16,
    pub(crate) stack: [u16; STACK_SIZE],
    pub(crate) keys: [bool; NUM_KEYS],
    pub(crate) dt: u8,
    pub(crate) st: u8,
}

impl View for Emu {
    type V = State;

    open(crate) spec fn view(&self) -> State {
        State {
            pc: self.pc,
            ram: self.ram@,
            screen: self.screen@,
            v: self.v_reg@,
            i: self.i_reg,
            sp: self.sp,
            stack: self.stack@,
            keys: self.keys@,
            dt: self.dt,
            st: self.st,
        }
    }
}

/// Memory as it is before any program is loaded.
fn fresh_ram() -> (ram: [u8; RAM_SIZE])
    ensures
        ram@ == initial_ram(),
{
    let mut ram: [u8; RAM_SIZE] = [0; RAM_SIZE];
    let mut a: usize = 0;
    while a < FONTSET_SIZE
        invariant
            a <= FONTSET_SIZE,
            forall|b: int| 0 <= b < a ==> ram@[b] == FONTSET@[b],
            forall|b: int| a <= b < RAM_SIZE ==> ram@[b] == 0,
        decreases FONTSET_SIZE - a,
    {
        ram[a] = FONTSET[a];
        a += 1;
    }
    ram
}

impl Emu {
    /// The stack pointer never leaves the stack.
    #[verifier::type_invariant]
    pub(crate) open spec fn inv(&self) -> bool {
        self.sp <= STACK_SIZE
    }

    /// A machine in its initial state: the font in low memory, the program
    /// counter at the load address, and everything else zero or off.
    pub fn new() -> (emu: Self)
        ensures
            emu@ == State::initial(),
            emu@.wf(),
    {
        Self {
            pc: START_ADDR,
            ram: fresh_ram(),
            screen: [false; SCREEN_SIZE],
            v_reg: [0; NUM_REGS],
            i_reg: 0,
            sp: 0,
            stack: [0; STACK_SIZE],
            keys: [false; NUM_KEYS],
            dt: 0,
            st: 0,
        }
    }

    /// Brings the machine back to its initial state. Nothing of the program
    /// that was loaded, or of what it did, is left.
    pub fn reset(&mut self)
        ensures
            final(self)@ == State::initial(),
            final(self)@.wf(),
    {
        proof {
            use_type_invariant(&*self);
        }
        self.pc = START_ADDR;
        self.ram = fresh_ram();
        self.screen = [false; SCREEN_SIZE];
        self.v_reg = [0; NUM_REGS];
        self.i_reg = 0;
        self.sp = 0;
        self.stack = [0; STACK_SIZE];
        self.keys = [false; NUM_KEYS];
        self.dt = 0;
        self.st = 0;
    }

    /// Pushes `val` on the call stack, which must have room for it.
    pub fn push(&mut self, val: u16)
        requires
            old(self)@.sp < STACK_SIZE,
        ensures
            final(self)@ == old(self)@.push(val),
            final(self)@.wf(),
    {
        proof {
            use_type_invariant(&*self);
        }
        self.stack[self.sp as usize] = val;
        self.sp += 1;
    }

    /// Takes the top of the call stack off and returns it. The stack must not
    /// be empty.
    pub fn pop(&mut self) -> (val: u16)
        requires
            old(self)@.sp > 0,
        ensures
            final(self)@ == old(self)@.pop(),
            val == old(self)@.top(),
            final(self)@.wf(),
    {
        proof {
            use_type_invariant(&*self);
        }
        self.sp -= 1;
        self.stack[self.sp as usize]
    }

    /// The display, row after row: pixel `(x, y)` is cell
    /// `x + SCREEN_WIDTH * y`.
    pub fn get_display(&self) -> (screen: &[bool])
        ensures
            screen@ == self@.screen,
            screen@.len() == SCREEN_SIZE,
    {
        &self.screen
    }

    /// Records that key `idx` went down (`pressed`) or up.
    pub fn keypress(&mut self, idx: usize, pressed: bool)
        requires
            idx < NUM_KEYS,
        ensures
            final(self)@ == old(self)@.set_key(idx as int, pressed),
            final(self)@.wf(),
    {
        proof {
            use_type_invariant(&*self);
        }
        self.keys[idx] = pressed;
    }

    /// Copies the program `data` to memory at the load address. A program
    /// that does not fit in memory is refused, and then nothing is copied.
    pub fn load(&mut self, data: &[u8]) -> (res: Result<(), Fault>)
        ensures
            State::program_fits(data@.len() as int) ==> res is Ok && final(self)@ == old(
                self,
            )@.load(data@),
            !State::program_fits(data@.len() as int) ==> res == Err::<(), Fault>(
                Fault::ProgramTooLarge { size: data@.len() as usize },
            ) && final(self)@ == old(self)@,
            final(self)@.wf(),
    {
        proof {
            use_type_invariant(&*self);
        }
        let start: usize = START_ADDR as usize;
        if data.len() > RAM_SIZE - start {
            return Err(Fault::ProgramTooLarge { size: data.len() });
        }
        let mut n: usize = 0;
        while n < data.len()
            invariant
                start == START_ADDR,
                n <= data@.len(),
                start + data@.len() <= RAM_SIZE,
                self@ == (State { ram: self@.ram, ..old(self)@ }),
                self@.ram.len() == RAM_SIZE,
                forall|a: int| start <= a < start + n ==> self@.ram[a] == data@[a - start],
                forall|a: int|
                    0 <= a < RAM_SIZE && !(start <= a < start + n) ==> self@.ram[a] == old(
                        self,
                    )@.ram[a],
            decreases data@.len() - n,
        {
            proof {
                use_type_invariant(&*self);
            }
            self.ram[start + n] = data[n];
            n += 1;
        }
        Ok(())
    }

    /// One tick of the timers' clock: each timer that is not zero goes down
    /// by one. The host calls this at a fixed rate, whatever the rate of
    /// `tick`.
    pub fn tick_timers(&mut self)
        ensures
            final(self)@ == old(self)@.tick_timers(),
            final(self)@.wf(),
    {
        proof {
            use_type_invariant(&*self);
        }
        if self.dt > 0 {
            self.dt -= 1;
        }
        if self.st > 0 {
            self.st -= 1;
        }
    }

    /// The program counter.
    pub fn get_pc(&self) -> (pc: u16)
        ensures
            pc == self@.pc,
    {
        self.pc
    }

    /// The whole of memory.
    pub fn get_ram(&self) -> (ram: &[u8])
        ensures
            ram@ == self@.ram,
            ram@.len() == RAM_SIZE,
    {
        &self.ram
    }

    /// The registers `V0` to `VF`.
    pub fn get_v_reg(&self) -> (v: &[u8])
        ensures
            v@ == self@.v,
            v@.len() == NUM_REGS,
    {
        &self.v_reg
    }

    /// The address register `I`.
    pub fn get_i_reg(&self) -> (i: u16)
        ensures
            i == self@.i,
    {
        self.i_reg
    }

    /// The number of return addresses on the call stack.
    pub fn get_sp(&self) -> (sp: u16)
        ensures
            sp == self@.sp,
            sp <= STACK_SIZE,
    {
        proof {
            use_type_invariant(self);
        }
        self.sp
    }

    /// The slots of the call stack; those below `get_sp()` are in use.
    pub fn get_stack(&self) -> (stack: &[u16])
        ensures
            stack@ == self@.stack,
            stack@.len() == STACK_SIZE,
    {
        &self.stack
    }

    /// For each key, whether it is held down.
    pub fn get_keys(&self) -> (keys: &[bool])
        ensures
            keys@ == self@.keys,
            keys@.len() == NUM_KEYS,
    {
        &self.keys
    }

    /// The delay timer.
    pub fn get_dt(&self) -> (dt: u8)
        ensures
            dt == self@.dt,
    {
        self.dt
    }

    /// The sound timer.
    pub fn get_st(&self) -> (st: u8)
        ensures
            st == self@.st,
    {
        self.st
    }
}

} // verus!
