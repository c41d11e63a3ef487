//! The instructions, one function each, but for the draw instruction.
//!
//! Each function is called with the program counter already past the
//! instruction. `op` is the whole instruction word, `x` and `y` are its second
//! and third fields. A function that can fail reports the fault and then
//! leaves the machine untouched.

use vstd::prelude::*;
use crate::emu::Emu;
use crate::fault::Fault;
use crate::layout::{NUM_KEYS, RAM_SIZE, SCREEN_SIZE, STACK_SIZE, START_ADDR};
use crate::random::random_byte;
use crate::state::{op_nn, op_nnn, State};
use crate::step::outcome;

verus! {

/// The low byte of an instruction word.
pub(crate) fn low_byte(op: u16) -> (nn: u8)
    ensures
        nn == op_nn(op),
{
    assert(op & 0xFF == op % 0x100) by (bit_vector);
    (op & 0xFF) as u8
}

/// The low twelve bits of an instruction word.
pub(crate) fn low_three(op: u16) -> (nnn: u16)
    ensures
        nnn == op_nnn(op),
{
    assert(op & 0xFFF == op % 0x1000) by (bit_vector);
    op & 0xFFF
}

impl Emu {
    /// `00E0`: clears the display.
    pub(crate) fn cls(&mut self)
        ensures
            final(self)@ == old(self)@.op_cls(),
    {
        proof {
            use_type_invariant(&*self);
        }
        self.screen = [false; SCREEN_SIZE];
    }

    /// `00EE`: returns from a subroutine.
    pub(crate) fn ret(&mut self) -> (res: Result<(), Fault>)
        ensures
            old(self)@.op_ret() == outcome(res, final(self)@),
            res is Err ==> final(self)@ == old(self)@,
    {
        if self.sp == 0 {
            return Err(Fault::StackUnderflow);
        }
        let ret_addr: u16 = self.pop();
        proof {
            use_type_invariant(&*self);
        }
        self.pc = ret_addr;
        Ok(())
    }

    /// `1nnn`: jumps to `nnn`.
    pub(crate) fn jmp_nnn(&mut self, op: u16)
        ensures
            final(self)@ == old(self)@.jump(op_nnn(op)),
    {
        proof {
            use_type_invariant(&*self);
        }
        self.pc = low_three(op);
    }

    /// `2nnn`: calls the subroutine at `nnn`.
    pub(crate) fn call_nnn(&mut self, op: u16) -> (res: Result<(), Fault>)
        ensures
            old(self)@.op_call(op_nnn(op)) == outcome(res, final(self)@),
            res is Err ==> final(self)@ == old(self)@,
    {
        let nnn: u16 = low_three(op);
        if self.sp as usize >= STACK_SIZE {
            return Err(Fault::StackOverflow);
        }
        let pc: u16 = self.pc;
        self.push(pc);
        self.pc = nnn;
        Ok(())
    }

    /// `3xnn`: skips the next instruction if `Vx` is `nn`.
    pub(crate) fn skip_vx_eqnn(&mut self, op: u16, x: u16)
        requires
            x < 16,
            old(self)@.pc + 2 <= u16::MAX,
        ensures
            final(self)@ == old(self)@.skip_if(old(self)@.v[x as int] == op_nn(op)),
    {
        proof {
            use_type_invariant(&*self);
        }
        let nn: u8 = low_byte(op);
        if self.v_reg[x as usize] == nn {
            self.pc += 2;
        }
    }

    /// `4xnn`: skips the next instruction if `Vx` is not `nn`.
    pub(crate) fn skip_vx_neqenn(&mut self, op: u16, x: u16)
        requires
            x < 16,
            old(self)@.pc + 2 <= u16::MAX,
        ensures
            final(self)@ == old(self)@.skip_if(old(self)@.v[x as int] != op_nn(op)),
    {
        proof {
            use_type_invariant(&*self);
        }
        let nn: u8 = low_byte(op);
        if self.v_reg[x as usize] != nn {
            self.pc += 2;
        }
    }

    /// `5xy0`: skips the next instruction if `Vx` is `Vy`.
    pub(crate) fn skip_vx_eqvy(&mut self, x: u16, y: u16)
        requires
            x < 16,
            y < 16,
            old(self)@.pc + 2 <= u16::MAX,
        ensures
            final(self)@ == old(self)@.skip_if(old(self)@.v[x as int] == old(self)@.v[y as int]),
    {
        proof {
            use_type_invariant(&*self);
        }
        if self.v_reg[x as usize] == self.v_reg[y as usize] {
            self.pc += 2;
        }
    }

    /// `6xnn`: `Vx` becomes `nn`.
    pub(crate) fn vx_eqnn(&mut self, op: u16, x: u16)
        requires
            x < 16,
        ensures
            final(self)@ == old(self)@.set_v(x as int, op_nn(op)),
    {
        proof {
            use_type_invariant(&*self);
        }
        let nn: u8 = low_byte(op);
        self.v_reg[x as usize] = nn;
    }

    /// `7xnn`: adds `nn` to `Vx`, modulo 256. The flag register is left
    /// alone.
    pub(crate) fn vx_plusnn(&mut self, op: u16, x: u16)
        requires
            x < 16,
        ensures
            final(self)@ == old(self)@.op_add_nn(x as int, op_nn(op)),
    {
        proof {
            use_type_invariant(&*self);
        }
        let nn: u8 = low_byte(op);
        self.v_reg[x as usize] = self.v_reg[x as usize].wrapping_add(nn);
    }

    /// `8xy0`: `Vx` becomes `Vy`.
    pub(crate) fn vx_eq_vy(&mut self, x: u16, y: u16)
        requires
            x < 16,
            y < 16,
        ensures
            final(self)@ == old(self)@.set_v(x as int, old(self)@.v[y as int]),
    {
        proof {
            use_type_invariant(&*self);
        }
        self.v_reg[x as usize] = self.v_reg[y as usize];
    }

    /// `8xy1`: `Vx` becomes `Vx` or `Vy`, bit by bit.
    pub(crate) fn vx_or_vy(&mut self, x: u16, y: u16)
        requires
            x < 16,
            y < 16,
        ensures
            final(self)@ == old(self)@.set_v(
                x as int,
                old(self)@.v[x as int] | old(self)@.v[y as int],
            ),
    {
        proof {
            use_type_invariant(&*self);
        }
        self.v_reg[x as usize] = self.v_reg[x as usize] | self.v_reg[y as usize];
    }

    /// `8xy2`: `Vx` becomes `Vx` and `Vy`, bit by bit.
    pub(crate) fn vx_and_vy(&mut self, x: u16, y: u16)
        requires
            x < 16,
            y < 16,
        ensures
            final(self)@ == old(self)@.set_v(
                x as int,
                old(self)@.v[x as int] & old(self)@.v[y as int],
            ),
    {
        proof {
            use_type_invariant(&*self);
        }
        self.v_reg[x as usize] = self.v_reg[x as usize] & self.v_reg[y as usize];
    }

    /// `8xy3`: `Vx` becomes `Vx` exclusive-or `Vy`, bit by bit.
    pub(crate) fn vx_xor_vy(&mut self, x: u16, y: u16)
        requires
            x < 16,
            y < 16,
        ensures
            final(self)@ == old(self)@.set_v(
                x as int,
                old(self)@.v[x as int] ^ old(self)@.v[y as int],
            ),
    {
        proof {
            use_type_invariant(&*self);
        }
        self.v_reg[x as usize] = self.v_reg[x as usize] ^ self.v_reg[y as usize];
    }

    /// `8xy4`: adds `Vy` to `Vx`, modulo 256. The flag register becomes 1 if
    /// the sum is above 255, and 0 if it is not.
    pub(crate) fn vx_plus_eqvy(&mut self, x: u16, y: u16)
        requires
            x < 16,
            y < 16,
        ensures
            final(self)@ == old(self)@.op_add(x as int, y as int),
    {
        proof {
            use_type_invariant(&*self);
        }
        let vx: u8 = self.v_reg[x as usize];
        let vy: u8 = self.v_reg[y as usize];
        let new_vx: u8 = vx.wrapping_add(vy);
        let carry: bool = vx as u16 + vy as u16 > 0xFF;
        let new_vf: u8 = if carry { 1 } else { 0 };
        self.v_reg[x as usize] = new_vx;
        self.v_reg[0xF] = new_vf;
    }

    /// `8xy5`: subtracts `Vy` from `Vx`, modulo 256. The flag register
    /// becomes 0 if `Vx` was below `Vy`, and 1 if it was not.
    pub(crate) fn vx_minus_eqvy(&mut self, x: u16, y: u16)
        requires
            x < 16,
            y < 16,
        ensures
            final(self)@ == old(self)@.op_sub(x as int, y as int),
    {
        proof {
            use_type_invariant(&*self);
        }
        let vx: u8 = self.v_reg[x as usize];
        let vy: u8 = self.v_reg[y as usize];
        let new_vx: u8 = vx.wrapping_sub(vy);
        let borrow: bool = vx < vy;
        let new_vf: u8 = if borrow { 0 } else { 1 };
        self.v_reg[x as usize] = new_vx;
        self.v_reg[0xF] = new_vf;
    }

    /// `8xy6`: shifts `Vx` right by one bit. The flag register becomes the
    /// bit that fell out.
    pub(crate) fn vx_bitshiftright(&mut self, x: u16)
        requires
            x < 16,
        ensures
            final(self)@ == old(self)@.op_shr(x as int),
    {
        proof {
            use_type_invariant(&*self);
        }
        let vx: u8 = self.v_reg[x as usize];
        let lsb: u8 = vx & 1;
        assert(vx & 1 == vx % 2 && vx >> 1 == vx / 2) by (bit_vector);
        self.v_reg[x as usize] = vx >> 1;
        self.v_reg[0xF] = lsb;
    }

    /// `8xy7`: `Vx` becomes `Vy - Vx`, modulo 256. The flag register becomes
    /// 0 if `Vy` was below `Vx`, and 1 if it was not.
    pub(crate) fn vx_eqvy_minusvx(&mut self, x: u16, y: u16)
        requires
            x < 16,
            y < 16,
        ensures
            final(self)@ == old(self)@.op_subn(x as int, y as int),
    {
        proof {
            use_type_invariant(&*self);
        }
        let vx: u8 = self.v_reg[x as usize];
        let vy: u8 = self.v_reg[y as usize];
        let new_vx: u8 = vy.wrapping_sub(vx);
        let borrow: bool = vy < vx;
        let new_vf: u8 = if borrow { 0 } else { 1 };
        self.v_reg[x as usize] = new_vx;
        self.v_reg[0xF] = new_vf;
    }

    /// `8xyE`: shifts `Vx` left by one bit. The flag register becomes the bit
    /// that fell out.
    pub(crate) fn vx_bitshiftleft(&mut self, x: u16)
        requires
            x < 16,
        ensures
            final(self)@ == old(self)@.op_shl(x as int),
    {
        proof {
            use_type_invariant(&*self);
        }
        let vx: u8 = self.v_reg[x as usize];
        let msb: u8 = (vx >> 7) & 1;
        assert((vx >> 7) & 1 == vx / 128 && vx << 1 == (vx * 2) % 256) by (bit_vector);
        self.v_reg[x as usize] = vx << 1;
        self.v_reg[0xF] = msb;
    }

    /// `9xy0`: skips the next instruction if `Vx` is not `Vy`.
    pub(crate) fn skip_eq_vx_neqvy(&mut self, x: u16, y: u16)
        requires
            x < 16,
            y < 16,
            old(self)@.pc + 2 <= u16::MAX,
        ensures
            final(self)@ == old(self)@.skip_if(old(self)@.v[x as int] != old(self)@.v[y as int]),
    {
        proof {
            use_type_invariant(&*self);
        }
        if self.v_reg[x as usize] != self.v_reg[y as usize] {
            self.pc += 2;
        }
    }

    /// `Annn`: `I` becomes `nnn`.
    pub(crate) fn i_eq_nnn(&mut self, op: u16)
        ensures
            final(self)@ == old(self)@.set_i(op_nnn(op)),
    {
        proof {
            use_type_invariant(&*self);
        }
        let nnn: u16 = low_three(op);
        self.i_reg = nnn;
    }

    /// `Bnnn`: jumps to `V0 + nnn`.
    pub(crate) fn jmp_vzero_plusnnn(&mut self, op: u16)
        ensures
            final(self)@ == old(self)@.op_jump_v0(op_nnn(op)),
    {
        proof {
            use_type_invariant(&*self);
        }
        let nnn: u16 = low_three(op);
        self.pc = (self.v_reg[0] as u16) + nnn;
    }

    /// `Cxnn`: `Vx` becomes a random byte, masked by `nn`. Whatever byte was
    /// drawn, the machine is left as `vx_eq_masked` leaves it for that
    /// byte.
    pub(crate) fn vx_eqrand_and_nnn(&mut self, op: u16, x: u16)
        requires
            x < 16,
        ensures
            exists|rnd: u8| final(self)@ == #[trigger] old(self)@.op_rand(x as int, op_nn(op), rnd),
    {
        let rng: u8 = random_byte();
        self.vx_eq_masked(op, x, rng);
    }

    /// What `Cxnn` does once the random byte `rnd` is drawn: `Vx` becomes
    /// `rnd`, masked by `nn`.
    pub(crate) fn vx_eq_masked(&mut self, op: u16, x: u16, rnd: u8)
        requires
            x < 16,
        ensures
            final(self)@ == old(self)@.op_rand(x as int, op_nn(op), rnd),
    {
        proof {
            use_type_invariant(&*self);
        }
        let nn: u8 = low_byte(op);
        self.v_reg[x as usize] = rnd & nn;
    }

    /// `Ex9E`: skips the next instruction if the key that `Vx` names is
    /// down.
    pub(crate) fn skip_keypress(&mut self, x: u16) -> (res: Result<(), Fault>)
        requires
            x < 16,
            old(self)@.pc + 2 <= u16::MAX,
        ensures
            old(self)@.op_skip_key(x as int, true) == outcome(res, final(self)@),
            res is Err ==> final(self)@ == old(self)@,
    {
        proof {
            use_type_invariant(&*self);
        }
        let vx: u8 = self.v_reg[x as usize];
        if vx as usize >= NUM_KEYS {
            return Err(Fault::BadKey { key: vx });
        }
        let key: bool = self.keys[vx as usize];
        if key {
            self.pc += 2;
        }
        Ok(())
    }

    /// `ExA1`: skips the next instruction if the key that `Vx` names is up.
    pub(crate) fn skip_keyrelease(&mut self, x: u16) -> (res: Result<(), Fault>)
        requires
            x < 16,
            old(self)@.pc + 2 <= u16::MAX,
        ensures
            old(self)@.op_skip_key(x as int, false) == outcome(res, final(self)@),
            res is Err ==> final(self)@ == old(self)@,
    {
        proof {
            use_type_invariant(&*self);
        }
        let vx: u8 = self.v_reg[x as usize];
        if vx as usize >= NUM_KEYS {
            return Err(Fault::BadKey { key: vx });
        }
        let key: bool = self.keys[vx as usize];
        if !key {
            self.pc += 2;
        }
        Ok(())
    }

    /// `Fx07`: `Vx` becomes the delay timer.
    pub(crate) fn vx_eq_delaytimer(&mut self, x: u16)
        requires
            x < 16,
        ensures
            final(self)@ == old(self)@.set_v(x as int, old(self)@.dt),
    {
        proof {
            use_type_invariant(&*self);
        }
        self.v_reg[x as usize] = self.dt;
    }

    /// `Fx0A`: waits for a key. With a key down, `Vx` becomes the lowest
    /// index of such a key. With none, the program counter goes back to this
    /// instruction, so that the next step runs it again.
    pub(crate) fn wait(&mut self, x: u16)
        requires
            x < 16,
            old(self)@.pc >= 2,
        ensures
            final(self)@ == old(self)@.op_wait(x as int),
    {
        let ghost before = self@;
        let mut pressed = false;
        let mut i: usize = 0;
        while i < NUM_KEYS
            invariant_except_break
                !pressed,
                self@ == before,
            invariant
                x < 16,
                i <= NUM_KEYS,
                forall|j: int| 0 <= j < i ==> !before.keys[j],
            ensures
                pressed ==> before.is_lowest_pressed(i as int) && self@ == before.set_v(
                    x as int,
                    i as u8,
                ),
                !pressed ==> !before.any_key_pressed() && self@ == before,
            decreases NUM_KEYS - i,
        {
            proof {
                use_type_invariant(&*self);
            }
            if self.keys[i] {
                self.v_reg[x as usize] = i as u8;
                pressed = true;
                break ;
            }
            i += 1;
        }
        proof {
            use_type_invariant(&*self);
            if pressed {
                assert(before.keys[i as int]);
                let lowest = before.lowest_pressed();
                assert(before.is_lowest_pressed(lowest));
                assert(lowest == i);
            }
        }
        if !pressed {
            self.pc -= 2;
        }
    }

    /// `Fx15`: the delay timer becomes `Vx`.
    pub(crate) fn delaytimer_eq_vx(&mut self, x: u16)
        requires
            x < 16,
        ensures
            final(self)@ == (State { dt: old(self)@.v[x as int], ..old(self)@ }),
    {
        proof {
            use_type_invariant(&*self);
        }
        self.dt = self.v_reg[x as usize];
    }

    /// `Fx18`: the sound timer becomes `Vx`.
    pub(crate) fn soundtimer_eq_vx(&mut self, x: u16)
        requires
            x < 16,
        ensures
            final(self)@ == (State { st: old(self)@.v[x as int], ..old(self)@ }),
    {
        proof {
            use_type_invariant(&*self);
        }
        self.st = self.v_reg[x as usize];
    }

    /// `Fx1E`: adds `Vx` to `I`, modulo 65536.
    pub(crate) fn instruction_plus_eq_vx(&mut self, x: u16)
        requires
            x < 16,
        ensures
            final(self)@ == old(self)@.op_add_i(x as int),
    {
        proof {
            use_type_invariant(&*self);
        }
        let vx: u16 = self.v_reg[x as usize] as u16;
        self.i_reg = self.i_reg.wrapping_add(vx);
    }

    /// `Fx29`: `I` becomes the address of the glyph for the digit in `Vx`.
    pub(crate) fn i_eq_font(&mut self, x: u16)
        requires
            x < 16,
        ensures
            final(self)@ == old(self)@.op_font(x as int),
    {
        proof {
            use_type_invariant(&*self);
        }
        let c: u16 = self.v_reg[x as usize] as u16;
        self.i_reg = c * 5;
    }

    /// `Fx33`: writes the decimal digits of `Vx` to memory at `I`: hundreds,
    /// tens, ones.
    pub(crate) fn bcd(&mut self, x: u16) -> (res: Result<(), Fault>)
        requires
            x < 16,
        ensures
            old(self)@.op_bcd(x as int) == outcome(res, final(self)@),
            res is Err ==> final(self)@ == old(self)@,
    {
        proof {
            use_type_invariant(&*self);
        }
        let i: usize = self.i_reg as usize;
        if i < START_ADDR as usize || i + 3 > RAM_SIZE {
            return Err(Fault::BadWrite { addr: self.i_reg, len: 3 });
        }
        let vx: u8 = self.v_reg[x as usize];
        let hundreds: u8 = vx / 100;
        let tens: u8 = (vx / 10) % 10;
        let ones: u8 = vx % 10;
        self.ram[i] = hundreds;
        self.ram[i + 1] = tens;
        self.ram[i + 2] = ones;
        Ok(())
    }

    /// `Fx55`: writes `V0` to `Vx` to memory at `I`.
    pub(crate) fn store_v0_vx(&mut self, x: u16) -> (res: Result<(), Fault>)
        requires
            x < 16,
        ensures
            old(self)@.op_store(x as int) == outcome(res, final(self)@),
            res is Err ==> final(self)@ == old(self)@,
    {
        let ghost before = self@;
        let last: usize = x as usize;
        let i: usize = self.i_reg as usize;
        if i < START_ADDR as usize || i + last + 1 > RAM_SIZE {
            return Err(Fault::BadWrite { addr: self.i_reg, len: x + 1 });
        }
        let mut idx: usize = 0;
        while idx <= last
            invariant
                last < 16,
                idx <= last + 1,
                i == before.i,
                i + last + 1 <= RAM_SIZE,
                self@ == (State { ram: self@.ram, ..before }),
                self@.ram.len() == RAM_SIZE,
                forall|a: int| i <= a < i + idx ==> self@.ram[a] == before.v[a - i],
                forall|a: int|
                    0 <= a < RAM_SIZE && !(i <= a < i + idx) ==> self@.ram[a] == before.ram[a],
            decreases last + 1 - idx,
        {
            proof {
                use_type_invariant(&*self);
            }
            self.ram[i + idx] = self.v_reg[idx];
            idx += 1;
        }
        proof {
            assert(self@.ram =~= before.op_store(x as int)->Ok_0.ram);
        }
        Ok(())
    }

    /// `Fx65`: reads `V0` to `Vx` from memory at `I`.
    pub(crate) fn ld_v0_vx(&mut self, x: u16) -> (res: Result<(), Fault>)
        requires
            x < 16,
        ensures
            old(self)@.op_load(x as int) == outcome(res, final(self)@),
            res is Err ==> final(self)@ == old(self)@,
    {
        let ghost before = self@;
        let last: usize = x as usize;
        let i: usize = self.i_reg as usize;
        if i + last + 1 > RAM_SIZE {
            return Err(Fault::BadRead { addr: self.i_reg, len: x + 1 });
        }
        let mut idx: usize = 0;
        while idx <= last
            invariant
                last < 16,
                idx <= last + 1,
                i == before.i,
                i + last + 1 <= RAM_SIZE,
                self@ == (State { v: self@.v, ..before }),
                self@.v.len() == 16,
                before.ram.len() == RAM_SIZE,
                forall|k: int| 0 <= k < idx ==> self@.v[k] == before.ram[i + k],
                forall|k: int| idx <= k < 16 ==> self@.v[k] == before.v[k],
            decreases last + 1 - idx,
        {
            proof {
                use_type_invariant(&*self);
            }
            self.v_reg[idx] = self.ram[i + idx];
            idx += 1;
        }
        proof {
            assert(self@.v =~= before.op_load(x as int)->Ok_0.v);
        }
        Ok(())
    }
}

} // verus!
