//! The fetch-decode-execute cycle.

use vstd::prelude::*;
use crate::emu::Emu;
use crate::fault::Fault;
use crate::layout::RAM_SIZE;
use crate::state::{op_class, op_n, op_nn, op_x, op_y};
use crate::step::outcome;

verus! {

impl Emu {
    /// Runs one instruction: fetches the word at the program counter, moves
    /// the program counter past it, and executes it. On a fault nothing has
    /// changed, the program counter included.
    ///
    /// The instruction that asks for a random byte gets one that nothing is
    /// known of, so the contract says that the machine did what `State::step`
    /// describes for some byte.
    pub fn tick(&mut self) -> (res: Result<(), Fault>)
        ensures
            exists|rnd: u8| #[trigger] old(self)@.step(rnd) == outcome(res, final(self)@),
            res is Err ==> final(self)@ == old(self)@,
            final(self)@.wf(),
    {
        let ghost before = self@;
        let op: u16 = match self.fetch() {
            Ok(op) => op,
            Err(fault) => {
                proof {
                    use_type_invariant(&*self);
                    assert(before.step(0) == outcome(Err(fault), self@));
                }
                return Err(fault);
            },
        };
        let ghost fetched = self@;
        let res = self.execute(op);
        let ghost rnd = choose|rnd: u8| #[trigger] fetched.execute(op, rnd) == outcome(res, self@);
        if res.is_err() {
            proof {
                use_type_invariant(&*self);
            }
            self.pc -= 2;
        }
        proof {
            use_type_invariant(&*self);
            assert(before.step(rnd) == outcome(res, self@));
        }
        res
    }

    /// Reads the instruction word at the program counter, high byte first,
    /// and moves the program counter past it.
    pub(crate) fn fetch(&mut self) -> (res: Result<u16, Fault>)
        ensures
            old(self)@.can_fetch() ==> res == Ok::<u16, Fault>(old(self)@.word_at_pc())
                && final(self)@ == old(self)@.advance(),
            !old(self)@.can_fetch() ==> res == Err::<u16, Fault>(
                Fault::BadRead { addr: old(self)@.pc, len: 2 },
            ) && final(self)@ == old(self)@,
    {
        proof {
            use_type_invariant(&*self);
        }
        if self.pc as usize + 1 >= RAM_SIZE {
            return Err(Fault::BadRead { addr: self.pc, len: 2 });
        }
        let higher_byte: u16 = self.ram[self.pc as usize] as u16;
        let lower_byte: u16 = self.ram[(self.pc + 1) as usize] as u16;
        let op: u16 = (higher_byte << 8) | lower_byte;
        assert(op == higher_byte * 0x100 + lower_byte) by (bit_vector)
            requires
                op == (higher_byte << 8) | lower_byte,
                higher_byte < 0x100,
                lower_byte < 0x100,
        ;
        self.pc += 2;
        Ok(op)
    }

    /// Decodes the instruction word `op` and carries it out. The program
    /// counter is already past the instruction. A word that is no
    /// instruction is a fault; so is an instruction that cannot be carried
    /// out, and then nothing has changed.
    pub(crate) fn execute(&mut self, op: u16) -> (res: Result<(), Fault>)
        requires
            old(self)@.fetched(),
        ensures
            exists|rnd: u8| #[trigger] old(self)@.execute(op, rnd) == outcome(res, final(self)@),
            res is Err ==> final(self)@ == old(self)@,
    {
        let digit1: u16 = (op & 0xF000) >> 12;
        let digit2: u16 = (op & 0x0F00) >> 8;
        let digit3: u16 = (op & 0x00F0) >> 4;
        let digit4: u16 = op & 0x000F;
        assert(digit1 == op / 0x1000 && digit2 == (op / 0x100) % 0x10 && digit3 == (op / 0x10)
            % 0x10 && digit4 == op % 0x10) by (bit_vector)
            requires
                digit1 == (op & 0xF000) >> 12,
                digit2 == (op & 0x0F00) >> 8,
                digit3 == (op & 0x00F0) >> 4,
                digit4 == op & 0x000F,
        ;
        let ghost before = self@;
        let ghost mut rnd: u8 = 0;
        proof {
            assert(digit1 == op_class(op));
            assert(digit2 == op_x(op));
            assert(digit3 == op_y(op));
            assert(digit4 == op_n(op));
            assert(op_nn(op) == digit3 * 0x10 + digit4);
            assert(op == digit1 * 0x1000 + digit2 * 0x100 + digit3 * 0x10 + digit4);
        }

        let res = match (digit1, digit2, digit3, digit4) {
            // NOP
            (0, 0, 0, 0) => Ok(()),
            // CLS
            (0, 0, 0xE, 0) => {
                self.cls();
                Ok(())
            },
            // RET
            (0, 0, 0xE, 0xE) => self.ret(),
            // JMP NNN
            (1, _, _, _) => {
                self.jmp_nnn(op);
                Ok(())
            },
            // CALL NNN
            (2, _, _, _) => self.call_nnn(op),
            // SKIP V[X] == NN
            (3, _, _, _) => {
                self.skip_vx_eqnn(op, digit2);
                Ok(())
            },
            // SKIP V[X] != NN
            (4, _, _, _) => {
                self.skip_vx_neqenn(op, digit2);
                Ok(())
            },
            // SKIP V[X] == V[Y]
            (5, _, _, 0) => {
                self.skip_vx_eqvy(digit2, digit3);
                Ok(())
            },
            // V[X] = NN
            (6, _, _, _) => {
                self.vx_eqnn(op, digit2);
                Ok(())
            },
            // V[X] += NN
            (7, _, _, _) => {
                self.vx_plusnn(op, digit2);
                Ok(())
            },
            // V[X] = V[Y]
            (8, _, _, 0) => {
                self.vx_eq_vy(digit2, digit3);
                Ok(())
            },
            // V[X] |= V[Y]
            (8, _, _, 1) => {
                self.vx_or_vy(digit2, digit3);
                Ok(())
            },
            // V[X] &= V[Y]
            (8, _, _, 2) => {
                self.vx_and_vy(digit2, digit3);
                Ok(())
            },
            // V[X] ^= V[Y]
            (8, _, _, 3) => {
                self.vx_xor_vy(digit2, digit3);
                Ok(())
            },
            // V[X] += V[Y]
            (8, _, _, 4) => {
                self.vx_plus_eqvy(digit2, digit3);
                Ok(())
            },
            // V[X] -= V[Y]
            (8, _, _, 5) => {
                self.vx_minus_eqvy(digit2, digit3);
                Ok(())
            },
            // V[X] >>= 1
            (8, _, _, 6) => {
                self.vx_bitshiftright(digit2);
                Ok(())
            },
            // V[X] = V[Y] - V[X]
            (8, _, _, 7) => {
                self.vx_eqvy_minusvx(digit2, digit3);
                Ok(())
            },
            // V[X] <<= 1
            (8, _, _, 0xE) => {
                self.vx_bitshiftleft(digit2);
                Ok(())
            },
            // SKIP V[X] != V[Y]
            (9, _, _, 0) => {
                self.skip_eq_vx_neqvy(digit2, digit3);
                Ok(())
            },
            // I = NNN
            (0xA, _, _, _) => {
                self.i_eq_nnn(op);
                Ok(())
            },
            // JMP V[0] + NNN
            (0xB, _, _, _) => {
                self.jmp_vzero_plusnnn(op);
                Ok(())
            },
            // V[X] = rand() & NN
            (0xC, _, _, _) => {
                self.vx_eqrand_and_nnn(op, digit2);
                proof {
                    rnd = choose|r: u8| self@ == #[trigger] before.op_rand(digit2 as int, op_nn(op), r);
                }
                Ok(())
            },
            // DRAW
            (0xD, _, _, _) => self.draw(digit2, digit3, digit4),
            // SKIP KEY PRESS
            (0xE, _, 9, 0xE) => self.skip_keypress(digit2),
            // SKIP KEY RELEASE
            (0xE, _, 0xA, 1) => self.skip_keyrelease(digit2),
            // V[X] = DT
            (0xF, _, 0, 7) => {
                self.vx_eq_delaytimer(digit2);
                Ok(())
            },
            // WAIT KEY
            (0xF, _, 0, 0xA) => {
                self.wait(digit2);
                Ok(())
            },
            // DT = V[X]
            (0xF, _, 1, 5) => {
                self.delaytimer_eq_vx(digit2);
                Ok(())
            },
            // ST = V[X]
            (0xF, _, 1, 8) => {
                self.soundtimer_eq_vx(digit2);
                Ok(())
            },
            // I += V[X]
            (0xF, _, 1, 0xE) => {
                self.instruction_plus_eq_vx(digit2);
                Ok(())
            },
            // I = FONT
            (0xF, _, 2, 9) => {
                self.i_eq_font(digit2);
                Ok(())
            },
            // BCD
            (0xF, _, 3, 3) => self.bcd(digit2),
            // STORE V[0] - V[X]
            (0xF, _, 5, 5) => self.store_v0_vx(digit2),
            // LOAD V[0] - V[X]
            (0xF, _, 6, 5) => self.ld_v0_vx(digit2),
            (_, _, _, _) => Err(Fault::UnknownInstruction { word: op, addr: self.pc - 2 }),
        };
        proof {
            assert(before.execute(op, rnd) == outcome(res, self@));
        }
        res
    }
}

} // verus!
