use vstd::prelude::*;
use crate::machine::{next_addr, peek16, word_at, Machine, PortAccess};
use crate::registers::{Reg16, Reg8, Registers};
use crate::state::{translate, State};

verus! {

/// `a - 1`, wrapping.
pub open spec fn prev_addr(a: u16) -> u16 {
    ((a as int + 0xffff) % 0x10000) as u16
}

/// Memory after pushing `value` with stack pointer `sp`: high byte at SP-1, then low
/// byte at SP-2.
pub open spec fn pushed(m: Map<u16, u8>, sp: u16, value: u16) -> Map<u16, u8> {
    m.insert(prev_addr(sp), (value / 256) as u8).insert(prev_addr(prev_addr(sp)), (value % 256) as u8)
}

/// The register file bytes `d` with SP set to `v`.
pub open spec fn with_sp(d: Seq<u8>, v: u16) -> Seq<u8> {
    d.update(14, (v / 256) as u8).update(15, (v % 256) as u8)
}

/// The operations that one instruction performs on the state and the machine: fetching
/// from PC, the stack, and register access remapped by the active index.
impl State {
    /// The register that `r` names under the active index.
    pub open spec fn spec_translate(&self, r: Reg8) -> Reg8 {
        translate(self.index, r)
    }

    /// Value that `reg8_ext` reads.
    pub open spec fn spec_reg8_ext(&self, mem: Map<u16, u8>, r: Reg8) -> u8 {
        if r == Reg8::_HL {
            mem[self.spec_index_address()]
        } else {
            self.reg.reg8(translate(self.index, r))
        }
    }

    /// The 16 bit register that `rr` names under the active index.
    pub open spec fn spec_translate16(&self, rr: Reg16) -> Reg16 {
        if rr == Reg16::HL {
            self.index
        } else {
            rr
        }
    }

    /// Returns the byte at PC.
    pub fn peek_pc<M: Machine>(&self, sys: &M) -> (r: u8)
        ensures
            r == sys.memory()[self.reg.pc],
    {
        sys.peek(self.reg.pc())
    }

    /// Returns the byte at PC and moves PC past it.
    pub fn advance_pc<M: Machine>(&mut self, sys: &M) -> (r: u8)
        ensures
            r == sys.memory()[old(self).reg.pc],
            *final(self) == (State { reg: Registers { pc: next_addr(old(self).reg.pc), ..old(self).reg }, ..*old(self) }),
    {
        let pc = self.reg.pc();
        let value = sys.peek(pc);
        self.reg.set_pc(pc.wrapping_add(1));
        value
    }

    /// Returns the little endian word at PC.
    pub fn peek16_pc<M: Machine>(&self, sys: &M) -> (r: u16)
        ensures
            r == word_at(sys.memory(), self.reg.pc),
    {
        peek16(sys, self.reg.pc())
    }

    /// Returns the little endian word at PC and moves PC past it.
    pub fn advance_immediate16<M: Machine>(&mut self, sys: &M) -> (r: u16)
        ensures
            r == word_at(sys.memory(), old(self).reg.pc),
            *final(self) == (State {
                reg: Registers { pc: next_addr(next_addr(old(self).reg.pc)), ..old(self).reg },
                ..*old(self)
            }),
    {
        let lo = self.advance_pc(sys);
        let hi = self.advance_pc(sys);
        lo as u16 + (hi as u16) * 256
    }

    /// Pushes `value` on the stack: high byte at SP-1, low byte at SP-2, then SP is
    /// lowered by two.
    pub fn push<M: Machine>(&mut self, sys: &mut M, value: u16)
        ensures
            final(sys).port_log() == old(sys).port_log(),
            final(sys).memory() == pushed(old(sys).memory(), old(self).reg.reg16(Reg16::SP), value),
            final(self).reg.reg16(Reg16::SP) == prev_addr(prev_addr(old(self).reg.reg16(Reg16::SP))),
            final(self).reg.data@ == with_sp(old(self).reg.data@, prev_addr(prev_addr(old(self).reg.reg16(Reg16::SP)))),
            old(self).reg.same_but_data(&final(self).reg),
            old(self).same_but_reg(&*final(self)),
    {
        let mut sp = self.reg.get16(Reg16::SP);
        let h = (value / 256) as u8;
        let l = (value % 256) as u8;
        sp = sp.wrapping_sub(1);
        sys.poke(sp, h);
        sp = sp.wrapping_sub(1);
        sys.poke(sp, l);
        self.reg.set16(Reg16::SP, sp);
    }

    /// Pops the little endian word at SP, then raises SP by two.
    pub fn pop<M: Machine>(&mut self, sys: &M) -> (r: u16)
        ensures
            r == word_at(sys.memory(), old(self).reg.reg16(Reg16::SP)),
            final(self).reg.reg16(Reg16::SP) == next_addr(next_addr(old(self).reg.reg16(Reg16::SP))),
            final(self).reg.data@ == with_sp(old(self).reg.data@, next_addr(next_addr(old(self).reg.reg16(Reg16::SP)))),
            old(self).reg.same_but_data(&final(self).reg),
            old(self).same_but_reg(&*final(self)),
    {
        let mut sp = self.reg.get16(Reg16::SP);
        let l = sys.peek(sp);
        sp = sp.wrapping_add(1);
        let h = sys.peek(sp);
        sp = sp.wrapping_add(1);
        self.reg.set16(Reg16::SP, sp);
        l as u16 + (h as u16) * 256
    }

    /// Pushes PC and jumps to `address`.
    pub fn subroutine_call<M: Machine>(&mut self, sys: &mut M, address: u16)
        ensures
            final(sys).port_log() == old(sys).port_log(),
            final(sys).memory() == pushed(old(sys).memory(), old(self).reg.reg16(Reg16::SP), old(self).reg.pc),
            final(self).reg.reg16(Reg16::SP) == prev_addr(prev_addr(old(self).reg.reg16(Reg16::SP))),
            final(self).reg.pc == address,
            final(self).reg.data@ == with_sp(old(self).reg.data@, prev_addr(prev_addr(old(self).reg.reg16(Reg16::SP)))),
            final(self).reg == (Registers { data: final(self).reg.data, pc: address, ..old(self).reg }),
            old(self).same_but_reg(&*final(self)),
    {
        let pc = self.reg.pc();
        self.push(sys, pc);
        self.reg.set_pc(address);
    }

    /// Pops PC from the stack.
    pub fn subroutine_return<M: Machine>(&mut self, sys: &M)
        ensures
            final(self).reg.pc == word_at(sys.memory(), old(self).reg.reg16(Reg16::SP)),
            final(self).reg.reg16(Reg16::SP) == next_addr(next_addr(old(self).reg.reg16(Reg16::SP))),
            final(self).reg.data@ == with_sp(old(self).reg.data@, next_addr(next_addr(old(self).reg.reg16(Reg16::SP)))),
            final(self).reg == (Registers { data: final(self).reg.data, pc: final(self).reg.pc, ..old(self).reg }),
            old(self).same_but_reg(&*final(self)),
    {
        let pc = self.pop(sys);
        self.reg.set_pc(pc);
    }

    /// Makes `index` the active index register.
    pub fn set_index(&mut self, index: Reg16)
        ensures
            *final(self) == (State { index: index, ..*old(self) }),
    {
        self.index = index;
    }

    /// Makes HL the active index register again.
    pub fn clear_index(&mut self)
        ensures
            *final(self) == (State { index: Reg16::HL, ..*old(self) }),
    {
        self.index = Reg16::HL;
    }

    /// Clears the branch taken mark.
    pub fn clear_branch_taken(&mut self)
        ensures
            *final(self) == (State { branch_taken: false, ..*old(self) }),
    {
        self.branch_taken = false;
    }

    /// Clears the latch that EI sets.
    pub fn clear_int_just_enabled(&mut self)
        ensures
            *final(self) == (State { int_just_enabled: false, ..*old(self) }),
    {
        self.int_just_enabled = false;
    }

    /// Marks the current conditional instruction as having taken its branch.
    pub fn set_branch_taken(&mut self)
        ensures
            *final(self) == (State { branch_taken: true, ..*old(self) }),
    {
        self.branch_taken = true;
    }

    /// Whether IX or IY is the active index.
    pub fn is_alt_index(&self) -> (r: bool)
        ensures
            r == (self.index != Reg16::HL),
    {
        self.index != Reg16::HL
    }

    /// Reads the displacement byte at PC, as a signed number, and moves PC past it.
    pub fn load_displacement<M: Machine>(&mut self, sys: &M)
        ensures
            *final(self) == (State {
                reg: Registers { pc: next_addr(old(self).reg.pc), ..old(self).reg },
                displacement: sys.memory()[old(self).reg.pc] as i8,
                ..*old(self)
            }),
    {
        let d = self.advance_pc(sys);
        self.displacement = d as i8;
    }

    /// Value of the active index register.
    pub fn index_value(&self) -> (r: u16)
        ensures
            r == self.reg.reg16(self.index),
    {
        self.reg.get16(self.index)
    }

    /// Address of the pseudo register (HL): HL, IX+d or IY+d.
    pub fn index_address(&self) -> (r: u16)
        ensures
            r == self.spec_index_address(),
    {
        let address = self.reg.get16(self.index);
        if self.is_alt_index() {
            let d = self.displacement as i32;
            ((address as i32 + d + 0x10000) % 0x10000) as u16
        } else {
            address
        }
    }

    fn translate_reg(&self, reg: Reg8) -> (r: Reg8)
        ensures
            r == translate(self.index, reg),
    {
        match self.index {
            Reg16::IX => match reg {
                Reg8::H => Reg8::IXH,
                Reg8::L => Reg8::IXL,
                _ => reg,
            },
            Reg16::IY => match reg {
                Reg8::H => Reg8::IYH,
                Reg8::L => Reg8::IYL,
                _ => reg,
            },
            _ => reg,
        }
    }

    /// Reads an 8 bit register under the active index: H and L become the halves of
    /// IX or IY, and (HL) is memory at the index address.
    pub fn reg8_ext<M: Machine>(&self, sys: &M, reg: Reg8) -> (r: u8)
        ensures
            r == self.spec_reg8_ext(sys.memory(), reg),
    {
        if reg == Reg8::_HL {
            sys.peek(self.index_address())
        } else {
            self.reg.get8(self.translate_reg(reg))
        }
    }

    /// Reads a 16 bit register, with HL replaced by the active index.
    pub fn reg16_ext(&self, rr: Reg16) -> (r: u16)
        ensures
            r == self.reg.reg16(self.spec_translate16(rr)),
    {
        if rr == Reg16::HL {
            self.reg.get16(self.index)
        } else {
            self.reg.get16(rr)
        }
    }

    /// Writes an 8 bit register under the active index, as `reg8_ext` reads it.
    pub fn set_reg<M: Machine>(&mut self, sys: &mut M, reg: Reg8, value: u8)
        ensures
            final(sys).port_log() == old(sys).port_log(),
            reg == Reg8::_HL ==> final(sys).memory() == old(sys).memory().insert(old(self).spec_index_address(), value)
                && *final(self) == *old(self),
            reg != Reg8::_HL ==> final(sys).memory() == old(sys).memory()
                && final(self).reg.data@ == old(self).reg.data@.update(translate(old(self).index, reg).spec_index(), value)
                && old(self).reg.same_but_data(&final(self).reg)
                && old(self).same_but_reg(&*final(self)),
    {
        if reg == Reg8::_HL {
            let a = self.index_address();
            sys.poke(a, value);
        } else {
            let t = self.translate_reg(reg);
            self.reg.set8(t, value);
        }
    }

    /// Writes a 16 bit register, with HL replaced by the active index.
    pub fn set_reg16(&mut self, rr: Reg16, value: u16)
        ensures
            final(self).reg.reg16(old(self).spec_translate16(rr)) == (if old(self).reg.mode8080 && old(self).spec_translate16(rr) == Reg16::AF {
                (value / 256 * 256 + ((((value % 256) as u8) | 2u8) & 0xd7u8) as int) as u16
            } else {
                value
            }),
            final(self).reg.data@ == old(self).reg.data@.update(
                old(self).spec_translate16(rr).spec_index(),
                (value / 256) as u8,
            ).update(
                old(self).spec_translate16(rr).spec_index() + 1,
                if old(self).reg.mode8080 && old(self).spec_translate16(rr) == Reg16::AF {
                    ((value % 256) as u8 | 2) & 0xd7
                } else {
                    (value % 256) as u8
                },
            ),
            old(self).reg.same_but_data(&final(self).reg),
            old(self).same_but_reg(&*final(self)),
    {
        let t = if rr == Reg16::HL { self.index } else { rr };
        self.reg.set16(t, value);
    }

    /// Reads the port at `address`.
    pub fn port_in<M: Machine>(&mut self, sys: &mut M, address: u16) -> (r: u8)
        ensures
            final(sys).port_log() == old(sys).port_log().push(PortAccess::In(address, r)),
            final(sys).memory() == old(sys).memory(),
            *final(self) == *old(self),
    {
        sys.port_in(address)
    }

    /// Writes `value` to the port at `address`.
    pub fn port_out<M: Machine>(&mut self, sys: &mut M, address: u16, value: u8)
        ensures
            final(sys).port_log() == old(sys).port_log().push(PortAccess::Out(address, value)),
            final(sys).memory() == old(sys).memory(),
            *final(self) == *old(self),
    {
        sys.port_out(address, value);
    }
}

} // verus!
