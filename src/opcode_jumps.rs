use vstd::prelude::*;
use crate::environment::{prev_addr, pushed, with_sp};
use crate::machine::{next_addr, word_at, Machine};
use crate::opcode::{keeps_latches, Action, Opcode};
use crate::registers::{Flag, Reg16, Reg8, Registers};
use crate::state::{offset_addr, State};

verus! {

/// DJNZ d.
pub fn build_djnz() -> (o: Opcode)
    ensures
        o.action == Action::Djnz,
{
    Opcode::new(Action::Djnz)
}

/// JR d.
pub fn build_jr_unconditional() -> (o: Opcode)
    ensures
        o.action == Action::JrUnconditional,
{
    Opcode::new(Action::JrUnconditional)
}

/// JR cc, d: jumps when `flag` has `value`.
pub fn build_jr_eq(flag: Flag, value: bool) -> (o: Opcode)
    ensures
        o.action == Action::JrEq(flag, value),
{
    Opcode::new(Action::JrEq(flag, value))
}

/// JP nn.
pub fn build_jp_unconditional() -> (o: Opcode)
    ensures
        o.action == Action::JpUnconditional,
{
    Opcode::new(Action::JpUnconditional)
}

/// JP cc, nn.
pub fn build_jp_eq(flag: Flag, value: bool) -> (o: Opcode)
    ensures
        o.action == Action::JpEq(flag, value),
{
    Opcode::new(Action::JpEq(flag, value))
}

/// JP (HL).
pub fn build_jp_hl() -> (o: Opcode)
    ensures
        o.action == Action::JpHl,
{
    Opcode::new(Action::JpHl)
}

/// CALL nn.
pub fn build_call() -> (o: Opcode)
    ensures
        o.action == Action::Call,
{
    Opcode::new(Action::Call)
}

/// CALL cc, nn.
pub fn build_call_eq(flag: Flag, value: bool) -> (o: Opcode)
    ensures
        o.action == Action::CallEq(flag, value),
{
    Opcode::new(Action::CallEq(flag, value))
}

/// RST p.
pub fn build_rst(d: u8) -> (o: Opcode)
    ensures
        o.action == Action::Rst(d),
{
    Opcode::new(Action::Rst(d))
}

/// RET.
pub fn build_ret() -> (o: Opcode)
    ensures
        o.action == Action::Ret,
{
    Opcode::new(Action::Ret)
}

/// RETI.
pub fn build_reti() -> (o: Opcode)
    ensures
        o.action == Action::Reti,
{
    Opcode::new(Action::Reti)
}

/// RETN.
pub fn build_retn() -> (o: Opcode)
    ensures
        o.action == Action::Retn,
{
    Opcode::new(Action::Retn)
}

/// RET cc.
pub fn build_ret_eq(flag: Flag, value: bool) -> (o: Opcode)
    ensures
        o.action == Action::RetEq(flag, value),
{
    Opcode::new(Action::RetEq(flag, value))
}

/// Whether the jump condition of a conditional instruction holds.
pub open spec fn condition(state: State, cond: Option<(Flag, bool)>) -> bool {
    match cond {
        Some((flag, value)) => state.reg.flag(flag) == value,
        None => true,
    }
}

/// Whether a conditional instruction marks its branch taken.
pub open spec fn marks(s: State, t: State, cond: Option<(Flag, bool)>) -> bool {
    t.branch_taken == (s.branch_taken || (cond.is_some() && condition(s, cond)))
}

/// A relative jump: the displacement at PC is added to the address after it when the
/// condition holds; nothing else changes.
pub open spec fn jr_post(cond: Option<(Flag, bool)>, s: State, m: Map<u16, u8>, t: State, n: Map<u16, u8>) -> bool {
    &&& t.reg == (Registers {
        pc: if condition(s, cond) {
            offset_addr(next_addr(s.reg.pc), m[s.reg.pc] as i8)
        } else {
            next_addr(s.reg.pc)
        },
        ..s.reg
    })
    &&& marks(s, t, cond)
    &&& n == m
}

/// DJNZ: B decremented, then a relative jump while B is not 0; flags kept.
pub open spec fn djnz_post(s: State, m: Map<u16, u8>, t: State, n: Map<u16, u8>) -> bool {
    let b = ((s.reg.reg8(Reg8::B) + 255) % 256) as u8;
    &&& t.reg.data@ =~= s.reg.data@.update(2, b)
    &&& t.reg == (Registers {
        data: t.reg.data,
        pc: if b != 0 {
            offset_addr(next_addr(s.reg.pc), m[s.reg.pc] as i8)
        } else {
            next_addr(s.reg.pc)
        },
        ..s.reg
    })
    &&& t.branch_taken == (s.branch_taken || b != 0)
    &&& n == m
}

/// An absolute jump to the word at PC when the condition holds, past it otherwise.
pub open spec fn jp_post(cond: Option<(Flag, bool)>, s: State, m: Map<u16, u8>, t: State, n: Map<u16, u8>) -> bool {
    &&& t.reg == (Registers {
        pc: if condition(s, cond) {
            word_at(m, s.reg.pc)
        } else {
            next_addr(next_addr(s.reg.pc))
        },
        ..s.reg
    })
    &&& marks(s, t, cond)
    &&& n == m
}

/// A call of the word at PC when the condition holds: the address after the operand
/// pushed, SP lowered by two.
pub open spec fn call_post(cond: Option<(Flag, bool)>, s: State, m: Map<u16, u8>, t: State, n: Map<u16, u8>) -> bool {
    let sp = s.reg.reg16(Reg16::SP);
    let after = next_addr(next_addr(s.reg.pc));
    &&& condition(s, cond) ==> n == pushed(m, sp, after) && t.reg.data@ == with_sp(s.reg.data@, prev_addr(prev_addr(sp)))
        && t.reg == (Registers { data: t.reg.data, pc: word_at(m, s.reg.pc), ..s.reg })
    &&& !condition(s, cond) ==> n == m && t.reg == (Registers { pc: after, ..s.reg })
    &&& marks(s, t, cond)
}

/// RST p: the PC pushed, then PC = p.
pub open spec fn rst_post(d: u8, s: State, m: Map<u16, u8>, t: State, n: Map<u16, u8>) -> bool {
    let sp = s.reg.reg16(Reg16::SP);
    &&& n == pushed(m, sp, s.reg.pc)
    &&& t.reg.data@ == with_sp(s.reg.data@, prev_addr(prev_addr(sp)))
    &&& t.reg == (Registers { data: t.reg.data, pc: d as u16, ..s.reg })
    &&& t.branch_taken == s.branch_taken
}

/// A return when the condition holds: PC popped, SP raised by two, and for RETN
/// (`nmi_end`) IFF1 restored from IFF2.
pub open spec fn ret_post(cond: Option<(Flag, bool)>, nmi_end: bool, s: State, m: Map<u16, u8>, t: State, n: Map<u16, u8>) -> bool {
    let sp = s.reg.reg16(Reg16::SP);
    &&& condition(s, cond) ==> t.reg.data@ == with_sp(s.reg.data@, next_addr(next_addr(sp))) && t.reg == (Registers {
        data: t.reg.data,
        pc: word_at(m, sp),
        iff1: if nmi_end { s.reg.iff2 } else { s.reg.iff1 },
        ..s.reg
    })
    &&& !condition(s, cond) ==> t.reg == s.reg
    &&& marks(s, t, cond)
    &&& n == m
}

/// JR d or JR cc, d.
pub fn exec_jr<M: Machine>(state: &mut State, sys: &mut M, cond: Option<(Flag, bool)>)
    ensures
        keeps_latches(*old(state), *final(state)),
        jr_post(cond, *old(state), old(sys).memory(), *final(state), final(sys).memory()),
        final(sys).port_log() == old(sys).port_log(),
{
    let offset = state.advance_pc(sys);
    let taken = match cond {
        Some((flag, value)) => state.reg.get_flag(flag) == value,
        None => true,
    };
    if taken {
        if cond.is_some() {
            state.set_branch_taken();
        }
        relative_jump(state, offset);
    }
}

/// DJNZ d.
pub fn exec_djnz<M: Machine>(state: &mut State, sys: &mut M)
    ensures
        keeps_latches(*old(state), *final(state)),
        djnz_post(*old(state), old(sys).memory(), *final(state), final(sys).memory()),
        final(sys).port_log() == old(sys).port_log(),
{
    let offset = state.advance_pc(sys);
    let b = state.reg.inc_dec8(Reg8::B, false);
    if b != 0 {
        state.set_branch_taken();
        relative_jump(state, offset);
    }
}

fn relative_jump(state: &mut State, offset: u8)
    ensures
        *final(state) == (State {
            reg: Registers { pc: offset_addr(old(state).reg.pc, offset as i8), ..old(state).reg },
            ..*old(state)
        }),
{
    let pc = state.reg.pc();
    let d = offset as i8 as i32;
    let n = ((pc as i32 + d + 0x10000) % 0x10000) as u16;
    state.reg.set_pc(n);
}

/// JP nn or JP cc, nn.
pub fn exec_jp<M: Machine>(state: &mut State, sys: &mut M, cond: Option<(Flag, bool)>)
    ensures
        keeps_latches(*old(state), *final(state)),
        jp_post(cond, *old(state), old(sys).memory(), *final(state), final(sys).memory()),
        final(sys).port_log() == old(sys).port_log(),
{
    let address = state.advance_immediate16(sys);
    let taken = match cond {
        Some((flag, value)) => state.reg.get_flag(flag) == value,
        None => true,
    };
    if taken {
        if cond.is_some() {
            state.set_branch_taken();
        }
        state.reg.set_pc(address);
    }
}

/// JP (HL): PC takes the value of the active index, with no displacement.
pub fn exec_jp_hl(state: &mut State)
    ensures
        keeps_latches(*old(state), *final(state)),
        final(state).reg == (Registers { pc: old(state).reg.reg16(old(state).index), ..old(state).reg }),
        final(state).branch_taken == old(state).branch_taken,
{
    let address = state.index_value();
    state.reg.set_pc(address);
}

/// CALL nn or CALL cc, nn.
pub fn exec_call<M: Machine>(state: &mut State, sys: &mut M, cond: Option<(Flag, bool)>)
    ensures
        keeps_latches(*old(state), *final(state)),
        call_post(cond, *old(state), old(sys).memory(), *final(state), final(sys).memory()),
        final(sys).port_log() == old(sys).port_log(),
{
    let address = state.advance_immediate16(sys);
    let taken = match cond {
        Some((flag, value)) => state.reg.get_flag(flag) == value,
        None => true,
    };
    if taken {
        if cond.is_some() {
            state.set_branch_taken();
        }
        state.subroutine_call(sys, address);
    }
}

/// RST p: calls address `p`.
pub fn exec_rst<M: Machine>(state: &mut State, sys: &mut M, d: u8)
    ensures
        keeps_latches(*old(state), *final(state)),
        rst_post(d, *old(state), old(sys).memory(), *final(state), final(sys).memory()),
        final(sys).port_log() == old(sys).port_log(),
{
    state.subroutine_call(sys, d as u16);
}

/// RET, RETI, RET cc and RETN (`nmi_end`, which also restores IFF1 from IFF2).
pub fn exec_ret<M: Machine>(state: &mut State, sys: &mut M, cond: Option<(Flag, bool)>, nmi_end: bool)
    ensures
        keeps_latches(*old(state), *final(state)),
        ret_post(cond, nmi_end, *old(state), old(sys).memory(), *final(state), final(sys).memory()),
        final(sys).port_log() == old(sys).port_log(),
{
    let taken = match cond {
        Some((flag, value)) => state.reg.get_flag(flag) == value,
        None => true,
    };
    if taken {
        if cond.is_some() {
            state.set_branch_taken();
        }
        state.subroutine_return(sys);
        if nmi_end {
            state.reg.end_nmi();
        }
    }
}

} // verus!
