use vstd::prelude::*;
use crate::machine::{next_addr, Machine, PortAccess};
use crate::opcode::{keeps_latches, Action, Opcode};
use crate::registers::{
    bits_in_flags, block_flags, lemma_put_keeps_z, lemma_sz53_z, parity_even, put_bits, sz53, with_parity, Flag, Reg16,
    Reg8, Registers,
};
use crate::state::State;

verus! {

/// OUT (C), r.
pub fn build_out_c_r(r: Reg8) -> (o: Opcode)
    ensures
        o.action == Action::OutCR(r),
{
    Opcode::new(Action::OutCR(r))
}

/// OUT (C), 0.
pub fn build_out_c_0() -> (o: Opcode)
    ensures
        o.action == Action::OutC0,
{
    Opcode::new(Action::OutC0)
}

/// OUT (n), A.
pub fn build_out_n_a() -> (o: Opcode)
    ensures
        o.action == Action::OutNA,
{
    Opcode::new(Action::OutNA)
}

/// IN r, (C).
pub fn build_in_r_c(r: Reg8) -> (o: Opcode)
    ensures
        o.action == Action::InRC(r),
{
    Opcode::new(Action::InRC(r))
}

/// IN (C).
pub fn build_in_0_c() -> (o: Opcode)
    ensures
        o.action == Action::In0C,
{
    Opcode::new(Action::In0C)
}

/// IN A, (n).
pub fn build_in_a_n() -> (o: Opcode)
    ensures
        o.action == Action::InAN,
{
    Opcode::new(Action::InAN)
}

/// INI, IND, INIR or INDR.
pub fn build_in_block(inc: bool, repeat: bool) -> (o: Opcode)
    ensures
        o.action == Action::InBlock(inc, repeat),
{
    Opcode::new(Action::InBlock(inc, repeat))
}

/// OUTI, OUTD, OTIR or OTDR.
pub fn build_out_block(inc: bool, repeat: bool) -> (o: Opcode)
    ensures
        o.action == Action::OutBlock(inc, repeat),
{
    Opcode::new(Action::OutBlock(inc, repeat))
}

/// The byte of the last port access in `l`.
pub open spec fn last_value(l: Seq<PortAccess>) -> u8 {
    match l.last() {
        PortAccess::In(_, v) => v,
        PortAccess::Out(_, v) => v,
    }
}

/// OUT (C), r (`Some(r)`) or OUT (C), 0: one write of the byte to port BC, nothing else.
pub open spec fn out_c_post(r: Option<Reg8>, s: State, m: Map<u16, u8>, l: Seq<PortAccess>, t: State, n: Map<u16, u8>, l2: Seq<PortAccess>) -> bool {
    let v = match r {
        Some(x) => s.reg.reg8(x),
        None => 0u8,
    };
    t == s && n == m && l2 == l.push(PortAccess::Out(s.reg.reg16(Reg16::BC), v))
}

/// OUT (n), A: one write of A to port A * 256 + n, n read at PC.
pub open spec fn out_n_a_post(s: State, m: Map<u16, u8>, l: Seq<PortAccess>, t: State, n: Map<u16, u8>, l2: Seq<PortAccess>) -> bool {
    let a = s.reg.reg8(Reg8::A);
    &&& l2 == l.push(PortAccess::Out((a as int * 256 + m[s.reg.pc] as int) as u16, a))
    &&& t == (State { reg: Registers { pc: next_addr(s.reg.pc), ..s.reg }, ..s })
    &&& n == m
}

/// IN r, (C) (`Some(r)`) or IN (C): one read of port BC; the byte goes to `r`, and S,
/// Z, bits 5 and 3, P come from it with H and N cleared.
pub open spec fn in_c_post(r: Option<Reg8>, s: State, m: Map<u16, u8>, l: Seq<PortAccess>, t: State, n: Map<u16, u8>, l2: Seq<PortAccess>) -> bool {
    let v = last_value(l2);
    let f = bits_in_flags(s.reg.f(), v, s.reg.mode8080);
    &&& l2 == l.push(PortAccess::In(s.reg.reg16(Reg16::BC), v))
    &&& r matches Some(x) ==> t.reg.data@ =~= s.reg.data@.update(x.spec_index(), v).update(1, f)
    &&& r is None ==> t.reg.data@ =~= s.reg.data@.update(1, f)
    &&& s.reg.same_but_data(&t.reg)
    &&& t.branch_taken == s.branch_taken
    &&& n == m
}

/// IN A, (n): one read of port A * 256 + n, n read at PC; the byte goes to A, flags kept.
pub open spec fn in_a_n_post(s: State, m: Map<u16, u8>, l: Seq<PortAccess>, t: State, n: Map<u16, u8>, l2: Seq<PortAccess>) -> bool {
    let v = last_value(l2);
    let a = s.reg.reg8(Reg8::A);
    &&& l2 == l.push(PortAccess::In((a as int * 256 + m[s.reg.pc] as int) as u16, v))
    &&& t.reg.data@ =~= s.reg.data@.update(0, v)
    &&& t.reg == (Registers { data: t.reg.data, pc: next_addr(s.reg.pc), ..s.reg })
    &&& t.branch_taken == s.branch_taken
    &&& n == m
}

/// HL after one step of a block instruction.
pub open spec fn moved(hl: u16, inc: bool) -> u16 {
    ((hl + if inc { 1int } else { 0xffffint }) % 0x10000) as u16
}

/// PC and the branch mark after one step of a repeating block instruction that goes on
/// when `again`.
pub open spec fn block_repeat(s: State, t: State, again: bool) -> bool {
    &&& t.reg.pc == (if again { ((s.reg.pc + 0xfffe) % 0x10000) as u16 } else { s.reg.pc })
    &&& t.branch_taken == (s.branch_taken || again)
}

/// One step of INI, IND, INIR or INDR: B decremented, then one read of port BC whose
/// byte goes to (HL); HL moves; flags of the block I/O rule; the repeating forms go on
/// while B is not 0.
pub open spec fn in_block_post(inc: bool, repeat: bool, s: State, m: Map<u16, u8>, l: Seq<PortAccess>, t: State, n: Map<u16, u8>, l2: Seq<PortAccess>) -> bool {
    let b = ((s.reg.reg8(Reg8::B) + 255) % 256) as u8;
    let c = s.reg.reg8(Reg8::C);
    let v = last_value(l2);
    let hl = s.reg.reg16(Reg16::HL);
    let hl2 = moved(hl, inc);
    let j = if inc { (c + 1) % 256 } else { (c + 255) % 256 };
    let k = (v + j) as u16;
    &&& l2 == l.push(PortAccess::In((b as int * 256 + c as int) as u16, v))
    &&& n == m.insert(hl, v)
    &&& t.reg.data@ =~= s.reg.data@.update(2, b).update(6, (hl2 / 256) as u8).update(7, (hl2 % 256) as u8).update(
        1,
        block_flags(s.reg.f(), v, k, b, s.reg.mode8080),
    )
    &&& t.reg == (Registers { data: t.reg.data, pc: t.reg.pc, ..s.reg })
    &&& block_repeat(s, t, repeat && b != 0)
}

/// One step of OUTI, OUTD, OTIR or OTDR: one write of (HL) to port BC as it was before
/// B is decremented; HL moves; flags of the block I/O rule; the repeating forms go on
/// while B is not 0.
pub open spec fn out_block_post(inc: bool, repeat: bool, s: State, m: Map<u16, u8>, l: Seq<PortAccess>, t: State, n: Map<u16, u8>, l2: Seq<PortAccess>) -> bool {
    let b = ((s.reg.reg8(Reg8::B) + 255) % 256) as u8;
    let hl = s.reg.reg16(Reg16::HL);
    let v = m[hl];
    let hl2 = moved(hl, inc);
    let k = (v + hl2 % 256) as u16;
    &&& l2 == l.push(PortAccess::Out(s.reg.reg16(Reg16::BC), v))
    &&& n == m
    &&& t.reg.data@ =~= s.reg.data@.update(2, b).update(6, (hl2 / 256) as u8).update(7, (hl2 % 256) as u8).update(
        1,
        block_flags(s.reg.f(), v, k, b, s.reg.mode8080),
    )
    &&& t.reg == (Registers { data: t.reg.data, pc: t.reg.pc, ..s.reg })
    &&& block_repeat(s, t, repeat && b != 0)
}

/// Block input counts B through zero: from B = 0 it leaves 0xff and the repeating form
/// goes on; from B = 1 it leaves 0 and stops.
pub proof fn lemma_in_block_wraps(inc: bool, s: State, m: Map<u16, u8>, l: Seq<PortAccess>, t: State, n: Map<u16, u8>, l2: Seq<PortAccess>)
    requires
        in_block_post(inc, true, s, m, l, t, n, l2),
    ensures
        s.reg.reg8(Reg8::B) == 0 ==> t.reg.reg8(Reg8::B) == 0xff && t.reg.pc == ((s.reg.pc + 0xfffe) % 0x10000) as u16
            && t.branch_taken,
        s.reg.reg8(Reg8::B) == 1 ==> t.reg.reg8(Reg8::B) == 0 && t.reg.pc == s.reg.pc,
{
}

/// After a block I/O step Z tells whether the counter reached 0.
pub proof fn lemma_block_flags_z(f: u8, value: u8, k: u16, counter: u8, mode8080: bool)
    ensures
        (block_flags(f, value, k, counter, mode8080) & 64 != 0) == (counter == 0),
{
    lemma_sz53_z(f, counter, mode8080);
    assert(16u8 & 64u8 == 0 && 4u8 & 64u8 == 0 && 2u8 & 64u8 == 0 && 1u8 & 64u8 == 0) by (bit_vector);
    let f1 = put_bits(sz53(f, counter, mode8080), 16, k > 255);
    lemma_put_keeps_z(sz53(f, counter, mode8080), 16, k > 255);
    let f2 = if mode8080 {
        f1
    } else {
        put_bits(with_parity(f1, ((k as u8) & 7) ^ counter), 2, value & 0x80 != 0)
    };
    if !mode8080 {
        lemma_put_keeps_z(f1, 4, parity_even(((k as u8) & 7) ^ counter));
        lemma_put_keeps_z(with_parity(f1, ((k as u8) & 7) ^ counter), 2, value & 0x80 != 0);
    }
    lemma_put_keeps_z(f2, 1, k > 255);
}

/// A block input step sets Z when B reaches 0.
pub proof fn lemma_in_block_z(inc: bool, repeat: bool, s: State, m: Map<u16, u8>, l: Seq<PortAccess>, t: State, n: Map<u16, u8>, l2: Seq<PortAccess>)
    requires
        in_block_post(inc, repeat, s, m, l, t, n, l2),
    ensures
        t.reg.flag(Flag::Z) == (t.reg.reg8(Reg8::B) == 0),
{
    let b = ((s.reg.reg8(Reg8::B) + 255) % 256) as u8;
    let c = s.reg.reg8(Reg8::C);
    let v = last_value(l2);
    let j = if inc { (c + 1) % 256 } else { (c + 255) % 256 };
    lemma_block_flags_z(s.reg.f(), v, (v + j) as u16, b, s.reg.mode8080);
}

/// A block output step sets Z when B reaches 0.
pub proof fn lemma_out_block_z(inc: bool, repeat: bool, s: State, m: Map<u16, u8>, l: Seq<PortAccess>, t: State, n: Map<u16, u8>, l2: Seq<PortAccess>)
    requires
        out_block_post(inc, repeat, s, m, l, t, n, l2),
    ensures
        t.reg.flag(Flag::Z) == (t.reg.reg8(Reg8::B) == 0),
{
    let b = ((s.reg.reg8(Reg8::B) + 255) % 256) as u8;
    let hl = s.reg.reg16(Reg16::HL);
    let v = m[hl];
    let hl2 = moved(hl, inc);
    lemma_block_flags_z(s.reg.f(), v, (v + hl2 % 256) as u16, b, s.reg.mode8080);
}

/// Block output counts B through zero: from B = 0 it leaves 0xff and the repeating form
/// goes on; from B = 1 it leaves 0 and stops.
pub proof fn lemma_out_block_wraps(inc: bool, s: State, m: Map<u16, u8>, l: Seq<PortAccess>, t: State, n: Map<u16, u8>, l2: Seq<PortAccess>)
    requires
        out_block_post(inc, true, s, m, l, t, n, l2),
    ensures
        s.reg.reg8(Reg8::B) == 0 ==> t.reg.reg8(Reg8::B) == 0xff && t.reg.pc == ((s.reg.pc + 0xfffe) % 0x10000) as u16
            && t.branch_taken,
        s.reg.reg8(Reg8::B) == 1 ==> t.reg.reg8(Reg8::B) == 0 && t.reg.pc == s.reg.pc,
{
}

/// OUT (C), r (`Some(r)`) or OUT (C), 0 (`None`): BC is the port address.
pub fn exec_out_c<M: Machine>(state: &mut State, sys: &mut M, r: Option<Reg8>)
    requires
        r != Some(Reg8::_HL),
    ensures
        out_c_post(r, *old(state), old(sys).memory(), old(sys).port_log(), *final(state), final(sys).memory(), final(sys).port_log()),
{
    let address = state.reg.get16(Reg16::BC);
    let value = match r {
        Some(r) => state.reg.get8(r),
        None => 0,
    };
    state.port_out(sys, address, value);
}

/// OUT (n), A: A is the high byte of the port address, n the low byte.
pub fn exec_out_n_a<M: Machine>(state: &mut State, sys: &mut M)
    ensures
        out_n_a_post(*old(state), old(sys).memory(), old(sys).port_log(), *final(state), final(sys).memory(), final(sys).port_log()),
{
    let a = state.reg.a();
    let n = state.advance_pc(sys);
    let address = (a as u16) * 256 + n as u16;
    state.port_out(sys, address, a);
}

/// IN r, (C) (`Some(r)`) or IN (C) (`None`): flags from the byte read.
pub fn exec_in_c<M: Machine>(state: &mut State, sys: &mut M, r: Option<Reg8>)
    requires
        r != Some(Reg8::_HL),
        r != Some(Reg8::F),
    ensures
        keeps_latches(*old(state), *final(state)),
        in_c_post(r, *old(state), old(sys).memory(), old(sys).port_log(), *final(state), final(sys).memory(), final(sys).port_log()),
{
    let address = state.reg.get16(Reg16::BC);
    let value = state.port_in(sys, address);
    match r {
        Some(r) => state.reg.set8(r, value),
        None => {},
    }
    state.reg.update_bits_in_flags(value);
}

/// IN A, (n): flags untouched.
pub fn exec_in_a_n<M: Machine>(state: &mut State, sys: &mut M)
    ensures
        keeps_latches(*old(state), *final(state)),
        in_a_n_post(*old(state), old(sys).memory(), old(sys).port_log(), *final(state), final(sys).memory(), final(sys).port_log()),
{
    let a = state.reg.a();
    let n = state.advance_pc(sys);
    let address = (a as u16) * 256 + n as u16;
    let value = state.port_in(sys, address);
    state.reg.set_a(value);
}

/// One step of INI, IND, INIR or INDR.
pub fn exec_in_block<M: Machine>(state: &mut State, sys: &mut M, inc: bool, repeat: bool)
    ensures
        keeps_latches(*old(state), *final(state)),
        in_block_post(inc, repeat, *old(state), old(sys).memory(), old(sys).port_log(), *final(state), final(sys).memory(), final(sys).port_log()),
{
    let b = state.reg.inc_dec8(Reg8::B, false);
    let address = state.reg.get16(Reg16::BC);
    let value = state.port_in(sys, address);
    let hl = state.reg.get16(Reg16::HL);
    sys.poke(hl, value);
    state.reg.inc_dec16(Reg16::HL, inc);
    let c = state.reg.get8(Reg8::C);
    let j: u16 = if inc { (c as u16 + 1) % 256 } else { (c as u16 + 255) % 256 };
    let k = value as u16 + j;
    state.reg.update_block_flags(value, k, b);
    if repeat && b != 0 {
        state.set_branch_taken();
        let pc = state.reg.pc().wrapping_sub(2);
        state.reg.set_pc(pc);
    }
}

/// One step of OUTI, OUTD, OTIR or OTDR.
pub fn exec_out_block<M: Machine>(state: &mut State, sys: &mut M, inc: bool, repeat: bool)
    ensures
        keeps_latches(*old(state), *final(state)),
        out_block_post(inc, repeat, *old(state), old(sys).memory(), old(sys).port_log(), *final(state), final(sys).memory(), final(sys).port_log()),
{
    let address = state.reg.get16(Reg16::BC);
    let b = state.reg.inc_dec8(Reg8::B, false);
    let hl = state.reg.get16(Reg16::HL);
    let value = sys.peek(hl);
    state.port_out(sys, address, value);
    state.reg.inc_dec16(Reg16::HL, inc);
    let l = state.reg.get8(Reg8::L);
    let k = value as u16 + l as u16;
    state.reg.update_block_flags(value, k, b);
    if repeat && b != 0 {
        state.set_branch_taken();
        let pc = state.reg.pc().wrapping_sub(2);
        state.reg.set_pc(pc);
    }
}

} // verus!
