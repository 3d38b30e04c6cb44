use vstd::prelude::*;
use crate::machine::{next_addr, Machine, PortAccess};
use crate::opcode::{keeps_latches, Action, Opcode};
use crate::operators::{alu_flags, alu_result, operator, operator_cp, wrap16, AluOp};
use crate::registers::{
    arith_flags, lemma_put_keeps_z, lemma_sz53_z, parity_even, put_bits, sz53, undoc_block, with_parity, Flag, Reg16,
    Reg8, Registers,
};
use crate::state::State;

verus! {

/// alu A, r.
pub fn build_operator_a_r(r: Reg8, op: AluOp) -> (o: Opcode)
    ensures
        o.action == Action::AluR(op, r),
{
    Opcode::new(Action::AluR(op, r))
}

/// alu A, n.
pub fn build_operator_a_n(op: AluOp) -> (o: Opcode)
    ensures
        o.action == Action::AluN(op),
{
    Opcode::new(Action::AluN(op))
}

/// CPI, CPD, CPIR or CPDR.
pub fn build_cp_block(inc: bool, repeat: bool) -> (o: Opcode)
    ensures
        o.action == Action::CpBlock(inc, repeat),
{
    Opcode::new(Action::CpBlock(inc, repeat))
}

/// alu A, r: A and F become what the operation gives on A and the operand; nothing
/// else changes.
pub open spec fn alu_r_post(
    op: AluOp,
    r: Reg8,
    s: State,
    m: Map<u16, u8>,
    l: Seq<PortAccess>,
    t: State,
    n: Map<u16, u8>,
    l2: Seq<PortAccess>,
) -> bool {
    let a = s.reg.reg8(Reg8::A);
    let b = s.spec_reg8_ext(m, r);
    &&& t.reg.data@ =~= s.reg.data@.update(1, alu_flags(op, s.reg, a, b)).update(0, alu_result(op, s.reg, a, b))
    &&& s.reg.same_but_data(&t.reg)
    &&& t.branch_taken == s.branch_taken
    &&& n == m
    &&& l2 == l
}

/// alu A, n: as alu A, r with the byte at PC, which PC moves past.
pub open spec fn alu_n_post(
    op: AluOp,
    s: State,
    m: Map<u16, u8>,
    l: Seq<PortAccess>,
    t: State,
    n: Map<u16, u8>,
    l2: Seq<PortAccess>,
) -> bool {
    let a = s.reg.reg8(Reg8::A);
    let b = m[s.reg.pc];
    &&& t.reg.data@ =~= s.reg.data@.update(1, alu_flags(op, s.reg, a, b)).update(0, alu_result(op, s.reg, a, b))
    &&& t.reg == (Registers { data: t.reg.data, pc: next_addr(s.reg.pc), ..s.reg })
    &&& t.branch_taken == s.branch_taken
    &&& n == m
    &&& l2 == l
}

/// F after one step of a block compare of `a` with `v`, BC having become `bc`: S, Z
/// and H of the compare, bits 5 and 3 from bits 1 and 3 of a - v - H, N set, P/V for
/// BC not 0, C kept.
pub open spec fn cp_block_flags(r: Registers, a: u8, v: u8, bc: u16) -> u8 {
    let f1 = alu_flags(AluOp::Cp, r, a, v);
    let k = ((a as int - v as int - (if f1 & 16 != 0 { 1int } else { 0int }) + 512) % 256) as u8;
    put_bits(put_bits(undoc_block(f1, k, r.mode8080) | 2, 4, bc != 0), 1, r.flag(Flag::C))
}

/// One step of a block compare: A compared with (HL), BC decremented, HL moved; the
/// repeating forms go back to the instruction, marking the branch taken, while BC is
/// not 0 and no match was found.
pub open spec fn cp_block_post(
    inc: bool,
    repeat: bool,
    s: State,
    m: Map<u16, u8>,
    l: Seq<PortAccess>,
    t: State,
    n: Map<u16, u8>,
    l2: Seq<PortAccess>,
) -> bool {
    let a = s.reg.reg8(Reg8::A);
    let v = m[s.reg.reg16(Reg16::HL)];
    let bc = ((s.reg.reg16(Reg16::BC) + 0xffff) % 0x10000) as u16;
    let hl = ((s.reg.reg16(Reg16::HL) + if inc { 1int } else { 0xffffint }) % 0x10000) as u16;
    let again = repeat && bc != 0 && a != v;
    &&& t.reg.data@ =~= s.reg.data@.update(1, cp_block_flags(s.reg, a, v, bc)).update(2, (bc / 256) as u8).update(
        3,
        (bc % 256) as u8,
    ).update(6, (hl / 256) as u8).update(7, (hl % 256) as u8)
    &&& t.reg == (Registers {
        data: t.reg.data,
        pc: if again {
            ((s.reg.pc + 0xfffe) % 0x10000) as u16
        } else {
            s.reg.pc
        },
        ..s.reg
    })
    &&& t.branch_taken == (s.branch_taken || again)
    &&& n == m
    &&& l2 == l
}

/// A block compare counts BC through zero: from BC = 0 it leaves 0xffff and the
/// repeating form goes on unless A matched; from BC = 1 it leaves 0 and stops.
pub proof fn lemma_cp_block_wraps(inc: bool, s: State, m: Map<u16, u8>, l: Seq<PortAccess>, t: State, n: Map<u16, u8>, l2: Seq<PortAccess>)
    requires
        cp_block_post(inc, true, s, m, l, t, n, l2),
    ensures
        s.reg.reg16(Reg16::BC) == 0 ==> t.reg.reg16(Reg16::BC) == 0xffff && t.reg.pc == (if s.reg.reg8(Reg8::A)
            != m[s.reg.reg16(Reg16::HL)] {
            ((s.reg.pc + 0xfffe) % 0x10000) as u16
        } else {
            s.reg.pc
        }),
        s.reg.reg16(Reg16::BC) == 1 ==> t.reg.reg16(Reg16::BC) == 0 && t.reg.pc == s.reg.pc,
{
    let bc = ((s.reg.reg16(Reg16::BC) + 0xffff) % 0x10000) as u16;
    assert(t.reg.data[2] == (bc / 256) as u8 && t.reg.data[3] == (bc % 256) as u8);
}

/// A block compare step sets Z exactly when A matched (HL).
pub proof fn lemma_cp_block_z(inc: bool, repeat: bool, s: State, m: Map<u16, u8>, l: Seq<PortAccess>, t: State, n: Map<u16, u8>, l2: Seq<PortAccess>)
    requires
        cp_block_post(inc, repeat, s, m, l, t, n, l2),
    ensures
        t.reg.flag(Flag::Z) == (s.reg.reg8(Reg8::A) == m[s.reg.reg16(Reg16::HL)]),
{
    let a = s.reg.reg8(Reg8::A);
    let v = m[s.reg.reg16(Reg16::HL)];
    let r = s.reg;
    let mm = r.mode8080;
    let w = wrap16(a - v);
    assert((w as u8 == 0) == (a == v)) by {
        assert(w == ((a as int - v as int + 0x10000) % 0x10000) as u16);
        assert((w as u8) as int == (a as int - v as int + 256) % 256) by {
            assert((w as u8) as u16 == w % 256) by (bit_vector);
        }
    }
    assert(1u8 & 64u8 == 0 && 2u8 & 64u8 == 0 && 4u8 & 64u8 == 0 && 16u8 & 64u8 == 0 && 32u8 & 64u8 == 0
        && 8u8 & 64u8 == 0) by (bit_vector);
    let f0 = put_bits(r.f(), 1, false);
    let g1 = sz53(f0, w as u8, mm);
    lemma_sz53_z(f0, w as u8, mm);
    let x = a as u16 ^ v as u16 ^ w;
    let g2 = put_bits(g1, 1, x & 0x100 != 0);
    lemma_put_keeps_z(g1, 1, x & 0x100 != 0);
    let g3 = put_bits(g2, 16, x & 0x10 != 0);
    lemma_put_keeps_z(g2, 16, x & 0x10 != 0);
    if mm {
        let g4 = with_parity(g3, w as u8);
        lemma_put_keeps_z(g3, 4, parity_even(w as u8));
        let a3 = a as u16 & 8 != 0;
        let b3 = v as u16 & 8 != 0;
        let r3 = w & 8 != 0;
        lemma_put_keeps_z(g4, 16, (!a3 && !b3 && !r3) || (a3 && !(b3 && r3)));
    } else {
        let g4 = put_bits(g3, 4, (x & 0x100 != 0) != (x & 0x80 != 0));
        lemma_put_keeps_z(g3, 4, (x & 0x100 != 0) != (x & 0x80 != 0));
        lemma_put_keeps_z(g4, 2, true);
    }
    let h = arith_flags(f0, a as u16, v as u16, w, true, true, mm);
    assert(h & 64 == g1 & 64);
    if !mm {
        lemma_put_keeps_z(h, 32, v & 32 != 0);
        lemma_put_keeps_z(put_bits(h, 32, v & 32 != 0), 8, v & 8 != 0);
    }
    let f1 = alu_flags(AluOp::Cp, r, a, v);
    assert(f1 & 64 == h & 64);
    let k = ((a as int - v as int - (if f1 & 16 != 0 { 1int } else { 0int }) + 512) % 256) as u8;
    let u = undoc_block(f1, k, mm);
    if !mm {
        lemma_put_keeps_z(f1, 32, k & 2 != 0);
        lemma_put_keeps_z(put_bits(f1, 32, k & 2 != 0), 8, k & 8 != 0);
    }
    assert(u & 64 == f1 & 64);
    lemma_put_keeps_z(u, 2, true);
    let bc = ((s.reg.reg16(Reg16::BC) + 0xffff) % 0x10000) as u16;
    lemma_put_keeps_z(u | 2, 4, bc != 0);
    lemma_put_keeps_z(put_bits(u | 2, 4, bc != 0), 1, r.flag(Flag::C));
}

/// alu A, r.
pub fn exec_alu_r<M: Machine>(state: &mut State, sys: &mut M, op: AluOp, r: Reg8)
    ensures
        alu_r_post(op, r, *old(state), old(sys).memory(), old(sys).port_log(), *final(state), final(sys).memory(), final(sys).port_log()),
        keeps_latches(*old(state), *final(state)),
{
    let a = state.reg.a();
    let b = state.reg8_ext(sys, r);
    let v = operator(op, &mut state.reg, a, b);
    state.reg.set_a(v);
}

/// alu A, n.
pub fn exec_alu_n<M: Machine>(state: &mut State, sys: &mut M, op: AluOp)
    ensures
        alu_n_post(op, *old(state), old(sys).memory(), old(sys).port_log(), *final(state), final(sys).memory(), final(sys).port_log()),
        keeps_latches(*old(state), *final(state)),
{
    let a = state.reg.a();
    let b = state.advance_pc(sys);
    let v = operator(op, &mut state.reg, a, b);
    state.reg.set_a(v);
}

/// One step of CPI, CPD, CPIR or CPDR.
pub fn exec_cp_block<M: Machine>(state: &mut State, sys: &mut M, inc: bool, repeat: bool)
    ensures
        cp_block_post(inc, repeat, *old(state), old(sys).memory(), old(sys).port_log(), *final(state), final(sys).memory(), final(sys).port_log()),
        keeps_latches(*old(state), *final(state)),
{
    let a = state.reg.a();
    let hl0 = state.reg.get16(Reg16::HL);
    let b = sys.peek(hl0);
    let c_bak = state.reg.get_flag(Flag::C);
    operator_cp(&mut state.reg, a, b);
    let h = state.reg.get_flag(Flag::H);
    let bc = state.reg.inc_dec16(Reg16::BC, false);
    state.reg.inc_dec16(Reg16::HL, inc);
    let k: u8 = ((a as u16 + 512 - b as u16 - (if h { 1u16 } else { 0u16 })) % 256) as u8;
    state.reg.update_undocumented_flags_block(k);
    state.reg.set_flag(Flag::N);
    state.reg.put_flag(Flag::P, bc != 0);
    state.reg.put_flag(Flag::C, c_bak);
    if repeat && bc != 0 && a != b {
        state.set_branch_taken();
        let pc = state.reg.pc().wrapping_sub(2);
        state.reg.set_pc(pc);
    }
}

} // verus!
