use vstd::prelude::*;
use crate::machine::Machine;
use crate::opcode::{keeps_latches, Action, Opcode};
use crate::operators::{
    operator_adc16, operator_add, operator_add16, operator_dec, operator_inc, operator_sbc16,
    operator_sub, wrap16, carry_in,
};
use crate::registers::add16_flags;
use crate::operators::{alu_flags, alu_result, arith16_flags, wrap32, AluOp};
use crate::registers::{arith_flags, daa_flags, put_bits, Flag, Reg16, Reg8};
use crate::state::State;

verus! {

/// ADD HL, rr.
pub fn build_add_hl_rr(rr: Reg16) -> (o: Opcode)
    ensures
        o.action == Action::AddHlRr(rr),
{
    Opcode::new(Action::AddHlRr(rr))
}

/// ADC HL, rr.
pub fn build_adc_hl_rr(rr: Reg16) -> (o: Opcode)
    ensures
        o.action == Action::AdcHlRr(rr),
{
    Opcode::new(Action::AdcHlRr(rr))
}

/// SBC HL, rr.
pub fn build_sbc_hl_rr(rr: Reg16) -> (o: Opcode)
    ensures
        o.action == Action::SbcHlRr(rr),
{
    Opcode::new(Action::SbcHlRr(rr))
}

/// INC r.
pub fn build_inc_r(r: Reg8) -> (o: Opcode)
    ensures
        o.action == Action::IncR(r),
{
    Opcode::new(Action::IncR(r))
}

/// DEC r.
pub fn build_dec_r(r: Reg8) -> (o: Opcode)
    ensures
        o.action == Action::DecR(r),
{
    Opcode::new(Action::DecR(r))
}

/// INC rr (`inc`) or DEC rr.
pub fn build_inc_dec_rr(rr: Reg16, inc: bool) -> (o: Opcode)
    ensures
        o.action == Action::IncDecRr(rr, inc),
{
    Opcode::new(Action::IncDecRr(rr, inc))
}

/// NEG.
pub fn build_neg() -> (o: Opcode)
    ensures
        o.action == Action::Neg,
{
    Opcode::new(Action::Neg)
}

/// DAA of the Z80.
pub fn build_daa() -> (o: Opcode)
    ensures
        o.action == Action::Daa,
{
    Opcode::new(Action::Daa)
}

/// DAA of the 8080.
pub fn build_daa8080() -> (o: Opcode)
    ensures
        o.action == Action::Daa8080,
{
    Opcode::new(Action::Daa8080)
}

/// ADD HL, rr on the active index: the sum in the index register, flags of a 16 bit
/// add.
pub open spec fn add_hl_post(rr: Reg16, s: State, t: State) -> bool {
    let a = s.reg.reg16(s.index);
    let b = s.reg.reg16(s.spec_translate16(rr));
    let v = ((a + b) % 0x10000) as u16;
    let i = s.index.spec_index();
    &&& t.reg.data@ =~= s.reg.data@.update(1, add16_flags(s.reg.f(), a as u32, b as u32, (a + b) as u32, s.reg.mode8080)).update(
        i,
        (v / 256) as u8,
    ).update(i + 1, (v % 256) as u8)
    &&& s.reg.same_but_data(&t.reg)
    &&& t.branch_taken == s.branch_taken
}

/// ADC HL, rr (`adc`) or SBC HL, rr: the result in HL, flags from the high bytes with
/// Z from the whole result.
pub open spec fn adc_sbc_hl_post(rr: Reg16, adc: bool, s: State, t: State) -> bool {
    let a = s.reg.reg16(s.index);
    let b = s.reg.reg16(s.spec_translate16(rr));
    let c = carry_in(s.reg);
    let raw: u32 = if adc { (a + b + c) as u32 } else { wrap32(a - b - c) };
    let v = if adc { wrap16(a + b + c) } else { wrap16(a - b - c) };
    &&& t.reg.data@ =~= s.reg.data@.update(1, arith16_flags(s.reg, a, b, raw, !adc)).update(6, (v / 256) as u8).update(
        7,
        (v % 256) as u8,
    )
    &&& s.reg.same_but_data(&t.reg)
    &&& t.branch_taken == s.branch_taken
}

/// INC r (`inc`) or DEC r under the active index: the operand plus or minus one, flags
/// of an 8 bit add or subtract with the carry kept.
pub open spec fn inc_dec_r_post(r: Reg8, inc: bool, s: State, m: Map<u16, u8>, t: State, n: Map<u16, u8>) -> bool {
    let v = s.spec_reg8_ext(m, r);
    let w = (if inc { (v + 1) % 256 } else { (v + 255) % 256 }) as u8;
    let f = arith_flags(s.reg.f(), v as u16, 0, if inc { (v + 1) as u16 } else { wrap16(v - 1) }, !inc, false, s.reg.mode8080);
    &&& r == Reg8::_HL ==> n == m.insert(s.spec_index_address(), w) && t.reg.data@ =~= s.reg.data@.update(1, f)
    &&& r != Reg8::_HL ==> n == m && t.reg.data@ =~= s.reg.data@.update(1, f).update(s.spec_translate(r).spec_index(), w)
    &&& s.reg.same_but_data(&t.reg)
    &&& t.branch_taken == s.branch_taken
}

/// INC rr or DEC rr under the active index; no flag changes.
pub open spec fn inc_dec_rr_post(rr: Reg16, inc: bool, s: State, t: State) -> bool {
    let tr = s.spec_translate16(rr);
    let v = ((s.reg.reg16(tr) + if inc { 1int } else { 0xffffint }) % 0x10000) as u16;
    &&& t.reg.data@ =~= s.reg.data@.update(tr.spec_index(), (v / 256) as u8).update(tr.spec_index() + 1, (v % 256) as u8)
    &&& s.reg.same_but_data(&t.reg)
    &&& t.branch_taken == s.branch_taken
}

/// NEG: A becomes 0 - A, flags of the subtraction.
pub open spec fn neg_post(s: State, t: State) -> bool {
    let a = s.reg.reg8(Reg8::A);
    &&& t.reg.data@ =~= s.reg.data@.update(1, alu_flags(AluOp::Sub, s.reg, 0, a)).update(0, alu_result(AluOp::Sub, s.reg, 0, a))
    &&& s.reg.same_but_data(&t.reg)
    &&& t.branch_taken == s.branch_taken
}

/// ADD HL, rr, with HL standing for the active index.
pub fn exec_add_hl_rr(state: &mut State, rr: Reg16)
    requires
        old(state).index_ok(),
    ensures
        keeps_latches(*old(state), *final(state)),
        add_hl_post(rr, *old(state), *final(state)),
{
    let aa = state.index_value();
    let bb = state.reg16_ext(rr);
    let vv = operator_add16(&mut state.reg, aa, bb);
    state.set_reg16(Reg16::HL, vv);
}

/// ADC HL, rr (`adc`) or SBC HL, rr.
pub fn exec_adc_sbc_hl_rr(state: &mut State, rr: Reg16, adc: bool)
    ensures
        keeps_latches(*old(state), *final(state)),
        adc_sbc_hl_post(rr, adc, *old(state), *final(state)),
{
    let aa = state.index_value();
    let bb = state.reg16_ext(rr);
    let vv = if adc {
        operator_adc16(&mut state.reg, aa, bb)
    } else {
        operator_sbc16(&mut state.reg, aa, bb)
    };
    state.reg.set16(Reg16::HL, vv);
}

/// INC r (`inc`) or DEC r, on the register as the active index translates it.
pub fn exec_inc_dec_r<M: Machine>(state: &mut State, sys: &mut M, r: Reg8, inc: bool)
    requires
        old(state).index_ok(),
    ensures
        keeps_latches(*old(state), *final(state)),
        inc_dec_r_post(r, inc, *old(state), old(sys).memory(), *final(state), final(sys).memory()),
        final(sys).port_log() == old(sys).port_log(),
{
    let a = state.reg8_ext(sys, r);
    let v = if inc {
        operator_inc(&mut state.reg, a)
    } else {
        operator_dec(&mut state.reg, a)
    };
    state.set_reg(sys, r, v);
}

/// INC rr or DEC rr; no flag changes.
pub fn exec_inc_dec_rr(state: &mut State, rr: Reg16, inc: bool)
    requires
        rr != Reg16::AF,
        old(state).index_ok(),
    ensures
        keeps_latches(*old(state), *final(state)),
        inc_dec_rr_post(rr, inc, *old(state), *final(state)),
{
    let v = state.reg16_ext(rr);
    let n = if inc {
        v.wrapping_add(1)
    } else {
        v.wrapping_sub(1)
    };
    state.set_reg16(rr, n);
}

/// NEG: A becomes 0 - A.
pub fn exec_neg(state: &mut State)
    ensures
        keeps_latches(*old(state), *final(state)),
        neg_post(*old(state), *final(state)),
{
    let b = state.reg.a();
    let v = operator_sub(&mut state.reg, 0, b);
    state.reg.set_a(v);
}

/// The DAA correction of `a` with the given H and C: 6 for the low digit, 0x60 for the high.
pub open spec fn daa_diff(a: u8, hf: bool, cf: bool) -> u8 {
    let hi = a / 16;
    let lo = a % 16;
    ((if hf || lo > 9 { 6int } else { 0int }) + (if cf || hi > 9 || (hi == 9 && lo > 9) { 0x60int } else { 0int })) as u8
}

/// H after DAA of the Z80.
pub open spec fn daa_h(a: u8, nf: bool, hf: bool) -> bool {
    (!nf && a % 16 > 9) || (nf && hf && a % 16 < 6)
}

/// C after DAA: set when the high digit was corrected.
pub open spec fn daa_c(a: u8, cf: bool) -> bool {
    cf || a / 16 > 9 || (a / 16 == 9 && a % 16 > 9)
}

/// A after DAA of the Z80: the correction is subtracted after a subtraction, added
/// otherwise.
pub open spec fn daa_a(a: u8, nf: bool, hf: bool, cf: bool) -> u8 {
    (if nf {
        (a - daa_diff(a, hf, cf) + 256) % 256
    } else {
        (a + daa_diff(a, hf, cf)) % 256
    }) as u8
}

#[verifier::rlimit(60)]
fn daa_values(a: u8, nf: bool, hf: bool, cf: bool) -> (r: (u8, bool, bool))
    ensures
        r.0 == daa_a(a, nf, hf, cf),
        r.1 == daa_h(a, nf, hf),
        r.2 == daa_c(a, cf),
{
    let hi = a / 16;
    let lo = a % 16;
    let lo6 = hf || (lo > 9);
    let hi6 = cf || (hi > 9) || (hi == 9 && lo > 9);
    let diff: u8 = (if lo6 { 6u8 } else { 0u8 }) + (if hi6 { 0x60u8 } else { 0u8 });
    assert(diff == daa_diff(a, hf, cf));
    let new_a = if nf {
        ((a as u16 + 256 - diff as u16) % 256) as u8
    } else {
        ((a as u16 + diff as u16) % 256) as u8
    };
    let new_hf = (!nf && lo > 9) || (nf && hf && lo < 6);
    (new_a, new_hf, hi6)
}

/// DAA of the Z80: A corrected, flags of the corrected value with the DAA H and C;
/// N kept.
pub open spec fn daa_post(s: State, t: State) -> bool {
    let a = s.reg.reg8(Reg8::A);
    let na = daa_a(a, s.reg.flag(Flag::N), s.reg.flag(Flag::H), s.reg.flag(Flag::C));
    &&& t.reg.data@ =~= s.reg.data@.update(0, na).update(
        1,
        daa_flags(s.reg.f(), na, daa_h(a, s.reg.flag(Flag::N), s.reg.flag(Flag::H)), daa_c(a, s.reg.flag(Flag::C)), s.reg.mode8080),
    )
    &&& s.reg.same_but_data(&t.reg)
    &&& t.branch_taken == s.branch_taken
}

/// DAA of the 8080: the correction added as by ADD, then C set when either the old
/// carry or the high digit correction holds.
pub open spec fn daa8080_post(s: State, t: State) -> bool {
    let a = s.reg.reg8(Reg8::A);
    let d = daa_diff(a, s.reg.flag(Flag::H), s.reg.flag(Flag::C));
    &&& t.reg.data@ =~= s.reg.data@.update(
        1,
        put_bits(alu_flags(AluOp::Add, s.reg, a, d), 1, daa_c(a, s.reg.flag(Flag::C))),
    ).update(0, alu_result(AluOp::Add, s.reg, a, d))
    &&& s.reg.same_but_data(&t.reg)
    &&& t.branch_taken == s.branch_taken
}

/// DAA of the Z80: corrects A after a BCD addition, or subtraction when N is set; N is
/// kept.
pub fn exec_daa(state: &mut State)
    ensures
        keeps_latches(*old(state), *final(state)),
        daa_post(*old(state), *final(state)),
{
    let a = state.reg.a();
    let nf = state.reg.get_flag(Flag::N);
    let cf = state.reg.get_flag(Flag::C);
    let hf = state.reg.get_flag(Flag::H);
    let (new_a, new_hf, new_cf) = daa_values(a, nf, hf, cf);
    state.reg.set_a(new_a);
    state.reg.update_daa_flags(new_a, new_hf, new_cf);
}

/// DAA of the 8080: the correction is added, and the carry stays set once set.
pub fn exec_daa8080(state: &mut State)
    ensures
        keeps_latches(*old(state), *final(state)),
        daa8080_post(*old(state), *final(state)),
{
    let a = state.reg.a();
    let cf = state.reg.get_flag(Flag::C);
    let hf = state.reg.get_flag(Flag::H);
    let (_x, _h, hi6) = daa_values(a, false, hf, cf);
    let lo = a % 16;
    let lo6 = hf || (lo > 9);
    let diff: u8 = (if lo6 { 6u8 } else { 0u8 }) + (if hi6 { 0x60u8 } else { 0u8 });
    let new_a = operator_add(&mut state.reg, a, diff);
    state.reg.set_a(new_a);
    state.reg.put_flag(Flag::C, hi6);
}

} // verus!
