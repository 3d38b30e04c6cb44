use vstd::prelude::*;
use crate::environment::{prev_addr, pushed, with_sp};
use crate::machine::{next_addr, word_at, Machine, PortAccess};
use crate::opcode_alu::{alu_n_post, alu_r_post, cp_block_post};
use crate::opcode_arith::{adc_sbc_hl_post, add_hl_post, daa8080_post, daa_post, inc_dec_r_post, inc_dec_rr_post, neg_post};
use crate::opcode_bits::{bit_flags, carry_op_flags, indexed_set_res_post, only_f, rot_post, rxd_post, set_res_post};
use crate::opcode_io::{in_a_n_post, in_block_post, in_c_post, out_block_post, out_c_post, out_n_a_post};
use crate::opcode_jumps::{call_post, djnz_post, jp_post, jr_post, ret_post, rst_post};
use crate::opcode_ld::{data_only, ld_block_post, ld_r_r_post, with_pair};
use crate::registers::{hn, undoc, Reg16, Reg8, Registers};
use crate::opcode::{keeps_latches, Action};
use crate::opcode_alu::{exec_alu_n, exec_alu_r, exec_cp_block};
use crate::opcode_arith::{
    exec_adc_sbc_hl_rr, exec_add_hl_rr, exec_daa, exec_daa8080, exec_inc_dec_r, exec_inc_dec_rr,
    exec_neg,
};
use crate::opcode_bits::{
    exec_bit, exec_cpl, exec_indexed_set_res, exec_rot, exec_rxd, exec_scf_ccf, exec_set_res,
};
use crate::opcode_io::{exec_in_a_n, exec_in_block, exec_in_c, exec_out_block, exec_out_c, exec_out_n_a};
use crate::opcode_jumps::{exec_call, exec_djnz, exec_jp, exec_jp_hl, exec_jr, exec_ret, exec_rst};
use crate::opcode_ld::{
    exec_ex_de_hl, exec_ex_psp_hl, exec_exchange, exec_ld_a_pnn, exec_ld_a_prr, exec_ld_block,
    exec_ld_pnn_a, exec_ld_pnn_rr, exec_ld_prr_a, exec_ld_r_n, exec_ld_r_r, exec_ld_rr_nn,
    exec_ld_rr_pnn, exec_ld_sp_hl,
};
use crate::state::State;

verus! {

/// What running `action` keeps and changes of the step bookkeeping: the cycle counter,
/// the pending signals, the index and the 8080 mode stay; HALT raises the halt state
/// and EI enables interrupts and sets the latch that defers them.
pub open spec fn executed(action: Action, s: State, t: State) -> bool {
    &&& t.cycle == s.cycle
    &&& t.nmi_pending == s.nmi_pending
    &&& t.reset_pending == s.reset_pending
    &&& t.int_signaled == s.int_signaled
    &&& t.index == s.index
    &&& t.displacement == s.displacement
    &&& t.reg.mode8080 == s.reg.mode8080
    &&& t.halted == (s.halted || action == Action::Halt)
    &&& t.int_just_enabled == (s.int_just_enabled || action == Action::EnableInterrupts || action == Action::NoniNop)
    &&& action == Action::EnableInterrupts ==> t.reg.iff1 && t.reg.iff2
    &&& action == Action::DisableInterrupts ==> !t.reg.iff1 && !t.reg.iff2
    &&& (action matches Action::Im(m) ==> t.reg.im == m)
}

/// The register bytes `d` after a 16 bit write of `v` to `rr`; in 8080 mode a write of
/// AF keeps N set and bits 3 and 5 clear.
pub open spec fn pair_written(d: Seq<u8>, rr: Reg16, v: u16, mode8080: bool) -> Seq<u8> {
    d.update(rr.spec_index(), (v / 256) as u8).update(
        rr.spec_index() + 1,
        if mode8080 && rr == Reg16::AF {
            ((v % 256) as u8 | 2) & 0xd7
        } else {
            (v % 256) as u8
        },
    )
}

/// What `action` does, from state `s`, memory `m` and port accesses `l` to `t`, `n` and
/// `l2`: the registers, memory and ports of each instruction, as its own function states
/// them. It is opaque to keep proofs about whole steps small: `reveal(effect)` opens it.
#[verifier::opaque]
pub open spec fn effect(
    action: Action,
    s: State,
    m: Map<u16, u8>,
    l: Seq<PortAccess>,
    t: State,
    n: Map<u16, u8>,
    l2: Seq<PortAccess>,
) -> bool {
    let same_ports = l2 == l;
    match action {
        Action::NotAnOpcode => true,
        Action::Nop | Action::NoniNop | Action::Halt => t.reg == s.reg && t.branch_taken == s.branch_taken && n == m
            && same_ports,
        Action::EnableInterrupts => t.reg == (Registers { iff1: true, iff2: true, ..s.reg }) && t.branch_taken
            == s.branch_taken && n == m && same_ports,
        Action::DisableInterrupts => t.reg == (Registers { iff1: false, iff2: false, ..s.reg }) && t.branch_taken
            == s.branch_taken && n == m && same_ports,
        Action::Im(mode) => t.reg == (Registers { im: mode, ..s.reg }) && t.branch_taken == s.branch_taken && n == m
            && same_ports,
        Action::PopRr(rr) => {
            let sp = s.reg.reg16(Reg16::SP);
            &&& t.reg.data@ == pair_written(
                with_sp(s.reg.data@, next_addr(next_addr(sp))),
                s.spec_translate16(rr),
                word_at(m, sp),
                s.reg.mode8080,
            )
            &&& s.reg.same_but_data(&t.reg)
            &&& t.branch_taken == s.branch_taken
            &&& n == m
            &&& same_ports
        },
        Action::PushRr(rr) => {
            let sp = s.reg.reg16(Reg16::SP);
            &&& n == pushed(m, sp, s.reg.reg16(s.spec_translate16(rr)))
            &&& t.reg.data@ == with_sp(s.reg.data@, prev_addr(prev_addr(sp)))
            &&& s.reg.same_but_data(&t.reg)
            &&& t.branch_taken == s.branch_taken
            &&& same_ports
        },
        Action::AluR(op, r) => alu_r_post(op, r, s, m, l, t, n, l2),
        Action::AluN(op) => alu_n_post(op, s, m, l, t, n, l2),
        Action::CpBlock(inc, repeat) => cp_block_post(inc, repeat, s, m, l, t, n, l2),
        Action::AddHlRr(rr) => add_hl_post(rr, s, t) && n == m && same_ports,
        Action::AdcHlRr(rr) => adc_sbc_hl_post(rr, true, s, t) && n == m && same_ports,
        Action::SbcHlRr(rr) => adc_sbc_hl_post(rr, false, s, t) && n == m && same_ports,
        Action::IncR(r) => inc_dec_r_post(r, true, s, m, t, n) && same_ports,
        Action::DecR(r) => inc_dec_r_post(r, false, s, m, t, n) && same_ports,
        Action::IncDecRr(rr, inc) => inc_dec_rr_post(rr, inc, s, t) && n == m && same_ports,
        Action::Neg => neg_post(s, t) && n == m && same_ports,
        Action::Daa => daa_post(s, t) && n == m && same_ports,
        Action::Daa8080 => daa8080_post(s, t) && n == m && same_ports,
        Action::Rot(r, dir, mode, fast, indexed) => rot_post(r, dir, mode, fast, indexed, s, m, t, n) && same_ports,
        Action::Bit(b, r) => only_f(
            s,
            m,
            t,
            n,
            bit_flags(
                s.reg.f(),
                s.spec_reg8_ext(m, r),
                b,
                if r == Reg8::_HL {
                    (s.spec_index_address() / 256) as u8
                } else {
                    s.spec_reg8_ext(m, r)
                },
                s.reg.mode8080,
            ),
        ) && same_ports,
        Action::SetRes(b, r, value) => set_res_post(b, r, value, s, m, t, n) && same_ports,
        Action::IndexedSetRes(b, r, value) => indexed_set_res_post(b, r, value, s, m, t, n) && same_ports,
        Action::Cpl => {
            &&& t.reg.data@ =~= s.reg.data@.update(0, !s.reg.reg8(Reg8::A)).update(
                1,
                undoc(hn(s.reg.f(), true, true, s.reg.mode8080), !s.reg.reg8(Reg8::A), s.reg.mode8080),
            )
            &&& s.reg.same_but_data(&t.reg)
            &&& t.branch_taken == s.branch_taken
            &&& n == m
            &&& same_ports
        },
        Action::Scf => only_f(s, m, t, n, carry_op_flags(s.reg.f(), s.reg.reg8(Reg8::A), true, s.reg.mode8080))
            && same_ports,
        Action::Ccf => only_f(s, m, t, n, carry_op_flags(s.reg.f(), s.reg.reg8(Reg8::A), false, s.reg.mode8080))
            && same_ports,
        Action::Rxd(dir) => rxd_post(dir, s, m, t, n) && same_ports,
        Action::OutCR(r) => out_c_post(Some(r), s, m, l, t, n, l2),
        Action::OutC0 => out_c_post(None, s, m, l, t, n, l2),
        Action::OutNA => out_n_a_post(s, m, l, t, n, l2),
        Action::InRC(r) => in_c_post(Some(r), s, m, l, t, n, l2),
        Action::In0C => in_c_post(None, s, m, l, t, n, l2),
        Action::InAN => in_a_n_post(s, m, l, t, n, l2),
        Action::InBlock(inc, repeat) => in_block_post(inc, repeat, s, m, l, t, n, l2),
        Action::OutBlock(inc, repeat) => out_block_post(inc, repeat, s, m, l, t, n, l2),
        Action::Djnz => djnz_post(s, m, t, n) && same_ports,
        Action::JrUnconditional => jr_post(None, s, m, t, n) && same_ports,
        Action::JrEq(flag, value) => jr_post(Some((flag, value)), s, m, t, n) && same_ports,
        Action::JpUnconditional => jp_post(None, s, m, t, n) && same_ports,
        Action::JpEq(flag, value) => jp_post(Some((flag, value)), s, m, t, n) && same_ports,
        Action::JpHl => t.reg == (Registers { pc: s.reg.reg16(s.index), ..s.reg }) && t.branch_taken == s.branch_taken
            && n == m && same_ports,
        Action::Call => call_post(None, s, m, t, n) && same_ports,
        Action::CallEq(flag, value) => call_post(Some((flag, value)), s, m, t, n) && same_ports,
        Action::Rst(d) => rst_post(d, s, m, t, n) && same_ports,
        Action::Ret | Action::Reti => ret_post(None, false, s, m, t, n) && same_ports,
        Action::Retn => ret_post(None, true, s, m, t, n) && same_ports,
        Action::RetEq(flag, value) => ret_post(Some((flag, value)), false, s, m, t, n) && same_ports,
        Action::LdRR(dst, src) => ld_r_r_post(dst, src, s, m, t, n) && same_ports,
        Action::LdRN(r) => {
            &&& t.reg == (Registers { data: t.reg.data, pc: next_addr(s.reg.pc), ..s.reg })
            &&& r != Reg8::_HL ==> t.reg.data@ == s.reg.data@.update(s.spec_translate(r).spec_index(), m[s.reg.pc]) && n == m
            &&& r == Reg8::_HL ==> n == m.insert(s.spec_index_address(), m[s.reg.pc]) && t.reg.data == s.reg.data
            &&& t.branch_taken == s.branch_taken
            &&& same_ports
        },
        Action::LdAPrr(rr) => data_only(s, m, t, n, s.reg.data@.update(0, m[s.reg.reg16(rr)])) && same_ports,
        Action::LdAPnn => {
            &&& t.reg.data@ =~= s.reg.data@.update(0, m[word_at(m, s.reg.pc)])
            &&& t.reg == (Registers { data: t.reg.data, pc: next_addr(next_addr(s.reg.pc)), ..s.reg })
            &&& t.branch_taken == s.branch_taken
            &&& n == m
            &&& same_ports
        },
        Action::LdPrrA(rr) => t == s && n == m.insert(s.reg.reg16(rr), s.reg.reg8(Reg8::A)) && same_ports,
        Action::LdPnnA => t == (State { reg: Registers { pc: next_addr(next_addr(s.reg.pc)), ..s.reg }, ..s }) && n == m.insert(
            word_at(m, s.reg.pc),
            s.reg.reg8(Reg8::A),
        ) && same_ports,
        Action::LdRrNn(rr) => {
            &&& t.reg.data@ == with_pair(s.reg.data@, s.spec_translate16(rr), word_at(m, s.reg.pc))
            &&& t.reg == (Registers { data: t.reg.data, pc: next_addr(next_addr(s.reg.pc)), ..s.reg })
            &&& t.branch_taken == s.branch_taken
            &&& n == m
            &&& same_ports
        },
        Action::LdSpHl => {
            &&& t.reg.data@ == with_pair(s.reg.data@, Reg16::SP, s.reg.reg16(s.index))
            &&& s.reg.same_but_data(&t.reg)
            &&& t.branch_taken == s.branch_taken
            &&& n == m
            &&& same_ports
        },
        Action::LdPnnRr(rr) => {
            let w = word_at(m, s.reg.pc);
            let v = s.reg.reg16(s.spec_translate16(rr));
            &&& t == (State { reg: Registers { pc: next_addr(next_addr(s.reg.pc)), ..s.reg }, ..s })
            &&& n == m.insert(w, (v % 256) as u8).insert(next_addr(w), (v / 256) as u8)
            &&& same_ports
        },
        Action::LdRrPnn(rr) => {
            &&& t.reg.data@ == with_pair(s.reg.data@, s.spec_translate16(rr), word_at(m, word_at(m, s.reg.pc)))
            &&& t.reg == (Registers { data: t.reg.data, pc: next_addr(next_addr(s.reg.pc)), ..s.reg })
            &&& t.branch_taken == s.branch_taken
            &&& n == m
            &&& same_ports
        },
        Action::ExAf | Action::Exx => {
            let af = action == Action::ExAf;
            &&& t.reg == (Registers { data: t.reg.data, shadow: t.reg.shadow, ..s.reg })
            &&& forall|i: int|
                0 <= i < 16 ==> if (af && i < 2) || (!af && 2 <= i < 8) {
                    #[trigger] t.reg.data[i] == s.reg.shadow[i] && t.reg.shadow[i] == s.reg.data[i]
                } else {
                    t.reg.data[i] == s.reg.data[i] && t.reg.shadow[i] == s.reg.shadow[i]
                }
            &&& t.branch_taken == s.branch_taken
            &&& n == m
            &&& same_ports
        },
        Action::ExDeHl => {
            &&& t.reg.data@ =~= s.reg.data@.update(4, s.reg.data[6]).update(5, s.reg.data[7]).update(6, s.reg.data[4]).update(
                7,
                s.reg.data[5],
            )
            &&& s.reg.same_but_data(&t.reg)
            &&& t.branch_taken == s.branch_taken
            &&& n == m
            &&& same_ports
        },
        Action::ExPspHl => {
            let sp = s.reg.reg16(Reg16::SP);
            let v = s.reg.reg16(s.index);
            &&& t.reg.data@ == with_pair(s.reg.data@, s.index, word_at(m, sp))
            &&& s.reg.same_but_data(&t.reg)
            &&& t.branch_taken == s.branch_taken
            &&& n == m.insert(sp, (v % 256) as u8).insert(next_addr(sp), (v / 256) as u8)
            &&& same_ports
        },
        Action::LdBlock(inc, repeat) => ld_block_post(inc, repeat, s, m, t, n) && same_ports,
    }
}

/// Runs `action` on the state and the machine.
pub fn execute_action<M: Machine>(action: Action, state: &mut State, sys: &mut M)
    requires
        action.wf(),
        old(state).index_ok(),
    ensures
        executed(action, *old(state), *final(state)),
        effect(action, *old(state), old(sys).memory(), old(sys).port_log(), *final(state), final(sys).memory(), final(sys).port_log()),
{
    reveal(effect);
    match action {
        Action::NotAnOpcode => {},
        Action::Nop => {},
        Action::NoniNop => {
            state.int_just_enabled = true;
        },
        Action::Halt => {
            state.halted = true;
        },
        Action::PopRr(rr) => {
            let value = state.pop(sys);
            state.set_reg16(rr, value);
        },
        Action::PushRr(rr) => {
            let value = state.reg16_ext(rr);
            state.push(sys, value);
        },
        Action::DisableInterrupts => {
            state.reg.set_interrupts(false);
        },
        Action::EnableInterrupts => {
            state.reg.set_interrupts(true);
            state.int_just_enabled = true;
        },
        Action::Im(m) => {
            state.reg.set_interrupt_mode(m);
        },
        _ => execute_family(action, state, sys),
    }
}

/// Whether `action` leaves the step bookkeeping to `execute_action` itself.
pub open spec fn is_control(action: Action) -> bool {
    match action {
        Action::NotAnOpcode | Action::Nop | Action::NoniNop | Action::Halt | Action::PopRr(_)
        | Action::PushRr(_) | Action::DisableInterrupts | Action::EnableInterrupts | Action::Im(_) => true,
        _ => false,
    }
}

/// Whether `action` loads, exchanges or copies.
pub open spec fn is_load(action: Action) -> bool {
    match action {
        Action::LdRR(_, _) | Action::LdRN(_) | Action::LdAPrr(_) | Action::LdAPnn | Action::LdPrrA(_)
        | Action::LdPnnA | Action::LdRrNn(_) | Action::LdSpHl | Action::LdPnnRr(_) | Action::LdRrPnn(_)
        | Action::ExAf | Action::Exx | Action::ExDeHl | Action::ExPspHl | Action::LdBlock(_, _) => true,
        _ => false,
    }
}

fn execute_family<M: Machine>(action: Action, state: &mut State, sys: &mut M)
    requires
        action.wf(),
        !is_control(action),
        old(state).index_ok(),
    ensures
        keeps_latches(*old(state), *final(state)),
        effect(action, *old(state), old(sys).memory(), old(sys).port_log(), *final(state), final(sys).memory(), final(sys).port_log()),
{
    reveal(effect);
    if is_load_action(action) {
        execute_load(action, state, sys);
        return;
    }
    match action {
        Action::AluR(op, r) => exec_alu_r(state, sys, op, r),
        Action::AluN(op) => exec_alu_n(state, sys, op),
        Action::CpBlock(inc, repeat) => exec_cp_block(state, sys, inc, repeat),
        Action::AddHlRr(rr) => exec_add_hl_rr(state, rr),
        Action::AdcHlRr(rr) => exec_adc_sbc_hl_rr(state, rr, true),
        Action::SbcHlRr(rr) => exec_adc_sbc_hl_rr(state, rr, false),
        Action::IncR(r) => exec_inc_dec_r(state, sys, r, true),
        Action::DecR(r) => exec_inc_dec_r(state, sys, r, false),
        Action::IncDecRr(rr, inc) => exec_inc_dec_rr(state, rr, inc),
        Action::Neg => exec_neg(state),
        Action::Daa => exec_daa(state),
        Action::Daa8080 => exec_daa8080(state),
        Action::Rot(r, dir, mode, fast, indexed) => exec_rot(state, sys, r, dir, mode, fast, indexed),
        Action::Bit(n, r) => exec_bit(state, sys, n, r),
        Action::SetRes(n, r, value) => exec_set_res(state, sys, n, r, value),
        Action::IndexedSetRes(n, r, value) => exec_indexed_set_res(state, sys, n, r, value),
        Action::Cpl => exec_cpl(state),
        Action::Scf => exec_scf_ccf(state, true),
        Action::Ccf => exec_scf_ccf(state, false),
        Action::Rxd(dir) => exec_rxd(state, sys, dir),
        Action::OutCR(r) => exec_out_c(state, sys, Some(r)),
        Action::OutC0 => exec_out_c(state, sys, None),
        Action::OutNA => exec_out_n_a(state, sys),
        Action::InRC(r) => exec_in_c(state, sys, Some(r)),
        Action::In0C => exec_in_c(state, sys, None),
        Action::InAN => exec_in_a_n(state, sys),
        Action::InBlock(inc, repeat) => exec_in_block(state, sys, inc, repeat),
        Action::OutBlock(inc, repeat) => exec_out_block(state, sys, inc, repeat),
        Action::Djnz => exec_djnz(state, sys),
        Action::JrUnconditional => exec_jr(state, sys, None),
        Action::JrEq(flag, value) => exec_jr(state, sys, Some((flag, value))),
        Action::JpUnconditional => exec_jp(state, sys, None),
        Action::JpEq(flag, value) => exec_jp(state, sys, Some((flag, value))),
        Action::JpHl => exec_jp_hl(state),
        Action::Call => exec_call(state, sys, None),
        Action::CallEq(flag, value) => exec_call(state, sys, Some((flag, value))),
        Action::Rst(d) => exec_rst(state, sys, d),
        Action::Ret => exec_ret(state, sys, None, false),
        Action::Reti => exec_ret(state, sys, None, false),
        Action::Retn => exec_ret(state, sys, None, true),
        Action::RetEq(flag, value) => exec_ret(state, sys, Some((flag, value)), false),
        _ => {},
    }
}

fn is_load_action(action: Action) -> (r: bool)
    ensures
        r == is_load(action),
{
    match action {
        Action::LdRR(_, _) | Action::LdRN(_) | Action::LdAPrr(_) | Action::LdAPnn | Action::LdPrrA(_)
        | Action::LdPnnA | Action::LdRrNn(_) | Action::LdSpHl | Action::LdPnnRr(_) | Action::LdRrPnn(_)
        | Action::ExAf | Action::Exx | Action::ExDeHl | Action::ExPspHl | Action::LdBlock(_, _) => true,
        _ => false,
    }
}

fn execute_load<M: Machine>(action: Action, state: &mut State, sys: &mut M)
    requires
        action.wf(),
        is_load(action),
        old(state).index_ok(),
    ensures
        keeps_latches(*old(state), *final(state)),
        effect(action, *old(state), old(sys).memory(), old(sys).port_log(), *final(state), final(sys).memory(), final(sys).port_log()),
{
    reveal(effect);
    match action {
        Action::LdRR(dst, src) => {
            exec_ld_r_r(state, sys, dst, src);
            assert(effect(action, *old(state), old(sys).memory(), old(sys).port_log(), *state, sys.memory(), sys.port_log()));
        },
        Action::LdRN(r) => {
            exec_ld_r_n(state, sys, r);
            assert(effect(action, *old(state), old(sys).memory(), old(sys).port_log(), *state, sys.memory(), sys.port_log()));
        },
        Action::LdAPrr(rr) => {
            exec_ld_a_prr(state, sys, rr);
            assert(effect(action, *old(state), old(sys).memory(), old(sys).port_log(), *state, sys.memory(), sys.port_log()));
        },
        Action::LdAPnn => {
            exec_ld_a_pnn(state, sys);
            assert(effect(action, *old(state), old(sys).memory(), old(sys).port_log(), *state, sys.memory(), sys.port_log()));
        },
        Action::LdPrrA(rr) => {
            exec_ld_prr_a(state, sys, rr);
            assert(effect(action, *old(state), old(sys).memory(), old(sys).port_log(), *state, sys.memory(), sys.port_log()));
        },
        Action::LdPnnA => {
            exec_ld_pnn_a(state, sys);
            assert(effect(action, *old(state), old(sys).memory(), old(sys).port_log(), *state, sys.memory(), sys.port_log()));
        },
        Action::LdRrNn(rr) => {
            exec_ld_rr_nn(state, sys, rr);
            assert(effect(action, *old(state), old(sys).memory(), old(sys).port_log(), *state, sys.memory(), sys.port_log()));
        },
        Action::LdSpHl => {
            exec_ld_sp_hl(state);
            assert(effect(action, *old(state), old(sys).memory(), old(sys).port_log(), *state, sys.memory(), sys.port_log()));
        },
        Action::LdPnnRr(rr) => {
            exec_ld_pnn_rr(state, sys, rr);
            assert(effect(action, *old(state), old(sys).memory(), old(sys).port_log(), *state, sys.memory(), sys.port_log()));
        },
        Action::LdRrPnn(rr) => {
            exec_ld_rr_pnn(state, sys, rr);
            assert(effect(action, *old(state), old(sys).memory(), old(sys).port_log(), *state, sys.memory(), sys.port_log()));
        },
        Action::ExAf => {
            exec_exchange(state, true);
            assert(effect(action, *old(state), old(sys).memory(), old(sys).port_log(), *state, sys.memory(), sys.port_log()));
        },
        Action::Exx => {
            exec_exchange(state, false);
            assert(effect(action, *old(state), old(sys).memory(), old(sys).port_log(), *state, sys.memory(), sys.port_log()));
        },
        Action::ExDeHl => {
            exec_ex_de_hl(state);
            assert(effect(action, *old(state), old(sys).memory(), old(sys).port_log(), *state, sys.memory(), sys.port_log()));
        },
        Action::ExPspHl => {
            exec_ex_psp_hl(state, sys);
            assert(effect(action, *old(state), old(sys).memory(), old(sys).port_log(), *state, sys.memory(), sys.port_log()));
        },
        Action::LdBlock(inc, repeat) => {
            exec_ld_block(state, sys, inc, repeat);
            assert(effect(action, *old(state), old(sys).memory(), old(sys).port_log(), *state, sys.memory(), sys.port_log()));
        },
        _ => {},
    }
}

} // verus!
