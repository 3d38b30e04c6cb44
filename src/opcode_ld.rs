use vstd::prelude::*;
use crate::machine::{next_addr, peek16, poke16, word_at, Machine};
use crate::opcode::{keeps_latches, Action, Opcode};
use crate::opcode_io::{block_repeat, moved};
use crate::registers::{hn, put_bits, sz53, undoc_block, Flag, Reg16, Reg8, Registers};
use crate::state::State;

verus! {

/// LD r, r'.
pub fn build_ld_r_r(dst: Reg8, src: Reg8) -> (o: Opcode)
    ensures
        o.action == Action::LdRR(dst, src),
{
    Opcode::new(Action::LdRR(dst, src))
}

/// LD r, n.
pub fn build_ld_r_n(r: Reg8) -> (o: Opcode)
    ensures
        o.action == Action::LdRN(r),
{
    Opcode::new(Action::LdRN(r))
}

/// LD A, (rr).
pub fn build_ld_a_prr(rr: Reg16) -> (o: Opcode)
    ensures
        o.action == Action::LdAPrr(rr),
{
    Opcode::new(Action::LdAPrr(rr))
}

/// LD A, (nn).
pub fn build_ld_a_pnn() -> (o: Opcode)
    ensures
        o.action == Action::LdAPnn,
{
    Opcode::new(Action::LdAPnn)
}

/// LD (rr), A.
pub fn build_ld_prr_a(rr: Reg16) -> (o: Opcode)
    ensures
        o.action == Action::LdPrrA(rr),
{
    Opcode::new(Action::LdPrrA(rr))
}

/// LD (nn), A.
pub fn build_ld_pnn_a() -> (o: Opcode)
    ensures
        o.action == Action::LdPnnA,
{
    Opcode::new(Action::LdPnnA)
}

/// LD rr, nn.
pub fn build_ld_rr_nn(rr: Reg16) -> (o: Opcode)
    ensures
        o.action == Action::LdRrNn(rr),
{
    Opcode::new(Action::LdRrNn(rr))
}

/// LD SP, HL.
pub fn build_ld_sp_hl() -> (o: Opcode)
    ensures
        o.action == Action::LdSpHl,
{
    Opcode::new(Action::LdSpHl)
}

/// LD (nn), rr.
pub fn build_ld_pnn_rr(rr: Reg16) -> (o: Opcode)
    ensures
        o.action == Action::LdPnnRr(rr),
{
    Opcode::new(Action::LdPnnRr(rr))
}

/// LD rr, (nn).
pub fn build_ld_rr_pnn(rr: Reg16) -> (o: Opcode)
    ensures
        o.action == Action::LdRrPnn(rr),
{
    Opcode::new(Action::LdRrPnn(rr))
}

/// EX AF, AF'.
pub fn build_ex_af() -> (o: Opcode)
    ensures
        o.action == Action::ExAf,
{
    Opcode::new(Action::ExAf)
}

/// EXX.
pub fn build_exx() -> (o: Opcode)
    ensures
        o.action == Action::Exx,
{
    Opcode::new(Action::Exx)
}

/// EX DE, HL.
pub fn build_ex_de_hl() -> (o: Opcode)
    ensures
        o.action == Action::ExDeHl,
{
    Opcode::new(Action::ExDeHl)
}

/// EX (SP), HL.
pub fn build_ex_psp_hl() -> (o: Opcode)
    ensures
        o.action == Action::ExPspHl,
{
    Opcode::new(Action::ExPspHl)
}

/// LDI, LDD, LDIR or LDDR.
pub fn build_ld_block(inc: bool, repeat: bool) -> (o: Opcode)
    ensures
        o.action == Action::LdBlock(inc, repeat),
{
    Opcode::new(Action::LdBlock(inc, repeat))
}

/// Registers kept but for the bytes of `d`, memory and the branch mark kept.
pub open spec fn data_only(s: State, m: Map<u16, u8>, t: State, n: Map<u16, u8>, d: Seq<u8>) -> bool {
    &&& t.reg.data@ =~= d
    &&& s.reg.same_but_data(&t.reg)
    &&& t.branch_taken == s.branch_taken
    &&& n == m
}

/// LD r, r': with (HL) on one side, memory at the index address and the other side
/// untranslated; otherwise both registers under the active index. LD A, I and LD A, R
/// also take S, Z, bits 5 and 3 from the value, clear H and N, and copy IFF2 to P.
pub open spec fn ld_r_r_post(dst: Reg8, src: Reg8, s: State, m: Map<u16, u8>, t: State, n: Map<u16, u8>) -> bool {
    let v = if dst == Reg8::_HL {
        s.reg.reg8(src)
    } else if src == Reg8::_HL {
        m[s.spec_index_address()]
    } else {
        s.reg.reg8(s.spec_translate(src))
    };
    let special = dst == Reg8::A && (src == Reg8::I || src == Reg8::R);
    let f = put_bits(hn(sz53(s.reg.f(), v, s.reg.mode8080), false, false, s.reg.mode8080), 4, s.reg.iff2);
    &&& dst == Reg8::_HL ==> n == m.insert(s.spec_index_address(), v) && t.reg.data@ == s.reg.data@
    &&& src == Reg8::_HL ==> n == m && t.reg.data@ =~= s.reg.data@.update(dst.spec_index(), v)
    &&& dst != Reg8::_HL && src != Reg8::_HL && !special ==> n == m && t.reg.data@ =~= s.reg.data@.update(
        s.spec_translate(dst).spec_index(),
        v,
    )
    &&& special ==> n == m && t.reg.data@ =~= s.reg.data@.update(0, v).update(1, f)
    &&& s.reg.same_but_data(&t.reg)
    &&& t.branch_taken == s.branch_taken
}

/// LD r, r'.
pub fn exec_ld_r_r<M: Machine>(state: &mut State, sys: &mut M, dst: Reg8, src: Reg8)
    requires
        !(dst == Reg8::_HL && src == Reg8::_HL),
        old(state).index_ok(),
    ensures
        keeps_latches(*old(state), *final(state)),
        ld_r_r_post(dst, src, *old(state), old(sys).memory(), *final(state), final(sys).memory()),
        final(sys).port_log() == old(sys).port_log(),
{
    let value = if dst == Reg8::_HL {
        state.reg.get8(src)
    } else {
        state.reg8_ext(sys, src)
    };
    if src == Reg8::_HL {
        state.reg.set8(dst, value);
    } else {
        state.set_reg(sys, dst, value);
    }
    if dst == Reg8::A && (src == Reg8::I || src == Reg8::R) {
        state.reg.update_sz53_flags(value);
        state.reg.update_hn_flags(false, false);
        state.reg.update_p_flag_with_iff2();
    }
}

/// LD r, n: the byte at PC goes to `r` as the active index translates it.
pub fn exec_ld_r_n<M: Machine>(state: &mut State, sys: &mut M, r: Reg8)
    requires
        old(state).index_ok(),
    ensures
        keeps_latches(*old(state), *final(state)),
        final(sys).port_log() == old(sys).port_log(),
        final(state).branch_taken == old(state).branch_taken,
        final(state).reg == (Registers { data: final(state).reg.data, pc: next_addr(old(state).reg.pc), ..old(state).reg }),
        r != Reg8::_HL ==> final(state).reg.data@ == old(state).reg.data@.update(
            old(state).spec_translate(r).spec_index(),
            old(sys).memory()[old(state).reg.pc],
        ) && final(sys).memory() == old(sys).memory(),
        r == Reg8::_HL ==> final(sys).memory() == old(sys).memory().insert(
            old(state).spec_index_address(),
            old(sys).memory()[old(state).reg.pc],
        ) && final(state).reg.data == old(state).reg.data,
{
    let value = state.advance_pc(sys);
    state.set_reg(sys, r, value);
}

/// LD A, (rr).
pub fn exec_ld_a_prr<M: Machine>(state: &mut State, sys: &mut M, rr: Reg16)
    ensures
        keeps_latches(*old(state), *final(state)),
        final(sys).port_log() == old(sys).port_log(),
        data_only(*old(state), old(sys).memory(), *final(state), final(sys).memory(), old(state).reg.data@.update(0, old(sys).memory()[old(state).reg.reg16(rr)])),
{
    let address = state.reg.get16(rr);
    let value = sys.peek(address);
    state.reg.set_a(value);
}

/// LD A, (nn).
pub fn exec_ld_a_pnn<M: Machine>(state: &mut State, sys: &mut M)
    ensures
        keeps_latches(*old(state), *final(state)),
        final(sys).port_log() == old(sys).port_log(),
        final(sys).memory() == old(sys).memory(),
        final(state).branch_taken == old(state).branch_taken,
        final(state).reg.data@ =~= old(state).reg.data@.update(0, old(sys).memory()[word_at(old(sys).memory(), old(state).reg.pc)]),
        final(state).reg == (Registers { data: final(state).reg.data, pc: next_addr(next_addr(old(state).reg.pc)), ..old(state).reg }),
{
    let address = state.advance_immediate16(sys);
    let value = sys.peek(address);
    state.reg.set_a(value);
}

/// LD (rr), A.
pub fn exec_ld_prr_a<M: Machine>(state: &mut State, sys: &mut M, rr: Reg16)
    ensures
        keeps_latches(*old(state), *final(state)),
        final(sys).port_log() == old(sys).port_log(),
        *final(state) == *old(state),
        final(sys).memory() == old(sys).memory().insert(old(state).reg.reg16(rr), old(state).reg.reg8(Reg8::A)),
{
    let value = state.reg.a();
    let address = state.reg.get16(rr);
    sys.poke(address, value);
}

/// LD (nn), A.
pub fn exec_ld_pnn_a<M: Machine>(state: &mut State, sys: &mut M)
    ensures
        keeps_latches(*old(state), *final(state)),
        final(sys).port_log() == old(sys).port_log(),
        *final(state) == (State { reg: Registers { pc: next_addr(next_addr(old(state).reg.pc)), ..old(state).reg }, ..*old(state) }),
        final(sys).memory() == old(sys).memory().insert(
            word_at(old(sys).memory(), old(state).reg.pc),
            old(state).reg.reg8(Reg8::A),
        ),
{
    let value = state.reg.a();
    let address = state.advance_immediate16(sys);
    sys.poke(address, value);
}

/// The register bytes with the pair `rr` set to `v`.
pub open spec fn with_pair(d: Seq<u8>, rr: Reg16, v: u16) -> Seq<u8> {
    d.update(rr.spec_index(), (v / 256) as u8).update(rr.spec_index() + 1, (v % 256) as u8)
}

/// LD rr, nn, with HL standing for the active index.
pub fn exec_ld_rr_nn<M: Machine>(state: &mut State, sys: &mut M, rr: Reg16)
    requires
        rr != Reg16::AF,
        old(state).index_ok(),
    ensures
        keeps_latches(*old(state), *final(state)),
        final(sys).port_log() == old(sys).port_log(),
        final(sys).memory() == old(sys).memory(),
        final(state).branch_taken == old(state).branch_taken,
        final(state).reg.data@ == with_pair(old(state).reg.data@, old(state).spec_translate16(rr), word_at(old(sys).memory(), old(state).reg.pc)),
        final(state).reg == (Registers { data: final(state).reg.data, pc: next_addr(next_addr(old(state).reg.pc)), ..old(state).reg }),
{
    let value = state.advance_immediate16(sys);
    state.set_reg16(rr, value);
}

/// LD SP, HL, with HL standing for the active index.
pub fn exec_ld_sp_hl(state: &mut State)
    ensures
        keeps_latches(*old(state), *final(state)),
        final(state).branch_taken == old(state).branch_taken,
        final(state).reg.data@ == with_pair(old(state).reg.data@, Reg16::SP, old(state).reg.reg16(old(state).index)),
        old(state).reg.same_but_data(&final(state).reg),
{
    let value = state.reg16_ext(Reg16::HL);
    state.set_reg16(Reg16::SP, value);
}

/// LD (nn), rr, low byte first.
pub fn exec_ld_pnn_rr<M: Machine>(state: &mut State, sys: &mut M, rr: Reg16)
    ensures
        keeps_latches(*old(state), *final(state)),
        final(sys).port_log() == old(sys).port_log(),
        *final(state) == (State { reg: Registers { pc: next_addr(next_addr(old(state).reg.pc)), ..old(state).reg }, ..*old(state) }),
        final(sys).memory() == old(sys).memory().insert(
            word_at(old(sys).memory(), old(state).reg.pc),
            (old(state).reg.reg16(old(state).spec_translate16(rr)) % 256) as u8,
        ).insert(
            next_addr(word_at(old(sys).memory(), old(state).reg.pc)),
            (old(state).reg.reg16(old(state).spec_translate16(rr)) / 256) as u8,
        ),
{
    let address = state.advance_immediate16(sys);
    let value = state.reg16_ext(rr);
    poke16(sys, address, value);
}

/// LD rr, (nn).
pub fn exec_ld_rr_pnn<M: Machine>(state: &mut State, sys: &mut M, rr: Reg16)
    requires
        rr != Reg16::AF,
        old(state).index_ok(),
    ensures
        keeps_latches(*old(state), *final(state)),
        final(sys).port_log() == old(sys).port_log(),
        final(sys).memory() == old(sys).memory(),
        final(state).branch_taken == old(state).branch_taken,
        final(state).reg.data@ == with_pair(
            old(state).reg.data@,
            old(state).spec_translate16(rr),
            word_at(old(sys).memory(), word_at(old(sys).memory(), old(state).reg.pc)),
        ),
        final(state).reg == (Registers { data: final(state).reg.data, pc: next_addr(next_addr(old(state).reg.pc)), ..old(state).reg }),
{
    let address = state.advance_immediate16(sys);
    let value = peek16(sys, address);
    state.set_reg16(rr, value);
}

/// EX AF, AF' (`af`), or EXX, which exchanges BC, DE and HL with the alternate bank.
pub fn exec_exchange(state: &mut State, af: bool)
    ensures
        keeps_latches(*old(state), *final(state)),
        final(state).branch_taken == old(state).branch_taken,
        final(state).reg == (Registers { data: final(state).reg.data, shadow: final(state).reg.shadow, ..old(state).reg }),
        forall|i: int|
            0 <= i < 16 ==> if (af && i < 2) || (!af && 2 <= i < 8) {
                #[trigger] final(state).reg.data[i] == old(state).reg.shadow[i] && final(state).reg.shadow[i]
                    == old(state).reg.data[i]
            } else {
                final(state).reg.data[i] == old(state).reg.data[i] && final(state).reg.shadow[i]
                    == old(state).reg.shadow[i]
            },
{
    if af {
        state.reg.swap(Reg16::AF);
    } else {
        state.reg.swap(Reg16::BC);
        state.reg.swap(Reg16::DE);
        state.reg.swap(Reg16::HL);
    }
}

/// EX DE, HL; never on IX or IY.
pub fn exec_ex_de_hl(state: &mut State)
    ensures
        keeps_latches(*old(state), *final(state)),
        final(state).branch_taken == old(state).branch_taken,
        final(state).reg.data@ =~= old(state).reg.data@.update(4, old(state).reg.data[6]).update(5, old(state).reg.data[7]).update(
            6,
            old(state).reg.data[4],
        ).update(7, old(state).reg.data[5]),
        old(state).reg.same_but_data(&final(state).reg),
{
    let temp = state.reg.get16(Reg16::HL);
    let de = state.reg.get16(Reg16::DE);
    state.reg.set16(Reg16::HL, de);
    state.reg.set16(Reg16::DE, temp);
    assert(final(state).reg.data@ =~= old(state).reg.data@.update(4, old(state).reg.data[6]).update(5, old(state).reg.data[7]).update(
        6,
        old(state).reg.data[4],
    ).update(7, old(state).reg.data[5])) by {
        let d = old(state).reg.data;
        assert(((d[6] as int * 256 + d[7] as int) as u16 / 256) as u8 == d[6]);
        assert(((d[6] as int * 256 + d[7] as int) as u16 % 256) as u8 == d[7]);
        assert(((d[4] as int * 256 + d[5] as int) as u16 / 256) as u8 == d[4]);
        assert(((d[4] as int * 256 + d[5] as int) as u16 % 256) as u8 == d[5]);
    }
}

/// EX (SP), HL, with HL standing for the active index.
pub fn exec_ex_psp_hl<M: Machine>(state: &mut State, sys: &mut M)
    requires
        old(state).index_ok(),
    ensures
        keeps_latches(*old(state), *final(state)),
        final(sys).port_log() == old(sys).port_log(),
        final(state).branch_taken == old(state).branch_taken,
        final(state).reg.data@ == with_pair(old(state).reg.data@, old(state).index, word_at(old(sys).memory(), old(state).reg.reg16(Reg16::SP))),
        old(state).reg.same_but_data(&final(state).reg),
        final(sys).memory() == old(sys).memory().insert(
            old(state).reg.reg16(Reg16::SP),
            (old(state).reg.reg16(old(state).index) % 256) as u8,
        ).insert(
            next_addr(old(state).reg.reg16(Reg16::SP)),
            (old(state).reg.reg16(old(state).index) / 256) as u8,
        ),
{
    let address = state.reg.get16(Reg16::SP);
    let temp = state.reg16_ext(Reg16::HL);
    let value = peek16(sys, address);
    state.set_reg16(Reg16::HL, value);
    poke16(sys, address, temp);
}

/// One step of a block load: (HL) copied to (DE), DE and HL moved, BC decremented; bits
/// 5 and 3 from bits 1 and 3 of the byte plus A, H and N cleared, P/V for BC not 0; the
/// repeating forms go on while BC is not 0.
pub open spec fn ld_block_post(inc: bool, repeat: bool, s: State, m: Map<u16, u8>, t: State, n: Map<u16, u8>) -> bool {
    let hl = s.reg.reg16(Reg16::HL);
    let de = s.reg.reg16(Reg16::DE);
    let v = m[hl];
    let bc = ((s.reg.reg16(Reg16::BC) + 0xffff) % 0x10000) as u16;
    let k = ((v + s.reg.reg8(Reg8::A)) % 256) as u8;
    let f = put_bits(put_bits(put_bits(undoc_block(s.reg.f(), k, s.reg.mode8080), 2, false), 16, false), 4, bc != 0);
    &&& n == m.insert(de, v)
    &&& t.reg.data@ =~= with_pair(with_pair(with_pair(s.reg.data@, Reg16::DE, moved(de, inc)), Reg16::HL, moved(hl, inc)), Reg16::BC, bc).update(1, f)
    &&& t.reg == (Registers { data: t.reg.data, pc: t.reg.pc, ..s.reg })
    &&& block_repeat(s, t, repeat && bc != 0)
}

/// A block load counts BC through zero: from BC = 0 it leaves 0xffff and the repeating
/// form goes on; from BC = 1 it leaves 0 and stops.
pub proof fn lemma_ld_block_wraps(inc: bool, s: State, m: Map<u16, u8>, t: State, n: Map<u16, u8>)
    requires
        ld_block_post(inc, true, s, m, t, n),
    ensures
        s.reg.reg16(Reg16::BC) == 0 ==> t.reg.reg16(Reg16::BC) == 0xffff && t.reg.pc == ((s.reg.pc + 0xfffe)
            % 0x10000) as u16 && t.branch_taken,
        s.reg.reg16(Reg16::BC) == 1 ==> t.reg.reg16(Reg16::BC) == 0 && t.reg.pc == s.reg.pc,
{
    let bc = ((s.reg.reg16(Reg16::BC) + 0xffff) % 0x10000) as u16;
    assert(t.reg.data[2] == (bc / 256) as u8 && t.reg.data[3] == (bc % 256) as u8);
}

/// One step of LDI, LDD, LDIR or LDDR.
pub fn exec_ld_block<M: Machine>(state: &mut State, sys: &mut M, inc: bool, repeat: bool)
    ensures
        keeps_latches(*old(state), *final(state)),
        final(sys).port_log() == old(sys).port_log(),
        ld_block_post(inc, repeat, *old(state), old(sys).memory(), *final(state), final(sys).memory()),
{
    let hl = state.reg.get16(Reg16::HL);
    let value = sys.peek(hl);
    let address = state.reg.get16(Reg16::DE);
    sys.poke(address, value);
    state.reg.inc_dec16(Reg16::DE, inc);
    state.reg.inc_dec16(Reg16::HL, inc);
    let bc = state.reg.inc_dec16(Reg16::BC, false);
    let n = value.wrapping_add(state.reg.a());
    state.reg.update_undocumented_flags_block(n);
    state.reg.clear_flag(Flag::N);
    state.reg.clear_flag(Flag::H);
    assert(!2u8 == 0xfdu8 && !16u8 == 0xefu8) by (bit_vector);
    state.reg.put_flag(Flag::P, bc != 0);
    if repeat && bc != 0 {
        state.set_branch_taken();
        let pc = state.reg.pc().wrapping_sub(2);
        state.reg.set_pc(pc);
    }
}

} // verus!
