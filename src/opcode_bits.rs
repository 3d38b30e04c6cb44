use vstd::prelude::*;
use crate::machine::Machine;
use crate::opcode::{keeps_latches, Action, Opcode, ShiftDir, ShiftMode};
use crate::registers::{bits_in_flags, hn, put_bits, undoc, Flag, Reg8};
use crate::state::State;

verus! {

/// The byte that a shift or rotation of `v` gives, with `c` the old carry.
pub open spec fn shifted(v: u8, dir: ShiftDir, mode: ShiftMode, c: bool) -> u8 {
    match dir {
        ShiftDir::Left => {
            let fill = match mode {
                ShiftMode::Arithmetic => false,
                ShiftMode::Logical => true,
                ShiftMode::Rotate => c,
                ShiftMode::RotateCarry => v >= 0x80,
            };
            ((v << 1u8) | (if fill { 1u8 } else { 0u8 })) as u8
        },
        ShiftDir::Right => {
            let fill = match mode {
                ShiftMode::Arithmetic => v >= 0x80,
                ShiftMode::Logical => false,
                ShiftMode::Rotate => c,
                ShiftMode::RotateCarry => v & 1 == 1,
            };
            ((v >> 1u8) | (if fill { 0x80u8 } else { 0u8 })) as u8
        },
    }
}

/// The bit that a shift or rotation of `v` moves into the carry.
pub open spec fn shifted_out(v: u8, dir: ShiftDir) -> bool {
    match dir {
        ShiftDir::Left => v >= 0x80,
        ShiftDir::Right => v & 1 == 1,
    }
}

/// A rotation or shift of register `r`; `fast` for the accumulator forms RLCA and the
/// like, `indexed` for the forms on (IX+d) that copy the result to `r`.
pub fn build_rot_r(r: Reg8, dir: ShiftDir, mode: ShiftMode, fast: bool, indexed: bool) -> (o: Opcode)
    ensures
        o.action == Action::Rot(r, dir, mode, fast, indexed),
{
    Opcode::new(Action::Rot(r, dir, mode, fast, indexed))
}

/// BIT n, r.
pub fn build_bit_r(n: u8, r: Reg8) -> (o: Opcode)
    ensures
        o.action == Action::Bit(n, r),
{
    Opcode::new(Action::Bit(n, r))
}

/// SET n, r (`value`) or RES n, r.
pub fn build_set_res_r(bit: u8, r: Reg8, value: bool) -> (o: Opcode)
    ensures
        o.action == Action::SetRes(bit, r, value),
{
    Opcode::new(Action::SetRes(bit, r, value))
}

/// SET or RES on (IX+d) or (IY+d), the result also copied to `r`.
pub fn build_indexed_set_res_r(bit: u8, r: Reg8, value: bool) -> (o: Opcode)
    ensures
        o.action == Action::IndexedSetRes(bit, r, value),
{
    Opcode::new(Action::IndexedSetRes(bit, r, value))
}

/// CPL.
pub fn build_cpl() -> (o: Opcode)
    ensures
        o.action == Action::Cpl,
{
    Opcode::new(Action::Cpl)
}

/// SCF.
pub fn build_scf() -> (o: Opcode)
    ensures
        o.action == Action::Scf,
{
    Opcode::new(Action::Scf)
}

/// CCF.
pub fn build_ccf() -> (o: Opcode)
    ensures
        o.action == Action::Ccf,
{
    Opcode::new(Action::Ccf)
}

/// RLD (left) or RRD (right).
pub fn build_rxd(dir: ShiftDir) -> (o: Opcode)
    ensures
        o.action == Action::Rxd(dir),
{
    Opcode::new(Action::Rxd(dir))
}

/// The value a set (`value`) or reset of bit `bit` makes of `v`.
pub open spec fn set_res_value(v: u8, bit: u8, value: bool) -> u8 {
    if value {
        v | (1u8 << bit)
    } else {
        v & !(1u8 << bit)
    }
}

/// F after a shift or rotation of `v` into `w`: C gets the bit shifted out, H and N are
/// cleared, and the accumulator forms take only bits 5 and 3 from `w` where the others
/// also take S, Z and P.
pub open spec fn rot_flags(r: crate::registers::Registers, v: u8, w: u8, dir: ShiftDir, fast: bool) -> u8 {
    let f1 = hn(put_bits(r.f(), 1, shifted_out(v, dir)), false, false, r.mode8080);
    if fast {
        undoc(f1, w, r.mode8080)
    } else {
        bits_in_flags(f1, w, r.mode8080)
    }
}

/// A shift or rotation: the operand (memory at the index address for the indexed
/// forms) becomes its shifted value, which the indexed forms also copy to `r`.
pub open spec fn rot_post(
    r: Reg8,
    dir: ShiftDir,
    mode: ShiftMode,
    fast: bool,
    indexed: bool,
    s: State,
    m: Map<u16, u8>,
    t: State,
    n: Map<u16, u8>,
) -> bool {
    let v = if indexed {
        m[s.spec_index_address()]
    } else {
        s.spec_reg8_ext(m, r)
    };
    let w = shifted(v, dir, mode, s.reg.flag(Flag::C));
    let f = rot_flags(s.reg, v, w, dir, fast);
    &&& (indexed || r == Reg8::_HL) ==> n == m.insert(s.spec_index_address(), w)
    &&& !(indexed || r == Reg8::_HL) ==> n == m
    &&& r == Reg8::_HL ==> t.reg.data@ =~= s.reg.data@.update(1, f)
    &&& r != Reg8::_HL ==> t.reg.data@ =~= s.reg.data@.update(s.spec_translate(r).spec_index(), w).update(1, f)
    &&& s.reg.same_but_data(&t.reg)
    &&& t.branch_taken == s.branch_taken
}

/// SET or RES on the operand.
pub open spec fn set_res_post(bit: u8, r: Reg8, value: bool, s: State, m: Map<u16, u8>, t: State, n: Map<u16, u8>) -> bool {
    let w = set_res_value(s.spec_reg8_ext(m, r), bit, value);
    &&& r == Reg8::_HL ==> n == m.insert(s.spec_index_address(), w) && t.reg.data@ == s.reg.data@
    &&& r != Reg8::_HL ==> n == m && t.reg.data@ =~= s.reg.data@.update(s.spec_translate(r).spec_index(), w)
    &&& s.reg.same_but_data(&t.reg)
    &&& t.branch_taken == s.branch_taken
}

/// SET or RES on memory at the index address, the result copied to `r` too.
pub open spec fn indexed_set_res_post(
    bit: u8,
    r: Reg8,
    value: bool,
    s: State,
    m: Map<u16, u8>,
    t: State,
    n: Map<u16, u8>,
) -> bool {
    let w = set_res_value(m[s.spec_index_address()], bit, value);
    &&& n == m.insert(s.spec_index_address(), w)
    &&& r == Reg8::_HL ==> t.reg.data@ == s.reg.data@
    &&& r != Reg8::_HL ==> t.reg.data@ =~= s.reg.data@.update(s.spec_translate(r).spec_index(), w)
    &&& s.reg.same_but_data(&t.reg)
    &&& t.branch_taken == s.branch_taken
}

/// Registers and memory kept but for F, which becomes `f`.
pub open spec fn only_f(s: State, m: Map<u16, u8>, t: State, n: Map<u16, u8>, f: u8) -> bool {
    &&& t.reg.data@ =~= s.reg.data@.update(1, f)
    &&& s.reg.same_but_data(&t.reg)
    &&& t.branch_taken == s.branch_taken
    &&& n == m
}

fn shift_value(v: u8, dir: ShiftDir, mode: ShiftMode, c: bool) -> (r: (u8, bool))
    ensures
        r.0 == shifted(v, dir, mode, c),
        r.1 == shifted_out(v, dir),
{
    match dir {
        ShiftDir::Left => {
            let upper_bit = v >= 0x80;
            let fill = match mode {
                ShiftMode::Arithmetic => false,
                ShiftMode::Logical => true,
                ShiftMode::Rotate => c,
                ShiftMode::RotateCarry => upper_bit,
            };
            (((v << 1u8) | (if fill { 1u8 } else { 0u8 })) as u8, upper_bit)
        },
        ShiftDir::Right => {
            let lower_bit = (v & 1) == 1;
            let fill = match mode {
                ShiftMode::Arithmetic => v >= 0x80,
                ShiftMode::Logical => false,
                ShiftMode::Rotate => c,
                ShiftMode::RotateCarry => lower_bit,
            };
            (((v >> 1u8) | (if fill { 0x80u8 } else { 0u8 })) as u8, lower_bit)
        },
    }
}

/// Shifts or rotates the operand; the carry gets the bit shifted out.
#[verifier::rlimit(60)]
pub fn exec_rot<M: Machine>(
    state: &mut State,
    sys: &mut M,
    r: Reg8,
    dir: ShiftDir,
    mode: ShiftMode,
    fast: bool,
    indexed: bool,
)
    requires
        old(state).index_ok(),
        r != Reg8::F,
    ensures
        keeps_latches(*old(state), *final(state)),
        rot_post(r, dir, mode, fast, indexed, *old(state), old(sys).memory(), *final(state), final(sys).memory()),
        final(sys).port_log() == old(sys).port_log(),
{
    let mut v = if indexed {
        state.reg8_ext(sys, Reg8::_HL)
    } else {
        state.reg8_ext(sys, r)
    };
    let c = state.reg.get_flag(Flag::C);
    let (w, carry) = shift_value(v, dir, mode, c);
    v = w;
    if indexed && r != Reg8::_HL {
        state.set_reg(sys, Reg8::_HL, v);
    }
    state.set_reg(sys, r, v);
    state.reg.put_flag(Flag::C, carry);
    state.reg.update_hn_flags(false, false);
    if fast {
        state.reg.update_undocumented_flags(v);
    } else {
        state.reg.update_bits_in_flags(v);
    }
}

/// F after BIT n on `v`, with bits 5 and 3 taken from `undoc_src`.
pub open spec fn bit_flags(f: u8, v: u8, n: u8, undoc_src: u8, mode8080: bool) -> u8 {
    let z = v & (1u8 << n);
    undoc(
        put_bits(put_bits(put_bits(put_bits(put_bits(f, 128, z & 0x80 != 0), 64, z == 0), 4, z == 0), 16, true), 2, false),
        undoc_src,
        mode8080,
    )
}

/// BIT n, r: Z and P tell whether the bit is clear, S whether bit 7 is tested and set,
/// H set, N clear, C kept; bits 5 and 3 from the operand, or from the high byte of the
/// address for (HL) and (IX+d).
pub fn exec_bit<M: Machine>(state: &mut State, sys: &mut M, n: u8, r: Reg8)
    requires
        n < 8,
        old(state).index_ok(),
    ensures
        keeps_latches(*old(state), *final(state)),
        final(sys).port_log() == old(sys).port_log(),
        only_f(
            *old(state),
            old(sys).memory(),
            *final(state),
            final(sys).memory(),
            bit_flags(
                old(state).reg.f(),
                old(state).spec_reg8_ext(old(sys).memory(), r),
                n,
                if r == Reg8::_HL {
                    (old(state).spec_index_address() / 256) as u8
                } else {
                    old(state).spec_reg8_ext(old(sys).memory(), r)
                },
                old(state).reg.mode8080,
            ),
        ),
{
    let v = state.reg8_ext(sys, r);
    let z = v & (1u8 << n);
    state.reg.put_flag(Flag::S, (z & 0x80) != 0);
    state.reg.put_flag(Flag::Z, z == 0);
    state.reg.put_flag(Flag::P, z == 0);
    state.reg.set_flag(Flag::H);
    state.reg.clear_flag(Flag::N);
    if r == Reg8::_HL {
        let address = state.index_address();
        state.reg.update_undocumented_flags((address / 256) as u8);
    } else {
        state.reg.update_undocumented_flags(v);
    }
}

/// SET n, r (`value`) or RES n, r.
pub fn exec_set_res<M: Machine>(state: &mut State, sys: &mut M, bit: u8, r: Reg8, value: bool)
    requires
        bit < 8,
        old(state).index_ok(),
    ensures
        keeps_latches(*old(state), *final(state)),
        final(sys).port_log() == old(sys).port_log(),
        set_res_post(bit, r, value, *old(state), old(sys).memory(), *final(state), final(sys).memory()),
{
    let mut v = state.reg8_ext(sys, r);
    if value {
        v = v | (1u8 << bit);
    } else {
        v = v & !(1u8 << bit);
    }
    state.set_reg(sys, r, v);
}

/// SET or RES on (IX+d) or (IY+d); the result is also written to `r` unless `r` is (HL).
pub fn exec_indexed_set_res<M: Machine>(state: &mut State, sys: &mut M, bit: u8, r: Reg8, value: bool)
    requires
        bit < 8,
        old(state).index_ok(),
    ensures
        keeps_latches(*old(state), *final(state)),
        final(sys).port_log() == old(sys).port_log(),
        indexed_set_res_post(bit, r, value, *old(state), old(sys).memory(), *final(state), final(sys).memory()),
{
    let mut v = state.reg8_ext(sys, Reg8::_HL);
    if value {
        v = v | (1u8 << bit);
    } else {
        v = v & !(1u8 << bit);
    }
    state.set_reg(sys, Reg8::_HL, v);
    if r != Reg8::_HL {
        state.set_reg(sys, r, v);
    }
}

/// CPL: A becomes its complement; H and N set.
pub fn exec_cpl(state: &mut State)
    ensures
        keeps_latches(*old(state), *final(state)),
        final(state).reg.data@ =~= old(state).reg.data@.update(0, !old(state).reg.reg8(Reg8::A)).update(
            1,
            undoc(hn(old(state).reg.f(), true, true, old(state).reg.mode8080), !old(state).reg.reg8(Reg8::A), old(state).reg.mode8080),
        ),
        old(state).reg.same_but_data(&final(state).reg),
        final(state).branch_taken == old(state).branch_taken,
{
    let v = !state.reg.a();
    state.reg.set_a(v);
    state.reg.update_hn_flags(true, true);
    state.reg.update_undocumented_flags(v);
}

/// F after SCF (`set`) or CCF with accumulator `a`.
pub open spec fn carry_op_flags(f: u8, a: u8, set: bool, mode8080: bool) -> u8 {
    let c = f & 1 != 0;
    if set {
        undoc(hn(put_bits(f, 1, true), false, false, mode8080), a, mode8080)
    } else {
        undoc(hn(put_bits(f, 1, !c), c, false, mode8080), a, mode8080)
    }
}

/// SCF (`set`): C set; or CCF: C complemented and H gets the old C.
pub fn exec_scf_ccf(state: &mut State, set: bool)
    ensures
        keeps_latches(*old(state), *final(state)),
        old(state).reg.with_f(
            &final(state).reg,
            carry_op_flags(old(state).reg.f(), old(state).reg.reg8(Reg8::A), set, old(state).reg.mode8080),
        ),
        final(state).branch_taken == old(state).branch_taken,
{
    let a = state.reg.a();
    let c = state.reg.get_flag(Flag::C);
    if set {
        state.reg.set_flag(Flag::C);
        state.reg.update_hn_flags(false, false);
    } else {
        state.reg.put_flag(Flag::C, !c);
        state.reg.update_hn_flags(c, false);
    }
    state.reg.update_undocumented_flags(a);
}

/// The accumulator and the memory byte after RLD (left) or RRD (right) on `a` and `m`.
pub open spec fn rxd_result(a: u8, m: u8, dir: ShiftDir) -> (u8, u8) {
    match dir {
        ShiftDir::Left => (((a & 0xf0) | (m >> 4u8)) as u8, ((m << 4u8) | (a & 0x0f)) as u8),
        ShiftDir::Right => (((a & 0xf0) | (m & 0x0f)) as u8, ((a << 4u8) | (m >> 4u8)) as u8),
    }
}

/// RLD or RRD: A and (HL) as `rxd_result` gives them, flags from the new A.
pub open spec fn rxd_post(dir: ShiftDir, s: State, m: Map<u16, u8>, t: State, n: Map<u16, u8>) -> bool {
    let res = rxd_result(s.reg.reg8(Reg8::A), m[s.spec_index_address()], dir);
    &&& t.reg.data@ =~= s.reg.data@.update(0, res.0).update(1, bits_in_flags(s.reg.f(), res.0, s.reg.mode8080))
    &&& n == m.insert(s.spec_index_address(), res.1)
    &&& s.reg.same_but_data(&t.reg)
    &&& t.branch_taken == s.branch_taken
}

/// RLD or RRD: rotates the low digit of A and the two digits of (HL) as one 12 bit value.
pub fn exec_rxd<M: Machine>(state: &mut State, sys: &mut M, dir: ShiftDir)
    requires
        old(state).index_ok(),
    ensures
        keeps_latches(*old(state), *final(state)),
        final(sys).port_log() == old(sys).port_log(),
        rxd_post(dir, *old(state), old(sys).memory(), *final(state), final(sys).memory()),
{
    let mut a = state.reg.a();
    let mut phl = state.reg8_ext(sys, Reg8::_HL);
    match dir {
        ShiftDir::Left => {
            let temp = (a & 0xf0) | (phl >> 4u8);
            phl = ((phl << 4u8) | (a & 0x0f)) as u8;
            a = temp;
        },
        ShiftDir::Right => {
            let temp = (a & 0xf0) | (phl & 0x0f);
            phl = ((a << 4u8) | (phl >> 4u8)) as u8;
            a = temp;
        },
    }
    state.reg.set_a(a);
    state.set_reg(sys, Reg8::_HL, phl);
    state.reg.update_bits_in_flags(a);
}

} // verus!
