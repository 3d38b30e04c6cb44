use vstd::prelude::*;
use crate::registers::{add16_flags, arith_flags, logic_flags, put_bits, undoc, Flag, Registers};

verus! {

/// The carry flag as a number.
pub open spec fn carry_in(r: Registers) -> int {
    if r.flag(Flag::C) {
        1
    } else {
        0
    }
}

/// `x` wrapped to 16 bits.
pub open spec fn wrap16(x: int) -> u16 {
    (((x % 0x10000) + 0x10000) % 0x10000) as u16
}

/// `x` wrapped to 32 bits.
pub open spec fn wrap32(x: int) -> u32 {
    (((x % 0x1_0000_0000) + 0x1_0000_0000) % 0x1_0000_0000) as u32
}

/// Which 8 bit operation an ALU instruction applies to A and its operand.
#[derive(Copy, Clone, Debug, PartialEq, Eq, Structural)]
pub enum AluOp {
    /// ADD
    Add,
    /// ADC
    Adc,
    /// SUB
    Sub,
    /// SBC
    Sbc,
    /// AND
    And,
    /// XOR
    Xor,
    /// OR
    Or,
    /// CP
    Cp,
}

/// The value that an ALU operation leaves in A.
pub open spec fn alu_result(op: AluOp, r: Registers, a: u8, b: u8) -> u8 {
    match op {
        AluOp::Add => ((a + b) % 256) as u8,
        AluOp::Adc => ((a + b + carry_in(r)) % 256) as u8,
        AluOp::Sub => wrap16(a - b) as u8,
        AluOp::Sbc => wrap16(a - b - carry_in(r)) as u8,
        AluOp::And => a & b,
        AluOp::Xor => a ^ b,
        AluOp::Or => a | b,
        AluOp::Cp => a,
    }
}

/// The flags that an ALU operation leaves.
pub open spec fn alu_flags(op: AluOp, r: Registers, a: u8, b: u8) -> u8 {
    let f = r.f();
    let m = r.mode8080;
    match op {
        AluOp::Add => arith_flags(put_bits(f, 1, false), a as u16, b as u16, (a + b) as u16, false, true, m),
        AluOp::Adc => arith_flags(f, a as u16, b as u16, (a + b + carry_in(r)) as u16, false, true, m),
        AluOp::Sub => arith_flags(put_bits(f, 1, false), a as u16, b as u16, wrap16(a - b), true, true, m),
        AluOp::Sbc => arith_flags(f, a as u16, b as u16, wrap16(a - b - carry_in(r)), true, true, m),
        AluOp::And => logic_flags(f, a, b, a & b, true, m),
        AluOp::Xor => logic_flags(f, a, b, a ^ b, false, m),
        AluOp::Or => logic_flags(f, a, b, a | b, false, m),
        AluOp::Cp => undoc(
            arith_flags(put_bits(f, 1, false), a as u16, b as u16, wrap16(a - b), true, true, m),
            b,
            m,
        ),
    }
}

/// ADD: `a + b`, with the carry cleared first.
pub fn operator_add(reg: &mut Registers, a: u8, b: u8) -> (r: u8)
    ensures
        r == alu_result(AluOp::Add, *old(reg), a, b),
        old(reg).with_f(&*final(reg), alu_flags(AluOp::Add, *old(reg), a, b)),
{
    let ghost f = reg.f();
    reg.clear_flag(Flag::C);
    assert(!1u8 == 0xfeu8 && (f & 0xfe) & 1 == 0) by (bit_vector);
    let r = operator_adc(reg, a, b);
    assert(final(reg).data@ =~= old(reg).data@.update(1, final(reg).data[1]));
    r
}

/// ADC: `a + b + carry`.
pub fn operator_adc(reg: &mut Registers, a: u8, b: u8) -> (r: u8)
    ensures
        r == alu_result(AluOp::Adc, *old(reg), a, b),
        old(reg).with_f(&*final(reg), alu_flags(AluOp::Adc, *old(reg), a, b)),
{
    let aa = a as u16;
    let bb = b as u16;
    let mut vv = aa + bb;
    if reg.get_flag(Flag::C) {
        vv = vv + 1;
    }
    reg.update_arithmetic_flags(aa, bb, vv, false, true);
    (vv % 256) as u8
}

/// 16 bit ADD of ADD HL, rr.
pub fn operator_add16(reg: &mut Registers, aa: u16, bb: u16) -> (r: u16)
    ensures
        r == ((aa + bb) % 0x10000) as u16,
        old(reg).with_f(&*final(reg), add16_flags(old(reg).f(), aa as u32, bb as u32, (aa + bb) as u32, old(reg).mode8080)),
{
    let aaaa = aa as u32;
    let bbbb = bb as u32;
    let vvvv = aaaa + bbbb;
    reg.update_add16_flags(aaaa, bbbb, vvvv);
    (vvvv % 0x10000) as u16
}

/// Bits 8 and up of `x`, as used for the flags of 16 bit ADC and SBC.
pub open spec fn high(x: u32) -> u16 {
    (x >> 8u32) as u16
}

/// Flags of a 16 bit ADC or SBC with raw result `v`: as 8 bit arithmetic on the high
/// bytes, with Z from the whole 16 bit result.
pub open spec fn arith16_flags(r: Registers, aa: u16, bb: u16, v: u32, neg: bool) -> u8 {
    put_bits(
        arith_flags(r.f(), high(aa as u32), high(bb as u32), high(v), neg, true, r.mode8080),
        64,
        (v % 0x10000) == 0,
    )
}

/// 16 bit ADC of ADC HL, rr.
pub fn operator_adc16(reg: &mut Registers, aa: u16, bb: u16) -> (r: u16)
    ensures
        r == wrap16(aa + bb + carry_in(*old(reg))),
        old(reg).with_f(&*final(reg), arith16_flags(*old(reg), aa, bb, (aa + bb + carry_in(*old(reg))) as u32, false)),
{
    let aaaa = aa as u32;
    let bbbb = bb as u32;
    let mut vvvv = aaaa + bbbb;
    if reg.get_flag(Flag::C) {
        vvvv = vvvv + 1;
    }
    let vv = (vvvv % 0x10000) as u16;
    reg.update_arithmetic_flags_16(aaaa, bbbb, vvvv, false);
    reg.put_flag(Flag::Z, vv == 0);
    vv
}

/// 16 bit SBC of SBC HL, rr.
#[verifier::rlimit(40)]
pub fn operator_sbc16(reg: &mut Registers, aa: u16, bb: u16) -> (r: u16)
    ensures
        r == wrap16(aa - bb - carry_in(*old(reg))),
        old(reg).with_f(&*final(reg), arith16_flags(*old(reg), aa, bb, wrap32(aa - bb - carry_in(*old(reg))), true)),
{
    let aaaa = aa as u32;
    let bbbb = bb as u32;
    let c: u64 = if reg.get_flag(Flag::C) { 1 } else { 0 };
    let vvvv = ((aaaa as u64 + 0x1_0000_0000 - bbbb as u64 - c) % 0x1_0000_0000) as u32;
    assert(vvvv == wrap32(aa - bb - c));
    let vv = (vvvv % 0x10000) as u16;
    assert(vv == wrap16(aa - bb - c));
    reg.update_arithmetic_flags_16(aaaa, bbbb, vvvv, true);
    reg.put_flag(Flag::Z, vv == 0);
    vv
}

/// INC: `a + 1`, carry kept.
pub fn operator_inc(reg: &mut Registers, a: u8) -> (r: u8)
    ensures
        r == ((a + 1) % 256) as u8,
        old(reg).with_f(&*final(reg), arith_flags(old(reg).f(), a as u16, 0, (a + 1) as u16, false, false, old(reg).mode8080)),
{
    let aa = a as u16;
    let vv = aa + 1;
    reg.update_arithmetic_flags(aa, 0, vv, false, false);
    (vv % 256) as u8
}

/// SUB: `a - b`, with the carry cleared first.
pub fn operator_sub(reg: &mut Registers, a: u8, b: u8) -> (r: u8)
    ensures
        r == alu_result(AluOp::Sub, *old(reg), a, b),
        old(reg).with_f(&*final(reg), alu_flags(AluOp::Sub, *old(reg), a, b)),
{
    let ghost f = reg.f();
    reg.clear_flag(Flag::C);
    assert(!1u8 == 0xfeu8 && (f & 0xfe) & 1 == 0) by (bit_vector);
    let r = operator_sbc(reg, a, b);
    assert(final(reg).data@ =~= old(reg).data@.update(1, final(reg).data[1]));
    r
}

/// SBC: `a - b - carry`.
pub fn operator_sbc(reg: &mut Registers, a: u8, b: u8) -> (r: u8)
    ensures
        r == alu_result(AluOp::Sbc, *old(reg), a, b),
        old(reg).with_f(&*final(reg), alu_flags(AluOp::Sbc, *old(reg), a, b)),
{
    let aa = a as u16;
    let bb = b as u16;
    let c: u32 = if reg.get_flag(Flag::C) { 1 } else { 0 };
    let vv = ((aa as u32 + 0x20000 - bb as u32 - c) % 0x10000) as u16;
    assert(vv == wrap16(a - b - c));
    reg.update_arithmetic_flags(aa, bb, vv, true, true);
    assert((vv % 256) as u8 == vv as u8) by (bit_vector);
    (vv % 256) as u8
}

/// DEC: `a - 1`, carry kept.
pub fn operator_dec(reg: &mut Registers, a: u8) -> (r: u8)
    ensures
        r == ((a + 255) % 256) as u8,
        old(reg).with_f(&*final(reg), arith_flags(old(reg).f(), a as u16, 0, wrap16(a - 1), true, false, old(reg).mode8080)),
{
    let aa = a as u16;
    let vv = aa.wrapping_sub(1);
    reg.update_arithmetic_flags(aa, 0, vv, true, false);
    (vv % 256) as u8
}

/// AND.
pub fn operator_and(reg: &mut Registers, a: u8, b: u8) -> (r: u8)
    ensures
        r == alu_result(AluOp::And, *old(reg), a, b),
        old(reg).with_f(&*final(reg), alu_flags(AluOp::And, *old(reg), a, b)),
{
    let v = a & b;
    reg.update_logic_flags(a, b, v, true);
    v
}

/// XOR.
pub fn operator_xor(reg: &mut Registers, a: u8, b: u8) -> (r: u8)
    ensures
        r == alu_result(AluOp::Xor, *old(reg), a, b),
        old(reg).with_f(&*final(reg), alu_flags(AluOp::Xor, *old(reg), a, b)),
{
    let v = a ^ b;
    reg.update_logic_flags(a, b, v, false);
    v
}

/// OR.
pub fn operator_or(reg: &mut Registers, a: u8, b: u8) -> (r: u8)
    ensures
        r == alu_result(AluOp::Or, *old(reg), a, b),
        old(reg).with_f(&*final(reg), alu_flags(AluOp::Or, *old(reg), a, b)),
{
    let v = a | b;
    reg.update_logic_flags(a, b, v, false);
    v
}

/// CP: the flags of `a - b`, with bits 5 and 3 taken from `b`; returns `a`.
pub fn operator_cp(reg: &mut Registers, a: u8, b: u8) -> (r: u8)
    ensures
        r == alu_result(AluOp::Cp, *old(reg), a, b),
        old(reg).with_f(&*final(reg), alu_flags(AluOp::Cp, *old(reg), a, b)),
{
    operator_sub(reg, a, b);
    reg.update_undocumented_flags(b);
    a
}

/// Applies an ALU operation.
pub fn operator(op: AluOp, reg: &mut Registers, a: u8, b: u8) -> (r: u8)
    ensures
        r == alu_result(op, *old(reg), a, b),
        old(reg).with_f(&*final(reg), alu_flags(op, *old(reg), a, b)),
{
    match op {
        AluOp::Add => operator_add(reg, a, b),
        AluOp::Adc => operator_adc(reg, a, b),
        AluOp::Sub => operator_sub(reg, a, b),
        AluOp::Sbc => operator_sbc(reg, a, b),
        AluOp::And => operator_and(reg, a, b),
        AluOp::Xor => operator_xor(reg, a, b),
        AluOp::Or => operator_or(reg, a, b),
        AluOp::Cp => operator_cp(reg, a, b),
    }
}

} // verus!
