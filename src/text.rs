use vstd::prelude::*;
use vstd::string::StringExecFns;
use crate::opcode::{Action, ShiftDir, ShiftMode};
use crate::operators::AluOp;
use crate::registers::{Flag, Reg16, Reg8};

verus! {

/// What the operand placeholders of a mnemonic stand for.
pub struct Operands {
    /// Whether placeholders are replaced by values; if not, they are written as
    /// `n`, `nn`, `d` and `__index`
    pub filled: bool,
    /// Active index register
    pub index: Reg16,
    /// Displacement of (IX+d) and (IY+d)
    pub displacement: i8,
    /// Byte that follows the opcode
    pub byte: u8,
    /// Little endian word that follows the opcode
    pub word: u16,
}

/// The lower case hexadecimal digit of `d`, below 16.
pub open spec fn hex_text(d: u8) -> Seq<char> {
    if d < 10 {
        seq![(48 + d) as char]
    } else {
        seq![(87 + d) as char]
    }
}

/// Hexadecimal digits `digits - 1` down to `k` of `v`, most significant first.
pub open spec fn hex_range(v: u16, digits: int, k: int) -> Seq<char>
    decreases digits - k,
{
    if k >= digits || k < 0 {
        Seq::empty()
    } else {
        hex_range(v, digits, k + 1) + hex_text(((v >> (4 * k) as u16) & 15) as u8)
    }
}

/// The decimal digits of `m`, with no leading zeros.
pub open spec fn dec_text(m: u16) -> Seq<char> {
    (if m >= 10000 { hex_text(((m / 10000) % 10) as u8) } else { Seq::empty() }) + (if m >= 1000 {
        hex_text(((m / 1000) % 10) as u8)
    } else {
        Seq::empty()
    }) + (if m >= 100 { hex_text(((m / 100) % 10) as u8) } else { Seq::empty() }) + (if m >= 10 {
        hex_text(((m / 10) % 10) as u8)
    } else {
        Seq::empty()
    }) + hex_text((m % 10) as u8)
}

/// `v` in decimal with its sign, + or -.
pub open spec fn signed_text(v: i16) -> Seq<char> {
    (if v < 0 { "-"@ } else { "+"@ }) + dec_text((if v < 0 { -(v as int) } else { v as int }) as u16)
}

/// The active index as text: HL, or IX or IY followed by the signed displacement.
pub open spec fn index_text(index: Reg16, displacement: i8) -> Seq<char> {
    if index == Reg16::IX {
        "IX"@ + signed_text(displacement as i16)
    } else if index == Reg16::IY {
        "IY"@ + signed_text(displacement as i16)
    } else {
        "HL"@
    }
}

/// Text of one hexadecimal digit.
fn hex_digit(d: u8) -> (r: &'static str)
    requires
        d < 16,
    ensures
        r@ == hex_text(d),
{
    proof {
        reveal_strlit("0");
        reveal_strlit("1");
        reveal_strlit("2");
        reveal_strlit("3");
        reveal_strlit("4");
        reveal_strlit("5");
        reveal_strlit("6");
        reveal_strlit("7");
        reveal_strlit("8");
        reveal_strlit("9");
        reveal_strlit("a");
        reveal_strlit("b");
        reveal_strlit("c");
        reveal_strlit("d");
        reveal_strlit("e");
        reveal_strlit("f");
    }
    let r = match d {
        0 => "0",
        1 => "1",
        2 => "2",
        3 => "3",
        4 => "4",
        5 => "5",
        6 => "6",
        7 => "7",
        8 => "8",
        9 => "9",
        10 => "a",
        11 => "b",
        12 => "c",
        13 => "d",
        14 => "e",
        _ => "f",
    };
    assert(r@ =~= hex_text(d));
    r
}

/// Appends `v` in hexadecimal with `digits` digits.
fn put_hex(s: &mut String, v: u16, digits: u16)
    requires
        digits <= 4,
    ensures
        final(s)@ == old(s)@ + hex_range(v, digits as int, 0),
{
    let mut k: u16 = digits;
    while k > 0
        invariant
            k <= digits <= 4,
            s@ == old(s)@ + hex_range(v, digits as int, k as int),
        decreases k,
    {
        k = k - 1;
        let x = (v >> (4 * k)) & 15;
        assert(((v >> (4 * k)) & 15) < 16) by (bit_vector);
        s.append(hex_digit(x as u8));
        assert(hex_range(v, digits as int, k as int) == hex_range(v, digits as int, k + 1) + hex_text(((v >> (4 * k) as u16) & 15) as u8));
        assert(s@ =~= old(s)@ + hex_range(v, digits as int, k as int));
    }
}

/// Appends `v` in decimal, with a sign.
fn put_signed(s: &mut String, v: i16)
    ensures
        final(s)@ =~= old(s)@ + signed_text(v),
{
    if v < 0 {
        s.append("-");
    } else {
        s.append("+");
    }
    let m: u16 = if v < 0 { (0 - (v as i32)) as u16 } else { v as u16 };
    if m >= 10000 {
        s.append(hex_digit(((m / 10000) % 10) as u8));
    }
    if m >= 1000 {
        s.append(hex_digit(((m / 1000) % 10) as u8));
    }
    if m >= 100 {
        s.append(hex_digit(((m / 100) % 10) as u8));
    }
    if m >= 10 {
        s.append(hex_digit(((m / 10) % 10) as u8));
    }
    s.append(hex_digit((m % 10) as u8));
}

/// The active index as text: HL, or IX or IY with the signed displacement.
pub fn index_description(index: Reg16, displacement: i8) -> (r: String)
    ensures
        r@ == index_text(index, displacement),
{
    let mut s = String::new();
    match index {
        Reg16::IX => {
            s.append("IX");
            put_signed(&mut s, displacement as i16);
        },
        Reg16::IY => {
            s.append("IY");
            put_signed(&mut s, displacement as i16);
        },
        _ => {
            s.append("HL");
        },
    }
    assert(s@ =~= index_text(index, displacement));
    s
}

fn put_index(s: &mut String, ops: &Operands)
    ensures
        final(s)@ == old(s)@ + (if ops.filled { index_text(ops.index, ops.displacement) } else { "__index"@ }),
{
    if ops.filled {
        let d = index_description(ops.index, ops.displacement);
        s.append(d.as_str());
    } else {
        s.append("__index");
    }
}

/// Text of an 8 bit register; (HL) is written with the index text in parentheses.
pub open spec fn reg8_text(r: Reg8, ops: Operands) -> Seq<char> {
    match r {
        Reg8::A => "A"@,
        Reg8::F => "F"@,
        Reg8::B => "B"@,
        Reg8::C => "C"@,
        Reg8::D => "D"@,
        Reg8::E => "E"@,
        Reg8::H => "H"@,
        Reg8::L => "L"@,
        Reg8::I => "I"@,
        Reg8::R => "R"@,
        Reg8::IXH => "IXH"@,
        Reg8::IXL => "IXL"@,
        Reg8::IYH => "IYH"@,
        Reg8::IYL => "IYL"@,
        Reg8::SPH => "SPH"@,
        Reg8::SPL => "SPL"@,
        Reg8::_HL => "("@ + (if ops.filled { index_text(ops.index, ops.displacement) } else { "__index"@ }) + ")"@,
    }
}

fn put_reg8(s: &mut String, r: Reg8, ops: &Operands)
    ensures
        final(s)@ =~= old(s)@ + reg8_text(r, *ops),
{
    let t = match r {
        Reg8::A => "A",
        Reg8::F => "F",
        Reg8::B => "B",
        Reg8::C => "C",
        Reg8::D => "D",
        Reg8::E => "E",
        Reg8::H => "H",
        Reg8::L => "L",
        Reg8::I => "I",
        Reg8::R => "R",
        Reg8::IXH => "IXH",
        Reg8::IXL => "IXL",
        Reg8::IYH => "IYH",
        Reg8::IYL => "IYL",
        Reg8::SPH => "SPH",
        Reg8::SPL => "SPL",
        Reg8::_HL => "(",
    };
    s.append(t);
    if r == Reg8::_HL {
        put_index(s, ops);
        s.append(")");
    }
}

/// Text of `reg16_name`.
pub open spec fn reg16_name_text(rr: Reg16) -> Seq<char> {
    match rr {
        Reg16::AF => "AF"@,
        Reg16::BC => "BC"@,
        Reg16::DE => "DE"@,
        Reg16::HL => "HL"@,
        Reg16::IX => "IX"@,
        Reg16::IY => "IY"@,
        Reg16::SP => "SP"@,
    }
}

fn reg16_name(rr: Reg16) -> (r: &'static str)
    ensures
        r@ == reg16_name_text(rr),
{
    match rr {
        Reg16::AF => "AF",
        Reg16::BC => "BC",
        Reg16::DE => "DE",
        Reg16::HL => "HL",
        Reg16::IX => "IX",
        Reg16::IY => "IY",
        Reg16::SP => "SP",
    }
}

/// Text of a register pair; HL names the active index when operands are filled.
pub open spec fn reg16_text(rr: Reg16, ops: Operands) -> Seq<char> {
    if rr == Reg16::HL && ops.filled && ops.index == Reg16::IX {
        "IX"@
    } else if rr == Reg16::HL && ops.filled && ops.index == Reg16::IY {
        "IY"@
    } else {
        reg16_name_text(rr)
    }
}

fn put_reg16(s: &mut String, rr: Reg16, ops: &Operands)
    ensures
        final(s)@ =~= old(s)@ + reg16_text(rr, *ops),
{
    if rr == Reg16::HL && ops.filled && ops.index == Reg16::IX {
        s.append("IX");
    } else if rr == Reg16::HL && ops.filled && ops.index == Reg16::IY {
        s.append("IY");
    } else {
        s.append(reg16_name(rr));
    }
}

/// Number of operand bytes that follow the opcode of `action`: 1 for an 8 bit immediate
/// or a relative jump, 2 for a 16 bit immediate or address, 0 otherwise.
pub open spec fn spec_operand_len(action: Action) -> u16 {
    match action {
        Action::AluN(_) | Action::OutNA | Action::InAN | Action::LdRN(_) | Action::Djnz
        | Action::JrUnconditional | Action::JrEq(_, _) => 1,
        Action::JpUnconditional | Action::JpEq(_, _) | Action::Call | Action::CallEq(_, _)
        | Action::LdAPnn | Action::LdPnnA | Action::LdRrNn(_) | Action::LdPnnRr(_) | Action::LdRrPnn(_) => 2,
        _ => 0,
    }
}

/// Number of operand bytes that follow the opcode of `action`.
pub fn operand_len(action: Action) -> (r: u16)
    ensures
        r == spec_operand_len(action),
{
    match action {
        Action::AluN(_) | Action::OutNA | Action::InAN | Action::LdRN(_) | Action::Djnz
        | Action::JrUnconditional | Action::JrEq(_, _) => 1,
        Action::JpUnconditional | Action::JpEq(_, _) | Action::Call | Action::CallEq(_, _)
        | Action::LdAPnn | Action::LdPnnA | Action::LdRrNn(_) | Action::LdPnnRr(_) | Action::LdRrPnn(_) => 2,
        _ => 0,
    }
}

/// Text of `cc_name`.
pub open spec fn cc_name_text(flag: Flag, value: bool) -> Seq<char> {
    match (flag, value) {
        (Flag::Z, false) => "NZ"@,
        (Flag::Z, true) => "Z"@,
        (Flag::C, false) => "NC"@,
        (Flag::C, true) => "C"@,
        (Flag::P, false) => "PO"@,
        (Flag::P, true) => "PE"@,
        (Flag::S, false) => "P"@,
        (Flag::S, true) => "M"@,
        _ => "?"@,
    }
}

fn cc_name(flag: Flag, value: bool) -> (r: &'static str)
    ensures
        r@ == cc_name_text(flag, value),
{
    match (flag, value) {
        (Flag::Z, false) => "NZ",
        (Flag::Z, true) => "Z",
        (Flag::C, false) => "NC",
        (Flag::C, true) => "C",
        (Flag::P, false) => "PO",
        (Flag::P, true) => "PE",
        (Flag::S, false) => "P",
        (Flag::S, true) => "M",
        _ => "?",
    }
}

/// Text of `alu_name`.
pub open spec fn alu_name_text(op: AluOp) -> Seq<char> {
    match op {
        AluOp::Add => "ADD"@,
        AluOp::Adc => "ADC"@,
        AluOp::Sub => "SUB"@,
        AluOp::Sbc => "SBC"@,
        AluOp::And => "AND"@,
        AluOp::Xor => "XOR"@,
        AluOp::Or => "OR"@,
        AluOp::Cp => "CP"@,
    }
}

fn alu_name(op: AluOp) -> (r: &'static str)
    ensures
        r@ == alu_name_text(op),
{
    match op {
        AluOp::Add => "ADD",
        AluOp::Adc => "ADC",
        AluOp::Sub => "SUB",
        AluOp::Sbc => "SBC",
        AluOp::And => "AND",
        AluOp::Xor => "XOR",
        AluOp::Or => "OR",
        AluOp::Cp => "CP",
    }
}

/// Text of `rot_name`.
pub open spec fn rot_name_text(dir: ShiftDir, mode: ShiftMode) -> Seq<char> {
    match (dir, mode) {
        (ShiftDir::Left, ShiftMode::RotateCarry) => "RLC"@,
        (ShiftDir::Right, ShiftMode::RotateCarry) => "RRC"@,
        (ShiftDir::Left, ShiftMode::Rotate) => "RL"@,
        (ShiftDir::Right, ShiftMode::Rotate) => "RR"@,
        (ShiftDir::Left, ShiftMode::Arithmetic) => "SLA"@,
        (ShiftDir::Right, ShiftMode::Arithmetic) => "SRA"@,
        (ShiftDir::Left, ShiftMode::Logical) => "SLL"@,
        (ShiftDir::Right, ShiftMode::Logical) => "SRL"@,
    }
}

fn rot_name(dir: ShiftDir, mode: ShiftMode) -> (r: &'static str)
    ensures
        r@ == rot_name_text(dir, mode),
{
    match (dir, mode) {
        (ShiftDir::Left, ShiftMode::RotateCarry) => "RLC",
        (ShiftDir::Right, ShiftMode::RotateCarry) => "RRC",
        (ShiftDir::Left, ShiftMode::Rotate) => "RL",
        (ShiftDir::Right, ShiftMode::Rotate) => "RR",
        (ShiftDir::Left, ShiftMode::Arithmetic) => "SLA",
        (ShiftDir::Right, ShiftMode::Arithmetic) => "SRA",
        (ShiftDir::Left, ShiftMode::Logical) => "SLL",
        (ShiftDir::Right, ShiftMode::Logical) => "SRL",
    }
}

/// Text of `block_postfix`.
pub open spec fn block_postfix_text(inc: bool, repeat: bool) -> Seq<char> {
    match (inc, repeat) {
        (true, false) => "I"@,
        (false, false) => "D"@,
        (true, true) => "IR"@,
        (false, true) => "DR"@,
    }
}

fn block_postfix(inc: bool, repeat: bool) -> (r: &'static str)
    ensures
        r@ == block_postfix_text(inc, repeat),
{
    match (inc, repeat) {
        (true, false) => "I",
        (false, false) => "D",
        (true, true) => "IR",
        (false, true) => "DR",
    }
}

/// The 8 bit immediate as text: two hexadecimal digits and `h`, or `n`.
pub open spec fn n_text(ops: Operands) -> Seq<char> {
    if ops.filled {
        hex_range(ops.byte as u16, 2, 0) + "h"@
    } else {
        "n"@
    }
}

/// The 16 bit immediate as text: four hexadecimal digits and `h`, or `nn`.
pub open spec fn nn_text(ops: Operands) -> Seq<char> {
    if ops.filled {
        hex_range(ops.word, 4, 0) + "h"@
    } else {
        "nn"@
    }
}

/// A relative jump as text: the displacement plus 2, signed decimal, or `d`.
pub open spec fn d_text(ops: Operands) -> Seq<char> {
    if ops.filled {
        signed_text((ops.byte as i8 as i16 + 2) as i16)
    } else {
        "d"@
    }
}

fn put_n(s: &mut String, ops: &Operands)
    ensures
        final(s)@ =~= old(s)@ + n_text(*ops),
{
    if ops.filled {
        put_hex(s, ops.byte as u16, 2);
        s.append("h");
    } else {
        s.append("n");
    }
}

fn put_nn(s: &mut String, ops: &Operands)
    ensures
        final(s)@ =~= old(s)@ + nn_text(*ops),
{
    if ops.filled {
        put_hex(s, ops.word, 4);
        s.append("h");
    } else {
        s.append("nn");
    }
}

fn put_d(s: &mut String, ops: &Operands)
    ensures
        final(s)@ =~= old(s)@ + d_text(*ops),
{
    if ops.filled {
        put_signed(s, ops.byte as i8 as i16 + 2);
    } else {
        s.append("d");
    }
}

fn put_digit(s: &mut String, v: u8)
    requires
        v < 10,
    ensures
        final(s)@ =~= old(s)@ + hex_text(v),
{
    s.append(hex_digit(v));
}

/// The mnemonic of `action` in Zilog notation, operands from `ops`.
/// The mnemonic of `action` in Zilog notation with the operands of `ops`: registers by
/// name, (HL) as the index text in parentheses, `nn` as four hexadecimal digits and `h`,
/// `n` as two and `h`, `d` as the signed decimal displacement plus 2. Opaque:
/// `reveal(mnemonic_text)` opens it.
#[verifier::opaque]
pub open spec fn mnemonic_text(action: Action, ops: Operands) -> Seq<char> {
    match action {
        Action::NotAnOpcode => "NOT_AN_OPCODE"@,
        Action::Nop => "NOP"@,
        Action::NoniNop => "NONINOP"@,
        Action::Halt => "HALT"@,
        Action::PopRr(rr) => "POP "@ + reg16_text(rr, ops),
        Action::PushRr(rr) => "PUSH "@ + reg16_text(rr, ops),
        Action::DisableInterrupts => "DI"@,
        Action::EnableInterrupts => "EI"@,
        Action::Im(m) => "IM "@ + hex_text(m % 10),
        Action::AluR(op, r) => alu_name_text(op) + " A, "@ + reg8_text(r, ops),
        Action::AluN(op) => alu_name_text(op) + " A, "@ + n_text(ops),
        Action::CpBlock(inc, repeat) => "CP"@ + block_postfix_text(inc, repeat),
        Action::AddHlRr(rr) => "ADD "@ + reg16_text(Reg16::HL, ops) + ", "@ + reg16_text(rr, ops),
        Action::AdcHlRr(rr) => "ADC HL, "@ + reg16_name_text(rr),
        Action::SbcHlRr(rr) => "SBC HL, "@ + reg16_name_text(rr),
        Action::IncR(r) => "INC "@ + reg8_text(r, ops),
        Action::DecR(r) => "DEC "@ + reg8_text(r, ops),
        Action::IncDecRr(rr, inc) => (if inc { "INC "@ } else { "DEC "@ }) + reg16_text(rr, ops),
        Action::Neg => "NEG"@,
        Action::Daa => "DAA"@,
        Action::Daa8080 => "DAA"@,
        Action::Bit(n, r) => "BIT "@ + hex_text(n % 8) + ", "@ + reg8_text(r, ops),
        Action::SetRes(n, r, value) => (if value { "SET "@ } else { "RES "@ }) + hex_text(n % 8) + ", "@ + reg8_text(r, ops),
        Action::IndexedSetRes(n, r, value) => "LD "@ + reg8_text(r, ops) + (if value { ", SET "@ } else { ", RES "@ }) + hex_text(n % 8) + ", "@ + reg8_text(Reg8::_HL, ops),
        Action::Cpl => "CPL"@,
        Action::Scf => "SCF"@,
        Action::Ccf => "CCF"@,
        Action::OutCR(r) => "OUT (C), "@ + reg8_text(r, ops),
        Action::OutC0 => "OUT (C), 0"@,
        Action::OutNA => "OUT ("@ + n_text(ops) + "), A"@,
        Action::InRC(r) => "IN "@ + reg8_text(r, ops) + ", (C)"@,
        Action::In0C => "IN (C)"@,
        Action::InAN => "IN A, ("@ + n_text(ops) + ")"@,
        Action::InBlock(inc, repeat) => "IN"@ + block_postfix_text(inc, repeat),
        Action::OutBlock(inc, repeat) => (if repeat { "OT"@ } else { "OUT"@ }) + block_postfix_text(inc, repeat),
        Action::Djnz => "DJNZ "@ + d_text(ops),
        Action::JrUnconditional => "JR "@ + d_text(ops),
        Action::JrEq(flag, value) => "JR "@ + cc_name_text(flag, value) + ", "@ + d_text(ops),
        Action::JpUnconditional => "JP "@ + nn_text(ops),
        Action::JpEq(flag, value) => "JP "@ + cc_name_text(flag, value) + ", "@ + nn_text(ops),
        Action::JpHl => "JP "@ + reg16_text(Reg16::HL, ops),
        Action::Call => "CALL "@ + nn_text(ops),
        Action::CallEq(flag, value) => "CALL "@ + cc_name_text(flag, value) + ", "@ + nn_text(ops),
        Action::Rst(p) => "RST "@ + hex_range(p as u16, 2, 0) + "h"@,
        Action::Ret => "RET"@,
        Action::Reti => "RETI"@,
        Action::Retn => "RETN"@,
        Action::RetEq(flag, value) => "RET "@ + cc_name_text(flag, value),
        Action::LdRR(dst, src) => "LD "@ + reg8_text(dst, ops) + ", "@ + reg8_text(src, ops),
        Action::LdRN(r) => "LD "@ + reg8_text(r, ops) + ", "@ + n_text(ops),
        Action::LdAPrr(rr) => "LD A, ("@ + reg16_name_text(rr) + ")"@,
        Action::LdAPnn => "LD A, ("@ + nn_text(ops) + ")"@,
        Action::LdPrrA(rr) => "LD ("@ + reg16_name_text(rr) + "), A"@,
        Action::LdPnnA => "LD ("@ + nn_text(ops) + "), A"@,
        Action::LdRrNn(rr) => "LD "@ + reg16_text(rr, ops) + ", "@ + nn_text(ops),
        Action::LdSpHl => "LD SP, "@ + reg16_text(Reg16::HL, ops),
        Action::LdPnnRr(rr) => "LD ("@ + nn_text(ops) + "), "@ + reg16_text(rr, ops),
        Action::LdRrPnn(rr) => "LD "@ + reg16_text(rr, ops) + ", ("@ + nn_text(ops) + ")"@,
        Action::ExAf => "EX AF, AF'"@,
        Action::Exx => "EXX"@,
        Action::ExDeHl => "EX DE, HL"@,
        Action::ExPspHl => "EX (SP), "@ + reg16_text(Reg16::HL, ops),
        Action::LdBlock(inc, repeat) => "LD"@ + block_postfix_text(inc, repeat),
        Action::Rot(r, dir, mode, fast, indexed) => if indexed {
            "LD "@ + reg8_text(r, ops) + ", "@ + rot_name_text(dir, mode) + " "@ + reg8_text(Reg8::_HL, ops)
        } else {
            rot_name_text(dir, mode) + (if fast { Seq::empty() } else { " "@ }) + reg8_text(r, ops)
        },
        Action::Rxd(dir) => match dir {
            ShiftDir::Left => "RLD"@,
            ShiftDir::Right => "RRD"@,
        },
    }
}

pub fn mnemonic(action: Action, ops: &Operands) -> (r: String)
    ensures
        r@ == mnemonic_text(action, *ops),
{
    reveal(mnemonic_text);
    let mut s = String::new();
    match action {
        Action::NotAnOpcode => s.append("NOT_AN_OPCODE"),
        Action::Nop => s.append("NOP"),
        Action::NoniNop => s.append("NONINOP"),
        Action::Halt => s.append("HALT"),
        Action::PopRr(rr) => {
            s.append("POP ");
            put_reg16(&mut s, rr, ops);
        },
        Action::PushRr(rr) => {
            s.append("PUSH ");
            put_reg16(&mut s, rr, ops);
        },
        Action::DisableInterrupts => s.append("DI"),
        Action::EnableInterrupts => s.append("EI"),
        Action::Im(m) => {
            s.append("IM ");
            put_digit(&mut s, m % 10);
        },
        Action::AluR(op, r) => {
            s.append(alu_name(op));
            s.append(" A, ");
            put_reg8(&mut s, r, ops);
        },
        Action::AluN(op) => {
            s.append(alu_name(op));
            s.append(" A, ");
            put_n(&mut s, ops);
        },
        Action::CpBlock(inc, repeat) => {
            s.append("CP");
            s.append(block_postfix(inc, repeat));
        },
        Action::AddHlRr(rr) => {
            s.append("ADD ");
            put_reg16(&mut s, Reg16::HL, ops);
            s.append(", ");
            put_reg16(&mut s, rr, ops);
        },
        Action::AdcHlRr(rr) => {
            s.append("ADC HL, ");
            s.append(reg16_name(rr));
        },
        Action::SbcHlRr(rr) => {
            s.append("SBC HL, ");
            s.append(reg16_name(rr));
        },
        Action::IncR(r) => {
            s.append("INC ");
            put_reg8(&mut s, r, ops);
        },
        Action::DecR(r) => {
            s.append("DEC ");
            put_reg8(&mut s, r, ops);
        },
        Action::IncDecRr(rr, inc) => {
            s.append(if inc { "INC " } else { "DEC " });
            put_reg16(&mut s, rr, ops);
        },
        Action::Neg => s.append("NEG"),
        Action::Daa => s.append("DAA"),
        Action::Daa8080 => s.append("DAA"),
        Action::Rot(r, dir, mode, fast, indexed) => {
            if indexed {
                s.append("LD ");
                put_reg8(&mut s, r, ops);
                s.append(", ");
                s.append(rot_name(dir, mode));
                s.append(" ");
                put_reg8(&mut s, Reg8::_HL, ops);
            } else {
                s.append(rot_name(dir, mode));
                if !fast {
                    s.append(" ");
                }
                put_reg8(&mut s, r, ops);
            }
        },
        Action::Bit(n, r) => {
            s.append("BIT ");
            put_digit(&mut s, n % 8);
            s.append(", ");
            put_reg8(&mut s, r, ops);
        },
        Action::SetRes(n, r, value) => {
            s.append(if value { "SET " } else { "RES " });
            put_digit(&mut s, n % 8);
            s.append(", ");
            put_reg8(&mut s, r, ops);
        },
        Action::IndexedSetRes(n, r, value) => {
            s.append("LD ");
            put_reg8(&mut s, r, ops);
            s.append(if value { ", SET " } else { ", RES " });
            put_digit(&mut s, n % 8);
            s.append(", ");
            put_reg8(&mut s, Reg8::_HL, ops);
        },
        Action::Cpl => s.append("CPL"),
        Action::Scf => s.append("SCF"),
        Action::Ccf => s.append("CCF"),
        Action::Rxd(dir) => s.append(
            match dir {
                ShiftDir::Left => "RLD",
                ShiftDir::Right => "RRD",
            },
        ),
        Action::OutCR(r) => {
            s.append("OUT (C), ");
            put_reg8(&mut s, r, ops);
        },
        Action::OutC0 => s.append("OUT (C), 0"),
        Action::OutNA => {
            s.append("OUT (");
            put_n(&mut s, ops);
            s.append("), A");
        },
        Action::InRC(r) => {
            s.append("IN ");
            put_reg8(&mut s, r, ops);
            s.append(", (C)");
        },
        Action::In0C => s.append("IN (C)"),
        Action::InAN => {
            s.append("IN A, (");
            put_n(&mut s, ops);
            s.append(")");
        },
        Action::InBlock(inc, repeat) => {
            s.append("IN");
            s.append(block_postfix(inc, repeat));
        },
        Action::OutBlock(inc, repeat) => {
            s.append(if repeat { "OT" } else { "OUT" });
            s.append(block_postfix(inc, repeat));
        },
        Action::Djnz => {
            s.append("DJNZ ");
            put_d(&mut s, ops);
        },
        Action::JrUnconditional => {
            s.append("JR ");
            put_d(&mut s, ops);
        },
        Action::JrEq(flag, value) => {
            s.append("JR ");
            s.append(cc_name(flag, value));
            s.append(", ");
            put_d(&mut s, ops);
        },
        Action::JpUnconditional => {
            s.append("JP ");
            put_nn(&mut s, ops);
        },
        Action::JpEq(flag, value) => {
            s.append("JP ");
            s.append(cc_name(flag, value));
            s.append(", ");
            put_nn(&mut s, ops);
        },
        Action::JpHl => {
            s.append("JP ");
            put_reg16(&mut s, Reg16::HL, ops);
        },
        Action::Call => {
            s.append("CALL ");
            put_nn(&mut s, ops);
        },
        Action::CallEq(flag, value) => {
            s.append("CALL ");
            s.append(cc_name(flag, value));
            s.append(", ");
            put_nn(&mut s, ops);
        },
        Action::Rst(p) => {
            s.append("RST ");
            put_hex(&mut s, p as u16, 2);
            s.append("h");
        },
        Action::Ret => s.append("RET"),
        Action::Reti => s.append("RETI"),
        Action::Retn => s.append("RETN"),
        Action::RetEq(flag, value) => {
            s.append("RET ");
            s.append(cc_name(flag, value));
        },
        Action::LdRR(dst, src) => {
            s.append("LD ");
            put_reg8(&mut s, dst, ops);
            s.append(", ");
            put_reg8(&mut s, src, ops);
        },
        Action::LdRN(r) => {
            s.append("LD ");
            put_reg8(&mut s, r, ops);
            s.append(", ");
            put_n(&mut s, ops);
        },
        Action::LdAPrr(rr) => {
            s.append("LD A, (");
            s.append(reg16_name(rr));
            s.append(")");
        },
        Action::LdAPnn => {
            s.append("LD A, (");
            put_nn(&mut s, ops);
            s.append(")");
        },
        Action::LdPrrA(rr) => {
            s.append("LD (");
            s.append(reg16_name(rr));
            s.append("), A");
        },
        Action::LdPnnA => {
            s.append("LD (");
            put_nn(&mut s, ops);
            s.append("), A");
        },
        Action::LdRrNn(rr) => {
            s.append("LD ");
            put_reg16(&mut s, rr, ops);
            s.append(", ");
            put_nn(&mut s, ops);
        },
        Action::LdSpHl => {
            s.append("LD SP, ");
            put_reg16(&mut s, Reg16::HL, ops);
        },
        Action::LdPnnRr(rr) => {
            s.append("LD (");
            put_nn(&mut s, ops);
            s.append("), ");
            put_reg16(&mut s, rr, ops);
        },
        Action::LdRrPnn(rr) => {
            s.append("LD ");
            put_reg16(&mut s, rr, ops);
            s.append(", (");
            put_nn(&mut s, ops);
            s.append(")");
        },
        Action::ExAf => s.append("EX AF, AF'"),
        Action::Exx => s.append("EXX"),
        Action::ExDeHl => s.append("EX DE, HL"),
        Action::ExPspHl => {
            s.append("EX (SP), ");
            put_reg16(&mut s, Reg16::HL, ops);
        },
        Action::LdBlock(inc, repeat) => {
            s.append("LD");
            s.append(block_postfix(inc, repeat));
        },
    }
    assert(s@ =~= mnemonic_text(action, *ops));
    s
}

/// The mnemonic pattern of `action`, with placeholders for its operands.
pub fn pattern(action: Action) -> (r: String)
    ensures
        r@ == mnemonic_text(action, Operands { filled: false, index: Reg16::HL, displacement: 0, byte: 0, word: 0 }),
{
    let ops = Operands { filled: false, index: Reg16::HL, displacement: 0, byte: 0, word: 0 };
    mnemonic(action, &ops)
}

} // verus!
