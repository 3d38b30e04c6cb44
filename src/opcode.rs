use vstd::prelude::*;
use crate::machine::Machine;
use crate::operators::AluOp;
use crate::registers::{Flag, Reg16, Reg8};
use crate::state::State;
use crate::text::{pattern, Operands};

verus! {

/// Direction of a shift or rotation.
#[derive(Copy, Clone, Debug, PartialEq, Eq, Structural)]
pub enum ShiftDir {
    /// Towards bit 7
    Left,
    /// Towards bit 0
    Right,
}

/// What enters the vacated bit of a shift or rotation.
#[derive(Copy, Clone, Debug, PartialEq, Eq, Structural)]
pub enum ShiftMode {
    /// 0 on the left, bit 7 kept on the right
    Arithmetic,
    /// 1 on the left, 0 on the right
    Logical,
    /// The old carry
    Rotate,
    /// The bit shifted out at the other end
    RotateCarry,
}

/// The operation of a decoded instruction.
#[derive(Copy, Clone, Debug, PartialEq, Eq, Structural)]
pub enum Action {
    /// A table slot that dispatch never reaches (a prefix byte)
    NotAnOpcode,
    /// NOP
    Nop,
    /// Undocumented ED opcode: no operation
    NoniNop,
    /// HALT
    Halt,
    /// POP rr
    PopRr(Reg16),
    /// PUSH rr
    PushRr(Reg16),
    /// DI
    DisableInterrupts,
    /// EI
    EnableInterrupts,
    /// IM n
    Im(u8),
    /// alu A, r
    AluR(AluOp, Reg8),
    /// alu A, n
    AluN(AluOp),
    /// CPI, CPD, CPIR, CPDR: increment, repeat
    CpBlock(bool, bool),
    /// ADD HL, rr
    AddHlRr(Reg16),
    /// ADC HL, rr
    AdcHlRr(Reg16),
    /// SBC HL, rr
    SbcHlRr(Reg16),
    /// INC r
    IncR(Reg8),
    /// DEC r
    DecR(Reg8),
    /// INC rr or DEC rr
    IncDecRr(Reg16, bool),
    /// NEG
    Neg,
    /// DAA of the Z80
    Daa,
    /// DAA of the 8080
    Daa8080,
    /// Rotations and shifts: register, direction, mode, accumulator fast form, indexed form
    Rot(Reg8, ShiftDir, ShiftMode, bool, bool),
    /// BIT n, r
    Bit(u8, Reg8),
    /// SET n, r (true) or RES n, r (false)
    SetRes(u8, Reg8, bool),
    /// SET or RES on (IX+d) or (IY+d), with the result copied to a register
    IndexedSetRes(u8, Reg8, bool),
    /// CPL
    Cpl,
    /// SCF
    Scf,
    /// CCF
    Ccf,
    /// RLD (left) or RRD (right)
    Rxd(ShiftDir),
    /// OUT (C), r
    OutCR(Reg8),
    /// OUT (C), 0
    OutC0,
    /// OUT (n), A
    OutNA,
    /// IN r, (C)
    InRC(Reg8),
    /// IN (C)
    In0C,
    /// IN A, (n)
    InAN,
    /// INI, IND, INIR, INDR: increment, repeat
    InBlock(bool, bool),
    /// OUTI, OUTD, OTIR, OTDR: increment, repeat
    OutBlock(bool, bool),
    /// DJNZ d
    Djnz,
    /// JR d
    JrUnconditional,
    /// JR cc, d: jumps when the flag has the value
    JrEq(Flag, bool),
    /// JP nn
    JpUnconditional,
    /// JP cc, nn
    JpEq(Flag, bool),
    /// JP (HL)
    JpHl,
    /// CALL nn
    Call,
    /// CALL cc, nn
    CallEq(Flag, bool),
    /// RST p
    Rst(u8),
    /// RET
    Ret,
    /// RETI
    Reti,
    /// RETN
    Retn,
    /// RET cc
    RetEq(Flag, bool),
    /// LD r, r'
    LdRR(Reg8, Reg8),
    /// LD r, n
    LdRN(Reg8),
    /// LD A, (rr)
    LdAPrr(Reg16),
    /// LD A, (nn)
    LdAPnn,
    /// LD (rr), A
    LdPrrA(Reg16),
    /// LD (nn), A
    LdPnnA,
    /// LD rr, nn
    LdRrNn(Reg16),
    /// LD SP, HL
    LdSpHl,
    /// LD (nn), rr
    LdPnnRr(Reg16),
    /// LD rr, (nn)
    LdRrPnn(Reg16),
    /// EX AF, AF'
    ExAf,
    /// EXX
    Exx,
    /// EX DE, HL
    ExDeHl,
    /// EX (SP), HL
    ExPspHl,
    /// LDI, LDD, LDIR, LDDR: increment, repeat
    LdBlock(bool, bool),
}

/// A decoded instruction: its mnemonic pattern, its cycles when a branch is taken and
/// when not, and its operation.
pub struct Opcode {
    /// Mnemonic, with `nn`, `n`, `d` and `__index` for the operands
    pub name: String,
    /// Cycles when the branch is taken, or always for unconditional instructions
    pub cycles: u8,
    /// Cycles when the branch is not taken
    pub cycles_conditional: u8,
    /// The operation
    pub action: Action,
}

/// Whether the state fields that no instruction touches are kept.
pub open spec fn keeps_latches(s: State, t: State) -> bool {
    &&& t.cycle == s.cycle
    &&& t.nmi_pending == s.nmi_pending
    &&& t.reset_pending == s.reset_pending
    &&& t.int_signaled == s.int_signaled
    &&& t.index == s.index
    &&& t.displacement == s.displacement
    &&& t.reg.mode8080 == s.reg.mode8080
    &&& t.halted == s.halted
    &&& t.int_just_enabled == s.int_just_enabled
}

impl Action {
    /// Whether the action can run: a real instruction with its bit number below 8 and
    /// no memory operand where only a register fits.
    pub open spec fn wf(self) -> bool {
        match self {
            Action::NotAnOpcode => false,
            Action::Bit(n, _) => n < 8,
            Action::SetRes(n, _, _) => n < 8,
            Action::IndexedSetRes(n, _, _) => n < 8,
            Action::LdRR(d, s) => !(d == Reg8::_HL && s == Reg8::_HL),
            Action::OutCR(r) => r != Reg8::_HL,
            Action::InRC(r) => r != Reg8::_HL && r != Reg8::F,
            Action::IncDecRr(rr, _) => rr != Reg16::AF,
            Action::Rot(r, _, _, _, _) => r != Reg8::F,
            Action::LdRrNn(rr) => rr != Reg16::AF,
            Action::LdRrPnn(rr) => rr != Reg16::AF,
            _ => true,
        }
    }
}

impl Opcode {
    /// An opcode for `action`, with its mnemonic pattern and no cycles yet.
    pub fn new(action: Action) -> (r: Opcode)
        ensures
            r.action == action,
            r.cycles == 0,
            r.cycles_conditional == 0,
    {
        Opcode { name: pattern(action), cycles: 0, cycles_conditional: 0, action }
    }

    /// Runs the operation on the state and the machine.
    pub fn execute<M: Machine>(&self, state: &mut State, sys: &mut M)
        requires
            self.action.wf(),
            old(state).index_ok(),
        ensures
            crate::execute::executed(self.action, *old(state), *final(state)),
            crate::execute::effect(
                self.action,
                *old(state),
                old(sys).memory(),
                old(sys).port_log(),
                *final(state),
                final(sys).memory(),
                final(sys).port_log(),
            ),
    {
        crate::execute::execute_action(self.action, state, sys)
    }

    /// The mnemonic with its operands filled in from the state and from memory at PC.
    pub fn disasm<M: Machine>(&self, state: &State, sys: &M) -> (r: String)
        ensures
            r@ == crate::text::mnemonic_text(
                self.action,
                Operands {
                    filled: true,
                    index: state.index,
                    displacement: state.displacement,
                    byte: sys.memory()[state.reg.pc],
                    word: crate::machine::word_at(sys.memory(), state.reg.pc),
                },
            ),
    {
        let ops = Operands {
            filled: true,
            index: state.index,
            displacement: state.displacement,
            byte: state.peek_pc(sys),
            word: state.peek16_pc(sys),
        };
        crate::text::mnemonic(self.action, &ops)
    }
}

impl State {
    /// Charges the cycles of `opcode`: taken when the branch was marked taken, not
    /// taken otherwise; the counter wraps.
    pub fn advance_cycles(&mut self, opcode: &Opcode)
        ensures
            *final(self) == (State {
                cycle: ((old(self).cycle as int + if old(self).branch_taken {
                    opcode.cycles
                } else {
                    opcode.cycles_conditional
                }) % 0x1_0000_0000_0000_0000) as u64,
                ..*old(self)
            }),
    {
        let cycles = if self.branch_taken {
            opcode.cycles
        } else {
            opcode.cycles_conditional
        };
        self.cycle = self.cycle.wrapping_add(cycles as u64);
    }
}

/// A table slot that dispatch never reaches.
pub fn build_not_an_opcode() -> (r: Opcode)
    ensures
        r.action == Action::NotAnOpcode,
{
    Opcode::new(Action::NotAnOpcode)
}

/// NOP.
pub fn build_nop() -> (r: Opcode)
    ensures
        r.action == Action::Nop,
{
    Opcode::new(Action::Nop)
}

/// Undocumented ED opcode that does nothing.
pub fn build_noni_nop() -> (r: Opcode)
    ensures
        r.action == Action::NoniNop,
{
    Opcode::new(Action::NoniNop)
}

/// HALT.
pub fn build_halt() -> (r: Opcode)
    ensures
        r.action == Action::Halt,
{
    Opcode::new(Action::Halt)
}

/// POP rr.
pub fn build_pop_rr(rr: Reg16) -> (r: Opcode)
    ensures
        r.action == Action::PopRr(rr),
{
    Opcode::new(Action::PopRr(rr))
}

/// PUSH rr.
pub fn build_push_rr(rr: Reg16) -> (r: Opcode)
    ensures
        r.action == Action::PushRr(rr),
{
    Opcode::new(Action::PushRr(rr))
}

/// DI.
pub fn build_disable_interrupts() -> (r: Opcode)
    ensures
        r.action == Action::DisableInterrupts,
{
    Opcode::new(Action::DisableInterrupts)
}

/// EI.
pub fn build_enable_interrupts() -> (r: Opcode)
    ensures
        r.action == Action::EnableInterrupts,
{
    Opcode::new(Action::EnableInterrupts)
}

/// IM n.
pub fn build_im(im: u8) -> (r: Opcode)
    ensures
        r.action == Action::Im(im),
{
    Opcode::new(Action::Im(im))
}

} // verus!
