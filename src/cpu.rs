use vstd::prelude::*;
use crate::decoder_8080::Decoder8080;
use crate::decoder_z80::{lemma_prefix_run_unique, prefix_run, DecoderZ80};
use crate::environment::{prev_addr, pushed, with_sp};
use crate::execute::{effect, executed};
use crate::machine::{next_addr, word_at, Machine, PortAccess};
use crate::text::{mnemonic_text, operand_len, spec_operand_len, Operands};
use crate::opcode::{Action, Opcode};
use crate::registers::{Reg16, Reg8, Registers};
use crate::state::{DeserializeError, State, SERIALIZE_SIZE};

verus! {

/// Address of the non maskable interrupt handler.
pub const NMI_ADDRESS: u16 = 0x0066;

/// Address of the maskable interrupt handler in modes 0 and 1.
pub const IRQ_ADDRESS: u16 = 0x0038;

/// The byte that the data bus holds when an interrupt in mode 2 is accepted.
pub const BUS_BYTE: u16 = 0x00ff;

/// The decoder of a CPU variant.
pub enum CpuDecoder {
    /// Zilog Z80
    Z80(DecoderZ80),
    /// Intel 8080
    I8080(Decoder8080),
}

/// What a step does, by the state it starts from.
#[derive(Copy, Clone, Debug, PartialEq, Eq, Structural)]
pub enum StepKind {
    /// Halted with nothing to wake it: nothing happens
    Halted,
    /// A reset is pending
    Reset,
    /// A non maskable interrupt is pending
    Nmi,
    /// A maskable interrupt is signaled and accepted
    Interrupt,
    /// The instruction at PC runs
    Execute,
}

/// Whether a signaled maskable interrupt is accepted: IFF1 is set and the previous
/// instruction was not EI (nor the undocumented no-operation that also defers).
pub open spec fn interrupt_accepted(s: State) -> bool {
    s.int_signaled && s.reg.iff1 && !s.int_just_enabled
}

/// What a step from `s` does.
pub open spec fn step_kind(s: State) -> StepKind {
    if s.reset_pending {
        StepKind::Reset
    } else if s.nmi_pending {
        StepKind::Nmi
    } else if interrupt_accepted(s) {
        StepKind::Interrupt
    } else if s.halted {
        StepKind::Halted
    } else {
        StepKind::Execute
    }
}

/// R after `k` opcode fetches: its low 7 bits count up, bit 7 stays.
pub open spec fn bump_r(r: u8, k: int) -> u8 {
    ((r & 0x80) | (((r as int + k) % 128) as u8)) as u8
}

/// Advances R by `k` opcode fetches.
fn refresh(state: &mut State, k: u32)
    ensures
        final(state).reg.data@ == old(state).reg.data@.update(9, bump_r(old(state).reg.reg8(Reg8::R), k as int)),
        old(state).reg.same_but_data(&final(state).reg),
        old(state).same_but_reg(&*final(state)),
{
    let r = state.reg.get8(Reg8::R);
    let v = (r & 0x80) | (((r as u32 + (k % 128)) % 128) as u8);
    assert(((r as int + k) % 128) == ((r as int + (k % 128) as int) % 128));
    state.reg.set8(Reg8::R, v);
}

/// `c + k` on the 64 bit cycle counter.
pub open spec fn add_cycles(c: u64, k: int) -> u64 {
    ((c + k) % 0x1_0000_0000_0000_0000) as u64
}

/// A reset: pending signals, the interrupt line and the halt state cleared, PC, I, R
/// and IM zero, interrupts disabled; nothing else runs.
pub open spec fn after_reset(s: State, t: State) -> bool {
    &&& t.reg.data@ == s.reg.data@.update(8, 0).update(9, 0)
    &&& t.reg == (Registers { data: t.reg.data, pc: 0, iff1: false, iff2: false, im: 0, ..s.reg })
    &&& t == (State {
        reg: t.reg,
        cycle: s.cycle,
        branch_taken: false,
        halted: false,
        int_signaled: false,
        nmi_pending: false,
        reset_pending: false,
        int_just_enabled: false,
        index: Reg16::HL,
        displacement: 0,
    })
}

/// Entry of a non maskable interrupt: one fetch counted in R, PC pushed, PC = 0x0066,
/// IFF1 saved to IFF2 and cleared, the halt state left, 11 cycles.
pub open spec fn after_nmi(s: State, m: Map<u16, u8>, t: State, n: Map<u16, u8>) -> bool {
    let sp = s.reg.reg16(Reg16::SP);
    &&& n == pushed(m, sp, s.reg.pc)
    &&& t.reg.data@ == with_sp(s.reg.data@.update(9, bump_r(s.reg.reg8(Reg8::R), 1)), prev_addr(prev_addr(sp)))
    &&& t.reg == (Registers { data: t.reg.data, pc: NMI_ADDRESS, iff1: false, iff2: s.reg.iff1, ..s.reg })
    &&& t == (State {
        reg: t.reg,
        cycle: add_cycles(s.cycle, 11),
        branch_taken: false,
        halted: false,
        nmi_pending: false,
        index: Reg16::HL,
        displacement: 0,
        ..s
    })
}

/// Address of the handler of an accepted maskable interrupt: 0x0038 in modes 0 and 1,
/// in mode 2 the word at I * 256 + the bus byte.
pub open spec fn interrupt_target(s: State, m: Map<u16, u8>) -> u16 {
    if s.reg.im == 2 {
        word_at(m, (s.reg.reg8(Reg8::I) as int * 256 + BUS_BYTE as int) as u16)
    } else {
        IRQ_ADDRESS
    }
}

/// Acceptance of a maskable interrupt: one fetch counted in R, PC pushed, PC = the
/// handler, interrupts disabled, the halt state left; 19 cycles in mode 2, 13 otherwise.
pub open spec fn after_interrupt(s: State, m: Map<u16, u8>, t: State, n: Map<u16, u8>) -> bool {
    let sp = s.reg.reg16(Reg16::SP);
    &&& n == pushed(m, sp, s.reg.pc)
    &&& t.reg.data@ == with_sp(s.reg.data@.update(9, bump_r(s.reg.reg8(Reg8::R), 1)), prev_addr(prev_addr(sp)))
    &&& t.reg == (Registers { data: t.reg.data, pc: interrupt_target(s, m), iff1: false, iff2: false, ..s.reg })
    &&& t == (State {
        reg: t.reg,
        cycle: add_cycles(s.cycle, if s.reg.im == 2 { 19 } else { 13 }),
        branch_taken: false,
        halted: false,
        int_just_enabled: false,
        index: Reg16::HL,
        displacement: 0,
        ..s
    })
}

impl CpuDecoder {
    /// Whether the tables are complete.
    pub open spec fn wf(&self) -> bool {
        match self {
            CpuDecoder::Z80(d) => d.wf(),
            CpuDecoder::I8080(d) => d.wf(),
        }
    }

    /// Whether the tables are those of the Z80.
    pub open spec fn is_z80(&self) -> bool {
        self is Z80
    }

    /// The decoding of the bytes of `m` at `pc`: the opcode, the PC after it and its
    /// prefixes and displacement, the index it selects, its displacement, the cycles it
    /// costs beyond its table slot, and the opcode fetches that R counts (none on the
    /// 8080, which has no R).
    pub open spec fn decode_result(&self, m: Map<u16, u8>, pc: u16) -> (Opcode, u16, Reg16, i8, int, int) {
        match self {
            CpuDecoder::Z80(z) => {
                let n = choose|n: int| prefix_run(m, pc, n);
                let r = z.decoded(m, pc, n, 0);
                let c = z.decoded_costs(m, pc, n);
                (r.0, r.1, r.2, r.3, c.0, c.1)
            },
            CpuDecoder::I8080(e) => (e.no_prefix@[m[pc] as int], next_addr(pc), Reg16::HL, 0, 0, 0),
        }
    }

    /// Reads one instruction at PC and returns it with the cycles it costs beyond its
    /// slot and the opcode fetches it made.
    pub fn decode<'a, M: Machine>(&'a self, state: &mut State, sys: &M) -> (r: (&'a Opcode, u32, u32))
        requires
            self.wf(),
            old(state).index == Reg16::HL,
            old(state).displacement == 0,
        ensures
            r.0.action.wf(),
            r.1 <= 0x40010,
            r.2 <= 0x10001,
            ({
                let d = self.decode_result(sys.memory(), old(state).reg.pc);
                &&& *r.0 == d.0
                &&& r.1 == d.4
                &&& r.2 == d.5
                &&& *final(state) == (State {
                    reg: Registers { pc: d.1, ..old(state).reg },
                    index: d.2,
                    displacement: d.3,
                    ..*old(state)
                })
            }),
            final(state).index_ok(),
    {
        let ghost m = sys.memory();
        let ghost pc = state.reg.pc;
        match self {
            CpuDecoder::Z80(d) => {
                let r = d.decode(state, sys);
                proof {
                    let n = choose|n: int| prefix_run(m, pc, n);
                    assert(prefix_run(m, pc, r.1 as int));
                    lemma_prefix_run_unique(m, pc, n, r.1 as int);
                }
                (r.0, r.2, r.3)
            },
            CpuDecoder::I8080(d) => {
                let r = d.decode(state, sys);
                (r.0, 0, 0)
            },
        }
    }
}

/// An instruction step from `s`: the bytes at PC decoded into `mid` (PC past them, the
/// index and displacement they select, R advanced by the opcode fetches), the
/// instruction run as `effect` states, then the index and displacement cleared, the
/// cycle counter advanced by the decoding cost and the slot's taken or not taken count,
/// and the deferring latch set by EI or the undocumented no-operation alone.
pub open spec fn after_execute(
    d: CpuDecoder,
    s: State,
    m: Map<u16, u8>,
    l: Seq<PortAccess>,
    t: State,
    n: Map<u16, u8>,
    l2: Seq<PortAccess>,
) -> bool {
    let r = d.decode_result(m, s.reg.pc);
    let op = r.0;
    exists|mid: State, pre: State|
        #[trigger] effect(op.action, mid, m, l, pre, n, l2) && mid.reg.data@ == s.reg.data@.update(
            9,
            bump_r(s.reg.reg8(Reg8::R), r.5),
        ) && mid == (State {
            reg: Registers { data: mid.reg.data, pc: r.1, ..s.reg },
            index: r.2,
            displacement: r.3,
            branch_taken: false,
            ..s
        }) && executed(op.action, mid, pre) && t == (State {
            index: Reg16::HL,
            displacement: 0,
            branch_taken: false,
            int_just_enabled: op.action == Action::EnableInterrupts || op.action == Action::NoniNop,
            cycle: add_cycles(s.cycle, r.4 + if pre.branch_taken { op.cycles } else { op.cycles_conditional }),
            ..pre
        })
}

/// What one step does, from state `s`, memory `m` and port accesses `l`.
pub open spec fn stepped(
    d: CpuDecoder,
    s: State,
    m: Map<u16, u8>,
    l: Seq<PortAccess>,
    t: State,
    n: Map<u16, u8>,
    l2: Seq<PortAccess>,
) -> bool {
    match step_kind(s) {
        StepKind::Halted => t == s && n == m && l2 == l,
        StepKind::Reset => after_reset(s, t) && n == m && l2 == l,
        StepKind::Nmi => after_nmi(s, m, t, n) && l2 == l,
        StepKind::Interrupt => after_interrupt(s, m, t, n) && l2 == l,
        StepKind::Execute => after_execute(d, s, m, l, t, n, l2),
    }
}

/// Runs one step: a pending reset, a pending non maskable interrupt or an accepted
/// maskable interrupt is handled and ends the step; otherwise, unless the CPU is halted
/// with nothing to wake it, the instruction at PC runs.
pub fn step<M: Machine>(state: &mut State, decoder: &CpuDecoder, sys: &mut M)
    requires
        decoder.wf(),
    ensures
        stepped(*decoder, *old(state), old(sys).memory(), old(sys).port_log(), *final(state), final(sys).memory(), final(sys).port_log()),
{
    let kind = if state.reset_pending {
        StepKind::Reset
    } else if state.nmi_pending {
        StepKind::Nmi
    } else if state.int_signaled && state.reg.iff1 && !state.int_just_enabled {
        StepKind::Interrupt
    } else if state.halted {
        StepKind::Halted
    } else {
        StepKind::Execute
    };
    if kind == StepKind::Halted {
        return;
    }
    if kind == StepKind::Reset {
        accept_reset(state);
    } else if kind == StepKind::Nmi {
        accept_nmi(state, sys);
    } else if kind == StepKind::Interrupt {
        accept_interrupt(state, sys);
    } else {
        run_instruction(state, decoder, sys);
    }
}

fn accept_reset(state: &mut State)
    ensures
        after_reset(*old(state), *final(state)),
{
    state.clear_index();
    state.displacement = 0;
    state.branch_taken = false;
    state.reset_pending = false;
    state.nmi_pending = false;
    state.int_signaled = false;
    state.int_just_enabled = false;
    state.halted = false;
    state.reg.set_pc(0);
    state.reg.set8(Reg8::I, 0);
    state.reg.set8(Reg8::R, 0);
    state.reg.set_interrupts(false);
    state.reg.set_interrupt_mode(0);
}

fn accept_nmi<M: Machine>(state: &mut State, sys: &mut M)
    ensures
        after_nmi(*old(state), old(sys).memory(), *final(state), final(sys).memory()),
        final(sys).port_log() == old(sys).port_log(),
{
    state.clear_index();
    state.displacement = 0;
    state.branch_taken = false;
    state.nmi_pending = false;
    state.halted = false;
    state.reg.start_nmi();
    refresh(state, 1);
    state.subroutine_call(sys, NMI_ADDRESS);
    state.cycle = state.cycle.wrapping_add(11);
}

fn accept_interrupt<M: Machine>(state: &mut State, sys: &mut M)
    ensures
        after_interrupt(*old(state), old(sys).memory(), *final(state), final(sys).memory()),
        final(sys).port_log() == old(sys).port_log(),
{
    state.clear_index();
    state.displacement = 0;
    state.branch_taken = false;
    state.halted = false;
    state.int_just_enabled = false;
    state.reg.set_interrupts(false);
    let ghost r0 = *state;
    refresh(state, 1);
    if state.reg.im == 2 {
        let vector = (state.reg.get8(Reg8::I) as u16) * 256 + BUS_BYTE;
        let address = crate::machine::peek16(sys, vector);
        state.subroutine_call(sys, address);
        state.cycle = state.cycle.wrapping_add(19);
    } else {
        state.subroutine_call(sys, IRQ_ADDRESS);
        state.cycle = state.cycle.wrapping_add(13);
    }
}

fn fetch<'a, M: Machine>(state: &mut State, decoder: &'a CpuDecoder, sys: &M) -> (r: (&'a Opcode, u32))
    requires
        decoder.wf(),
        old(state).index == Reg16::HL,
        old(state).displacement == 0,
        !old(state).branch_taken,
    ensures
        ({
            let d = decoder.decode_result(sys.memory(), old(state).reg.pc);
            &&& *r.0 == d.0
            &&& r.1 == d.4
            &&& final(state).reg.data@ == old(state).reg.data@.update(9, bump_r(old(state).reg.reg8(Reg8::R), d.5))
            &&& *final(state) == (State {
                reg: Registers { data: final(state).reg.data, pc: d.1, ..old(state).reg },
                index: d.2,
                displacement: d.3,
                ..*old(state)
            })
        }),
        r.0.action.wf(),
        final(state).index_ok(),
        r.1 <= 0x40010,
{
    let (op, extra, fetches) = decoder.decode(state, sys);
    refresh(state, fetches);
    (op, extra)
}

#[verifier::rlimit(100)]
fn run_instruction<M: Machine>(state: &mut State, decoder: &CpuDecoder, sys: &mut M)
    requires
        decoder.wf(),
    ensures
        after_execute(*decoder, *old(state), old(sys).memory(), old(sys).port_log(), *final(state), final(sys).memory(), final(sys).port_log()),
{
    state.clear_index();
    state.displacement = 0;
    state.branch_taken = false;
    let ghost m0 = sys.memory();
    let ghost l0 = sys.port_log();
    let ghost d = decoder.decode_result(m0, old(state).reg.pc);
    let (op, extra) = fetch(state, decoder, sys);
    let ghost mid = *state;
    op.execute(state, sys);
    let ghost pre = *state;
    let ghost m1 = sys.memory();
    let ghost l1 = sys.port_log();
    state.clear_index();
    state.displacement = 0;
    state.advance_cycles(op);
    state.cycle = state.cycle.wrapping_add(extra as u64);
    state.branch_taken = false;
    state.int_just_enabled = op.action == Action::EnableInterrupts || op.action == Action::NoniNop;
    assert(*state == (State {
        index: Reg16::HL,
        displacement: 0,
        branch_taken: false,
        int_just_enabled: op.action == Action::EnableInterrupts || op.action == Action::NoniNop,
        cycle: add_cycles(old(state).cycle, d.4 + if pre.branch_taken { op.cycles } else { op.cycles_conditional }),
        ..pre
    }));
    assert(effect(d.0.action, mid, m0, l0, pre, m1, l1));
}

/// An instruction right after EI runs before any maskable interrupt is accepted: a
/// state whose latch EI set does not accept one.
pub proof fn lemma_ei_defers_interrupt(s: State)
    requires
        s.int_just_enabled,
    ensures
        step_kind(s) != StepKind::Interrupt,
{
}

/// The Z80 or 8080 CPU: its state, its decoder, and whether it traces.
pub struct Cpu {
    /// Registers and step bookkeeping
    pub state: State,
    /// Whether the host prints each instruction run
    pub trace: bool,
    /// The decoder of the variant
    pub decoder: CpuDecoder,
}

impl View for Cpu {
    type V = State;

    open spec fn view(&self) -> State {
        self.state
    }
}

/// The state of a CPU at power up: AF and SP 0xffff (with F as the 8080 keeps it in
/// 8080 mode), everything else clear.
pub open spec fn power_up(s: State, mode8080: bool) -> bool {
    &&& s.reg.data@ == (if mode8080 {
        Registers::spec_new().data@.update(1, 0xd7)
    } else {
        Registers::spec_new().data@
    })
    &&& s.reg.shadow@ == Registers::spec_new().shadow@
    &&& s.reg.pc == 0
    &&& !s.reg.iff1 && !s.reg.iff2 && s.reg.im == 0
    &&& s.reg.mode8080 == mode8080
    &&& s.cycle == 0
    &&& !s.branch_taken && !s.halted && !s.int_signaled && !s.nmi_pending && !s.reset_pending
    &&& !s.int_just_enabled
    &&& s.index == Reg16::HL
    &&& s.displacement == 0
}

impl Cpu {
    /// Whether the decoder tables are complete.
    pub open spec fn wf(&self) -> bool {
        self.decoder.wf()
    }

    /// Whether the CPU is a Z80.
    pub open spec fn is_z80(&self) -> bool {
        self.decoder.is_z80()
    }

    /// Returns a Z80 at power up.
    pub fn new() -> (r: Cpu)
        ensures
            r.wf(),
            r.is_z80(),
            power_up(r@, false),
    {
        Cpu { state: State::new(), trace: false, decoder: CpuDecoder::Z80(DecoderZ80::new()) }
    }

    /// Returns a Z80 at power up.
    pub fn new_z80() -> (r: Cpu)
        ensures
            r.wf(),
            r.is_z80(),
            power_up(r@, false),
    {
        Cpu::new()
    }

    /// Returns an 8080 at power up: AF = 0xffd7, SP = 0xffff.
    pub fn new_8080() -> (r: Cpu)
        ensures
            r.wf(),
            !r.is_z80(),
            power_up(r@, true),
    {
        let mut state = State::new();
        state.reg.set_8080();
        let r = Cpu { state, trace: false, decoder: CpuDecoder::I8080(Decoder8080::new()) };
        assert(r@.reg.data@ =~= Registers::spec_new().data@.update(1, 0xd7));
        r
    }

    /// Runs one step, as `stepped` states: a pending reset, non maskable interrupt or
    /// accepted maskable interrupt is handled and ends the step; a halted CPU with
    /// nothing to wake it stays as it is; otherwise the instruction at PC runs.
    pub fn execute_instruction<M: Machine>(&mut self, sys: &mut M)
        requires
            old(self).wf(),
        ensures
            final(self).decoder == old(self).decoder,
            final(self).trace == old(self).trace,
            stepped(old(self).decoder, old(self)@, old(sys).memory(), old(sys).port_log(), final(self)@, final(sys).memory(), final(sys).port_log()),
    {
        step(&mut self.state, &self.decoder, sys);
    }

    /// Decodes the instruction at PC and returns its mnemonic; PC moves past it, operands
    /// included, and nothing else changes but the index and displacement, cleared.
    pub fn disasm_instruction<M: Machine>(&mut self, sys: &mut M) -> (r: String)
        requires
            old(self).wf(),
        ensures
            final(self).decoder == old(self).decoder,
            final(self).trace == old(self).trace,
            ({
                let d = old(self).decoder.decode_result(old(sys).memory(), old(self)@.reg.pc);
                final(self)@ == (State {
                    reg: Registers { pc: ((d.1 + spec_operand_len(d.0.action)) % 0x10000) as u16, ..old(self)@.reg },
                    index: Reg16::HL,
                    displacement: 0,
                    ..old(self)@
                })
            }),
            final(sys).memory() == old(sys).memory(),
            ({
                let d = old(self).decoder.decode_result(old(sys).memory(), old(self)@.reg.pc);
                r@ == mnemonic_text(
                    d.0.action,
                    Operands {
                        filled: true,
                        index: d.2,
                        displacement: d.3,
                        byte: old(sys).memory()[d.1],
                        word: word_at(old(sys).memory(), d.1),
                    },
                )
            }),
    {
        self.state.clear_index();
        self.state.displacement = 0;
        let (op, _extra, _fetches) = self.decoder.decode(&mut self.state, sys);
        let text = op.disasm(&self.state, sys);
        let pc = self.state.reg.pc();
        self.state.reg.set_pc(pc.wrapping_add(operand_len(op.action)));
        self.state.clear_index();
        self.state.displacement = 0;
        text
    }

    /// Turns tracing of the instructions run on or off.
    pub fn set_trace(&mut self, trace: bool)
        ensures
            *final(self) == (Cpu { trace, ..*old(self) }),
    {
        self.trace = trace;
    }

    /// Whether tracing is on.
    pub fn is_tracing(&self) -> (r: bool)
        ensures
            r == self.trace,
    {
        self.trace
    }

    /// The registers, to read and change.
    pub fn registers(&mut self) -> (r: &mut Registers)
        ensures
            *r == old(self)@.reg,
            *final(self) == (Cpu { state: State { reg: *final(r), ..old(self)@ }, ..*old(self) }),
    {
        &mut self.state.reg
    }

    /// Whether the CPU is halted with no reset or non maskable interrupt pending.
    pub fn is_halted(&self) -> (r: bool)
        ensures
            r == (self@.halted && !self@.nmi_pending && !self@.reset_pending),
    {
        self.state.halted && !self.state.nmi_pending && !self.state.reset_pending
    }

    /// Requests a non maskable interrupt.
    pub fn signal_nmi(&mut self)
        ensures
            *final(self) == (Cpu { state: State { nmi_pending: true, ..old(self)@ }, ..*old(self) }),
    {
        self.state.nmi_pending = true;
    }

    /// Requests a reset.
    pub fn signal_reset(&mut self)
        ensures
            *final(self) == (Cpu { state: State { reset_pending: true, ..old(self)@ }, ..*old(self) }),
    {
        self.state.reset_pending = true;
    }

    /// Raises or lowers the maskable interrupt line.
    pub fn signal_interrupt(&mut self, active: bool)
        ensures
            *final(self) == (Cpu { state: State { int_signaled: active, ..old(self)@ }, ..*old(self) }),
    {
        self.state.int_signaled = active;
    }

    /// The cycle counter.
    pub fn cycle_count(&self) -> (r: u64)
        ensures
            r == self@.cycle,
    {
        self.state.cycle
    }

    /// The state as a fixed length byte blob.
    pub fn serialize(&self) -> (r: Vec<u8>)
        ensures
            r@ == self@.serialized(),
    {
        self.state.serialize()
    }

    /// Reads the state back from a blob; fails, changing nothing, when the blob is too
    /// short or its index tag is not 0, 1 or 2.
    pub fn deserialize(&mut self, data: &[u8]) -> (r: Result<(), DeserializeError>)
        ensures
            final(self).decoder == old(self).decoder,
            final(self).trace == old(self).trace,
            r.is_ok() <==> data@.len() >= SERIALIZE_SIZE && data@[51] <= 2,
            r.is_err() ==> final(self)@ == old(self)@,
            r.is_ok() ==> final(self)@.reg.data@ == data@.subrange(0, 16),
            r.is_ok() ==> final(self)@.reg.shadow@ == data@.subrange(16, 32),
            r.is_ok() ==> final(self)@ == (State {
                reg: Registers { data: final(self)@.reg.data, shadow: final(self)@.reg.shadow, ..old(self)@.deserialized(data@).reg },
                ..old(self)@.deserialized(data@)
            }),
    {
        self.state.deserialize(data)
    }
}

/// The Intel 8080 CPU.
pub struct Cpu8080 {
    /// The CPU, with the 8080 decoder
    pub cpu: Cpu,
}

impl View for Cpu8080 {
    type V = State;

    open spec fn view(&self) -> State {
        self.cpu@
    }
}

impl Cpu8080 {
    /// Whether the decoder table is complete and is the 8080's.
    pub open spec fn wf(&self) -> bool {
        self.cpu.wf() && !self.cpu.is_z80()
    }

    /// Returns an 8080 at power up: AF = 0xffd7, SP = 0xffff.
    pub fn new() -> (r: Cpu8080)
        ensures
            r.wf(),
            power_up(r@, true),
    {
        Cpu8080 { cpu: Cpu::new_8080() }
    }

    /// Runs one step, as `stepped` states for the 8080 decoder.
    pub fn execute_instruction<M: Machine>(&mut self, sys: &mut M)
        requires
            old(self).wf(),
        ensures
            final(self).cpu.decoder == old(self).cpu.decoder,
            final(self).cpu.trace == old(self).cpu.trace,
            stepped(old(self).cpu.decoder, old(self)@, old(sys).memory(), old(sys).port_log(), final(self)@, final(sys).memory(), final(sys).port_log()),
    {
        self.cpu.execute_instruction(sys);
    }

    /// Turns tracing on or off.
    pub fn set_trace(&mut self, trace: bool)
        ensures
            *final(self) == (Cpu8080 { cpu: Cpu { trace, ..old(self).cpu } }),
    {
        self.cpu.set_trace(trace);
    }

    /// Whether tracing is on.
    pub fn is_tracing(&self) -> (r: bool)
        ensures
            r == self.cpu.trace,
    {
        self.cpu.is_tracing()
    }

    /// The registers, to read and change.
    pub fn registers(&mut self) -> (r: &mut Registers)
        ensures
            *r == old(self)@.reg,
            *final(self) == (Cpu8080 { cpu: Cpu { state: State { reg: *final(r), ..old(self)@ }, ..old(self).cpu } }),
    {
        self.cpu.registers()
    }

    /// Whether the CPU is halted.
    pub fn is_halted(&self) -> (r: bool)
        ensures
            r == (self@.halted && !self@.nmi_pending && !self@.reset_pending),
    {
        self.cpu.is_halted()
    }
}

} // verus!
