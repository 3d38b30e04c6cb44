use vstd::prelude::*;
use crate::cycles::{
    z80_cb_cycles, z80_cb_indexed_cycles, z80_ed, z80_ed_cycles, z80_ed_not_taken, z80_ed_not_taken_of,
    z80_main, z80_main_cycles, z80_main_not_taken, z80_main_not_taken_of,
};
use crate::machine::{next_addr, Machine};
use crate::opcode::{
    Action,
    build_disable_interrupts, build_enable_interrupts, build_halt, build_im, build_noni_nop, build_nop,
    build_not_an_opcode, build_pop_rr, build_push_rr, Opcode, ShiftDir, ShiftMode,
};
use crate::opcode_alu::{build_cp_block, build_operator_a_n, build_operator_a_r};
use crate::opcode_arith::{
    build_adc_hl_rr, build_add_hl_rr, build_daa, build_dec_r, build_inc_dec_rr, build_inc_r, build_neg,
    build_sbc_hl_rr,
};
use crate::opcode_bits::{
    build_bit_r, build_ccf, build_cpl, build_indexed_set_res_r, build_rot_r, build_rxd, build_scf,
    build_set_res_r,
};
use crate::opcode_io::{
    build_in_0_c, build_in_a_n, build_in_block, build_in_r_c, build_out_block, build_out_c_0, build_out_c_r,
    build_out_n_a,
};
use crate::opcode_jumps::{
    build_call, build_call_eq, build_djnz, build_jp_eq, build_jp_hl, build_jp_unconditional, build_jr_eq,
    build_jr_unconditional, build_ret, build_ret_eq, build_reti, build_retn, build_rst,
};
use crate::opcode_ld::{
    build_ex_af, build_ex_de_hl, build_ex_psp_hl, build_exx, build_ld_a_pnn, build_ld_a_prr, build_ld_block,
    build_ld_pnn_a, build_ld_pnn_rr, build_ld_prr_a, build_ld_r_n, build_ld_r_r, build_ld_rr_nn,
    build_ld_rr_pnn, build_ld_sp_hl,
};
use crate::operators::AluOp;
use crate::registers::{Flag, Reg16, Reg8, Registers};
use crate::state::State;

verus! {

/// Whether `b` is an index prefix, DD or FD.
pub open spec fn is_prefix(b: u8) -> bool {
    b == 0xdd || b == 0xfd
}

/// Whether slot `c` of the table without prefix is a prefix byte, which dispatch
/// never reaches.
pub open spec fn is_prefix_slot(c: int) -> bool {
    c == 0xcb || c == 0xdd || c == 0xed || c == 0xfd
}

/// The address `i` bytes after `pc`, wrapping.
pub open spec fn addr_plus(pc: u16, i: int) -> u16 {
    ((pc as int + i) % 0x10000) as u16
}

/// Whether memory at `pc` starts with exactly `n` index prefixes: `n` prefix bytes,
/// then one that is not, unless all 65535 bytes read were prefixes.
pub open spec fn prefix_run(m: Map<u16, u8>, pc: u16, n: int) -> bool {
    &&& 0 <= n <= 0xffff
    &&& forall|i: int| 0 <= i < n ==> is_prefix(#[trigger] m[addr_plus(pc, i)])
    &&& n < 0xffff ==> !is_prefix(m[addr_plus(pc, n)])
}

/// The index that the last of `n` prefixes at `pc` selects: IX for DD, IY for FD, HL
/// with no prefix.
pub open spec fn last_prefix_index(m: Map<u16, u8>, pc: u16, n: int) -> Reg16 {
    if n == 0 {
        Reg16::HL
    } else if m[addr_plus(pc, n - 1)] == 0xdd {
        Reg16::IX
    } else {
        Reg16::IY
    }
}

/// Whether an opcode without prefix reads a displacement under DD or FD: those that
/// involve (HL).
pub open spec fn takes_displacement(c: int) -> bool {
    c == 0x34 || c == 0x35 || c == 0x36 || c == 0x46 || c == 0x4e || c == 0x56 || c == 0x5e || c == 0x66
        || c == 0x6e || (0x70 <= c <= 0x75) || c == 0x77 || c == 0x7e || c == 0x86 || c == 0x8e || c
        == 0x96 || c == 0x9e || c == 0xa6 || c == 0xae || c == 0xb6 || c == 0xbe
}

/// The number of prefixes read before an instruction is determined by memory: two
/// counts that both fit it are equal.
pub proof fn lemma_prefix_run_unique(m: Map<u16, u8>, pc: u16, n1: int, n2: int)
    requires
        prefix_run(m, pc, n1),
        prefix_run(m, pc, n2),
    ensures
        n1 == n2,
{
    if n1 < n2 {
        assert(is_prefix(m[addr_plus(pc, n1)]));
    } else if n2 < n1 {
        assert(is_prefix(m[addr_plus(pc, n2)]));
    }
}

/// The address after `pc + i` is `pc + i + 1`.
pub proof fn lemma_addr_plus_next(pc: u16, i: int)
    requires
        0 <= i,
    ensures
        next_addr(addr_plus(pc, i)) == addr_plus(pc, i + 1),
{
}

/// The Z80 instruction decoder: the table without prefix, the CB, DD CB and ED tables,
/// and which opcodes take a displacement.
pub struct DecoderZ80 {
    /// Opcodes without prefix
    pub no_prefix: Vec<Opcode>,
    /// Opcodes after CB
    pub prefix_cb: Vec<Opcode>,
    /// Opcodes after DD CB d or FD CB d
    pub prefix_cb_indexed: Vec<Opcode>,
    /// Opcodes after ED
    pub prefix_ed: Vec<Opcode>,
    /// Opcodes without prefix that read a displacement under DD or FD
    pub has_displacement: Vec<bool>,
}

impl DecoderZ80 {
    /// Whether every slot holds the opcode the tables give, with the published cycles.
    pub open spec fn wf(&self) -> bool {
        &&& self.no_prefix@.len() == 256
        &&& self.prefix_cb@.len() == 256
        &&& self.prefix_cb_indexed@.len() == 256
        &&& self.prefix_ed@.len() == 256
        &&& self.has_displacement@.len() == 256
        &&& forall|i: int|
            0 <= i < 256 ==> {
                &&& (#[trigger] self.no_prefix@[i]).action.wf() || is_prefix_slot(i)
                &&& self.no_prefix@[i].action == z80_main_action(i as u8)
                &&& self.no_prefix@[i].cycles == z80_main_cycles(i)
                &&& self.no_prefix@[i].cycles_conditional == z80_main_not_taken(i)
            }
        &&& forall|i: int|
            0 <= i < 256 ==> {
                &&& (#[trigger] self.prefix_cb@[i]).action.wf()
                &&& self.prefix_cb@[i].action == z80_cb_action(i as u8, false)
                &&& self.prefix_cb@[i].cycles == z80_cb_cycles(i)
                &&& self.prefix_cb@[i].cycles_conditional == z80_cb_cycles(i)
            }
        &&& forall|i: int|
            0 <= i < 256 ==> {
                &&& (#[trigger] self.prefix_cb_indexed@[i]).action.wf()
                &&& self.prefix_cb_indexed@[i].action == z80_cb_action(i as u8, true)
                &&& self.prefix_cb_indexed@[i].cycles == z80_cb_indexed_cycles(i)
                &&& self.prefix_cb_indexed@[i].cycles_conditional == z80_cb_indexed_cycles(i)
            }
        &&& forall|i: int|
            0 <= i < 256 ==> {
                &&& (#[trigger] self.prefix_ed@[i]).action.wf()
                &&& self.prefix_ed@[i].action == z80_ed_action(i as u8)
                &&& self.prefix_ed@[i].cycles == z80_ed_cycles(i)
                &&& self.prefix_ed@[i].cycles_conditional == z80_ed_not_taken(i)
            }
        &&& forall|i: int| 0 <= i < 256 ==> #[trigger] self.has_displacement@[i] == takes_displacement(i)
    }

    /// Whether `op` is the opcode of some slot of the tables.
    pub open spec fn is_slot(&self, op: Opcode) -> bool {
        exists|i: int|
            0 <= i < 256 && (op == self.no_prefix@[i] || op == self.prefix_cb@[i] || op == self.prefix_cb_indexed@[i]
                || op == self.prefix_ed@[i])
    }

    /// The opcode that memory `m` holds at `pc` after `n` prefixes, and the PC, index
    /// and displacement that decoding leaves; a run of prefixes over all of memory ends
    /// in a no-operation.
    pub open spec fn decoded(&self, m: Map<u16, u8>, pc: u16, n: int, d: i8) -> (Opcode, u16, Reg16, i8) {
        let code = m[addr_plus(pc, n)];
        let ix = last_prefix_index(m, pc, n);
        if is_prefix(code) {
            (self.prefix_ed@[0], addr_plus(pc, n + 1), Reg16::HL, d)
        } else if code == 0xcb {
            if ix != Reg16::HL {
                (self.prefix_cb_indexed@[m[addr_plus(pc, n + 2)] as int], addr_plus(pc, n + 3), ix, m[addr_plus(pc, n + 1)] as i8)
            } else {
                (self.prefix_cb@[m[addr_plus(pc, n + 1)] as int], addr_plus(pc, n + 2), ix, d)
            }
        } else if code == 0xed {
            (self.prefix_ed@[m[addr_plus(pc, n + 1)] as int], addr_plus(pc, n + 2), Reg16::HL, d)
        } else if self.has_displacement@[code as int] && ix != Reg16::HL {
            (self.no_prefix@[code as int], addr_plus(pc, n + 2), ix, m[addr_plus(pc, n + 1)] as i8)
        } else {
            (self.no_prefix@[code as int], addr_plus(pc, n + 1), ix, d)
        }
    }

    /// Cycles an instruction costs beyond its table slot, and the opcode fetches (M1
    /// cycles) it makes, after `n` prefixes at `pc`: each prefix costs 4, except that the
    /// DD CB and FD CB slots already include their prefix; an (IX+d) or (IY+d) form of the
    /// main table costs 8 more for its displacement, 5 for LD (IX+d), n. Every prefix and
    /// opcode byte is a fetch, the displacement and the opcode after DD CB d are not.
    pub open spec fn decoded_costs(&self, m: Map<u16, u8>, pc: u16, n: int) -> (int, int) {
        let code = m[addr_plus(pc, n)];
        let ix = last_prefix_index(m, pc, n);
        if is_prefix(code) {
            (4 * n, n + 1)
        } else if code == 0xcb {
            if ix != Reg16::HL {
                (4 * (n - 1), n + 1)
            } else {
                (4 * n, n + 2)
            }
        } else if code == 0xed {
            (4 * n, n + 2)
        } else if self.has_displacement@[code as int] && ix != Reg16::HL {
            (4 * n + if code == 0x36 { 5int } else { 8int }, n + 1)
        } else {
            (4 * n, n + 1)
        }
    }

    /// Returns the Z80 decoder with all its tables.
    pub fn new() -> (r: DecoderZ80)
        ensures
            r.wf(),
    {
        DecoderZ80 {
            no_prefix: no_prefix_opcodes(),
            prefix_cb: cb_prefix_opcodes(),
            prefix_cb_indexed: cb_indexed_prefix_opcodes(),
            prefix_ed: ed_prefix_opcodes(),
            has_displacement: displacements(),
        }
    }

    /// Reads one instruction at PC: any number of DD and FD prefixes (the last one
    /// selects the index), then CB with its displacement under an index, ED (which
    /// drops the index), or an opcode of the main table with its displacement where it
    /// involves (HL). Returns the opcode and the number of prefixes read.
    #[verifier::rlimit(100)]
    pub fn decode<'a, M: Machine>(&'a self, state: &mut State, sys: &M) -> (r: (&'a Opcode, u32, u32, u32))
        requires
            self.wf(),
            old(state).index == Reg16::HL,
        ensures
            (r.2 as int, r.3 as int) == self.decoded_costs(sys.memory(), old(state).reg.pc, r.1 as int),
            r.1 <= 0xffff,
            r.2 <= 0x40010,
            r.3 <= 0x10001,
            r.0.action.wf(),
            self.is_slot(*r.0),
            prefix_run(sys.memory(), old(state).reg.pc, r.1 as int),
            *final(state) == (State {
                reg: Registers { pc: final(state).reg.pc, ..old(state).reg },
                index: final(state).index,
                displacement: final(state).displacement,
                ..*old(state)
            }),
            final(state).index_ok(),
            (
                *r.0,
                final(state).reg.pc,
                final(state).index,
                final(state).displacement,
            ) == self.decoded(sys.memory(), old(state).reg.pc, r.1 as int, old(state).displacement),
    {
        let ghost m = sys.memory();
        let ghost pc0 = state.reg.pc;
        let mut code = state.advance_pc(sys);
        let mut n: u32 = 0;
        proof {
            lemma_addr_plus_next(pc0, 0);
        }
        while (code == 0xdd || code == 0xfd) && n < 0xffff
            invariant
                n <= 0xffff,
                m == sys.memory(),
                self.wf(),
                state.reg.pc == addr_plus(pc0, n + 1),
                code == m[addr_plus(pc0, n as int)],
                forall|i: int| 0 <= i < n ==> is_prefix(#[trigger] m[addr_plus(pc0, i)]),
                state.index == last_prefix_index(m, pc0, n as int),
                *state == (State {
                    reg: Registers { pc: state.reg.pc, ..old(state).reg },
                    index: state.index,
                    ..*old(state)
                }),
            decreases 0xffff - n,
        {
            if code == 0xdd {
                state.set_index(Reg16::IX);
            } else {
                state.set_index(Reg16::IY);
            }
            proof {
                lemma_addr_plus_next(pc0, n + 1);
            }
            code = state.advance_pc(sys);
            n = n + 1;
        }
        if code == 0xdd || code == 0xfd {
            state.clear_index();
            assert(self.is_slot(self.prefix_ed@[0]));
            return (&self.prefix_ed[0], n, 4 * n, n + 1);
        }
        proof {
            lemma_addr_plus_next(pc0, n + 1);
            lemma_addr_plus_next(pc0, n + 2);
        }
        if code == 0xcb {
            if state.is_alt_index() {
                state.load_displacement(sys);
                let c = state.advance_pc(sys);
                assert(self.is_slot(self.prefix_cb_indexed@[c as int]));
                (&self.prefix_cb_indexed[c as usize], n, 4 * (n - 1), n + 1)
            } else {
                let c = state.advance_pc(sys);
                assert(self.is_slot(self.prefix_cb@[c as int]));
                (&self.prefix_cb[c as usize], n, 4 * n, n + 2)
            }
        } else if code == 0xed {
            state.clear_index();
            let c = state.advance_pc(sys);
            assert(self.is_slot(self.prefix_ed@[c as int]));
            (&self.prefix_ed[c as usize], n, 4 * n, n + 2)
        } else {
            let mut extra: u32 = 4 * n;
            if self.has_displacement[code as usize] && state.is_alt_index() {
                state.load_displacement(sys);
                extra = extra + if code == 0x36 { 5 } else { 8 };
            }
            assert(self.is_slot(self.no_prefix@[code as int]));
            (&self.no_prefix[code as usize], n, extra, n + 1)
        }
    }
}

/// The 8 bit register that the 3 bit field `i` names: B, C, D, E, H, L, (HL), A.
pub open spec fn spec_r(i: u8) -> Reg8 {
    if i == 0 {
        Reg8::B
    } else if i == 1 {
        Reg8::C
    } else if i == 2 {
        Reg8::D
    } else if i == 3 {
        Reg8::E
    } else if i == 4 {
        Reg8::H
    } else if i == 5 {
        Reg8::L
    } else if i == 6 {
        Reg8::_HL
    } else {
        Reg8::A
    }
}

/// The register pair that the 2 bit field `i` names: BC, DE, HL, SP.
pub open spec fn spec_rp(i: u8) -> Reg16 {
    if i == 0 {
        Reg16::BC
    } else if i == 1 {
        Reg16::DE
    } else if i == 2 {
        Reg16::HL
    } else {
        Reg16::SP
    }
}

/// The register pair that the 2 bit field `i` names: BC, DE, HL, AF.
pub open spec fn spec_rp2(i: u8) -> Reg16 {
    if i == 0 {
        Reg16::BC
    } else if i == 1 {
        Reg16::DE
    } else if i == 2 {
        Reg16::HL
    } else {
        Reg16::AF
    }
}

/// The condition that the 3 bit field `i` names: NZ, Z, NC, C, PO, PE, P, M.
pub open spec fn spec_cc(i: u8) -> (Flag, bool) {
    (
        if i < 2 {
            Flag::Z
        } else if i < 4 {
            Flag::C
        } else if i < 6 {
            Flag::P
        } else {
            Flag::S
        },
        i % 2 == 1,
    )
}

/// The ALU operation that the 3 bit field `i` names: ADD, ADC, SUB, SBC, AND, XOR, OR, CP.
pub open spec fn spec_alu(i: u8) -> AluOp {
    if i == 0 {
        AluOp::Add
    } else if i == 1 {
        AluOp::Adc
    } else if i == 2 {
        AluOp::Sub
    } else if i == 3 {
        AluOp::Sbc
    } else if i == 4 {
        AluOp::And
    } else if i == 5 {
        AluOp::Xor
    } else if i == 6 {
        AluOp::Or
    } else {
        AluOp::Cp
    }
}

/// The shift that the 3 bit field `i` names: RLC, RRC, RL, RR, SLA, SRA, SLL, SRL.
pub open spec fn spec_rot(i: u8) -> (ShiftDir, ShiftMode) {
    (
        if i % 2 == 0 {
            ShiftDir::Left
        } else {
            ShiftDir::Right
        },
        if i < 2 {
            ShiftMode::RotateCarry
        } else if i < 4 {
            ShiftMode::Rotate
        } else if i < 6 {
            ShiftMode::Arithmetic
        } else {
            ShiftMode::Logical
        },
    )
}

/// The operation of opcode `c` without prefix on the Z80, by the fields x (bits 7-6),
/// y (5-3), z (2-0), p (5-4) and q (3); the prefix bytes CB, DD, ED, FD hold no
/// operation.
#[verifier::opaque]
pub open spec fn z80_main_action(c: u8) -> Action {
    let x = c / 64;
    let y = (c / 8) % 8;
    let z = c % 8;
    let p = (c / 16) % 4;
    let q = (c / 8) % 2;
    if c == 0xcb || c == 0xdd || c == 0xed || c == 0xfd {
        Action::NotAnOpcode
    } else if x == 0 {
        if z == 0 {
            if y == 0 {
                Action::Nop
            } else if y == 1 {
                Action::ExAf
            } else if y == 2 {
                Action::Djnz
            } else if y == 3 {
                Action::JrUnconditional
            } else {
                Action::JrEq(spec_cc((y - 4) as u8).0, spec_cc((y - 4) as u8).1)
            }
        } else if z == 1 {
            if q == 0 {
                Action::LdRrNn(spec_rp(p))
            } else {
                Action::AddHlRr(spec_rp(p))
            }
        } else if z == 2 {
            if q == 0 {
                if p == 0 {
                    Action::LdPrrA(Reg16::BC)
                } else if p == 1 {
                    Action::LdPrrA(Reg16::DE)
                } else if p == 2 {
                    Action::LdPnnRr(Reg16::HL)
                } else {
                    Action::LdPnnA
                }
            } else {
                if p == 0 {
                    Action::LdAPrr(Reg16::BC)
                } else if p == 1 {
                    Action::LdAPrr(Reg16::DE)
                } else if p == 2 {
                    Action::LdRrPnn(Reg16::HL)
                } else {
                    Action::LdAPnn
                }
            }
        } else if z == 3 {
            Action::IncDecRr(spec_rp(p), q == 0)
        } else if z == 4 {
            Action::IncR(spec_r(y))
        } else if z == 5 {
            Action::DecR(spec_r(y))
        } else if z == 6 {
            Action::LdRN(spec_r(y))
        } else if y <= 3 {
            Action::Rot(Reg8::A, spec_rot(y).0, spec_rot(y).1, true, false)
        } else if y == 4 {
            Action::Daa
        } else if y == 5 {
            Action::Cpl
        } else if y == 6 {
            Action::Scf
        } else {
            Action::Ccf
        }
    } else if x == 1 {
        if z == 6 && y == 6 {
            Action::Halt
        } else {
            Action::LdRR(spec_r(y), spec_r(z))
        }
    } else if x == 2 {
        Action::AluR(spec_alu(y), spec_r(z))
    } else if z == 0 {
        Action::RetEq(spec_cc(y).0, spec_cc(y).1)
    } else if z == 1 {
        if q == 0 {
            Action::PopRr(spec_rp2(p))
        } else if p == 0 {
            Action::Ret
        } else if p == 1 {
            Action::Exx
        } else if p == 2 {
            Action::JpHl
        } else {
            Action::LdSpHl
        }
    } else if z == 2 {
        Action::JpEq(spec_cc(y).0, spec_cc(y).1)
    } else if z == 3 {
        if y == 0 {
            Action::JpUnconditional
        } else if y == 2 {
            Action::OutNA
        } else if y == 3 {
            Action::InAN
        } else if y == 4 {
            Action::ExPspHl
        } else if y == 5 {
            Action::ExDeHl
        } else if y == 6 {
            Action::DisableInterrupts
        } else {
            Action::EnableInterrupts
        }
    } else if z == 4 {
        Action::CallEq(spec_cc(y).0, spec_cc(y).1)
    } else if z == 5 {
        if q == 0 {
            Action::PushRr(spec_rp2(p))
        } else {
            Action::Call
        }
    } else if z == 6 {
        Action::AluN(spec_alu(y))
    } else {
        Action::Rst((y * 8) as u8)
    }
}

/// The operation of opcode `c` after CB, or after DD CB d and FD CB d (`indexed`):
/// shifts, BIT, RES and SET, the indexed forms of RES and SET copying the result to a
/// register.
#[verifier::opaque]
pub open spec fn z80_cb_action(c: u8, indexed: bool) -> Action {
    let x = c / 64;
    let y = (c / 8) % 8;
    let z = c % 8;
    if x == 0 {
        Action::Rot(spec_r(z), spec_rot(y).0, spec_rot(y).1, false, indexed)
    } else if x == 1 {
        Action::Bit(y, spec_r(z))
    } else if indexed {
        Action::IndexedSetRes(y, spec_r(z), x == 3)
    } else {
        Action::SetRes(y, spec_r(z), x == 3)
    }
}

/// The operation of opcode `c` after ED; undefined slots do nothing.
#[verifier::opaque]
pub open spec fn z80_ed_action(c: u8) -> Action {
    let x = c / 64;
    let y = (c / 8) % 8;
    let z = c % 8;
    let p = (c / 16) % 4;
    let q = (c / 8) % 2;
    if x == 1 {
        if z == 0 {
            if y == 6 {
                Action::In0C
            } else {
                Action::InRC(spec_r(y))
            }
        } else if z == 1 {
            if y == 6 {
                Action::OutC0
            } else {
                Action::OutCR(spec_r(y))
            }
        } else if z == 2 {
            if q == 0 {
                Action::SbcHlRr(spec_rp(p))
            } else {
                Action::AdcHlRr(spec_rp(p))
            }
        } else if z == 3 {
            if q == 0 {
                Action::LdPnnRr(spec_rp(p))
            } else {
                Action::LdRrPnn(spec_rp(p))
            }
        } else if z == 4 {
            Action::Neg
        } else if z == 5 {
            if y == 1 {
                Action::Reti
            } else {
                Action::Retn
            }
        } else if z == 6 {
            Action::Im(if y % 4 == 2 { 1u8 } else if y % 4 == 3 { 2u8 } else { 0u8 })
        } else if y == 0 {
            Action::LdRR(Reg8::I, Reg8::A)
        } else if y == 1 {
            Action::LdRR(Reg8::R, Reg8::A)
        } else if y == 2 {
            Action::LdRR(Reg8::A, Reg8::I)
        } else if y == 3 {
            Action::LdRR(Reg8::A, Reg8::R)
        } else if y == 4 {
            Action::Rxd(ShiftDir::Right)
        } else if y == 5 {
            Action::Rxd(ShiftDir::Left)
        } else {
            Action::Nop
        }
    } else if x == 2 && z <= 3 && y >= 4 {
        if z == 0 {
            Action::LdBlock(y % 2 == 0, y >= 6)
        } else if z == 1 {
            Action::CpBlock(y % 2 == 0, y >= 6)
        } else if z == 2 {
            Action::InBlock(y % 2 == 0, y >= 6)
        } else {
            Action::OutBlock(y % 2 == 0, y >= 6)
        }
    } else {
        Action::NoniNop
    }
}

/// The 8 bit register that the 3 bit field `i` names; 6 is (HL).
pub fn r_table(i: u8) -> (r: Reg8)
    requires
        i < 8,
    ensures
        (r == Reg8::_HL) == (i == 6),
        r != Reg8::F,
        r == spec_r(i),
{
    match i {
        0 => Reg8::B,
        1 => Reg8::C,
        2 => Reg8::D,
        3 => Reg8::E,
        4 => Reg8::H,
        5 => Reg8::L,
        6 => Reg8::_HL,
        _ => Reg8::A,
    }
}

/// The register pair that the 2 bit field `i` names, with SP in the last place.
pub fn rp_table(i: u8) -> (r: Reg16)
    ensures
        r != Reg16::AF,
        r == spec_rp(i),
{
    match i {
        0 => Reg16::BC,
        1 => Reg16::DE,
        2 => Reg16::HL,
        _ => Reg16::SP,
    }
}

/// The register pair that the 2 bit field `i` names, with AF in the last place.
pub fn rp2_table(i: u8) -> (r: Reg16)
    ensures
        r == spec_rp2(i),
{
    match i {
        0 => Reg16::BC,
        1 => Reg16::DE,
        2 => Reg16::HL,
        _ => Reg16::AF,
    }
}

/// The condition that the 3 bit field `i` names: NZ, Z, NC, C, PO, PE, P, M.
pub fn cc_table(i: u8) -> (r: (Flag, bool))
    requires
        i < 8,
    ensures
        r == spec_cc(i),
{
    match i {
        0 => (Flag::Z, false),
        1 => (Flag::Z, true),
        2 => (Flag::C, false),
        3 => (Flag::C, true),
        4 => (Flag::P, false),
        5 => (Flag::P, true),
        6 => (Flag::S, false),
        _ => (Flag::S, true),
    }
}

/// The ALU operation that the 3 bit field `i` names.
pub fn alu_table(i: u8) -> (r: AluOp)
    ensures
        r == spec_alu(i),
{
    match i {
        0 => AluOp::Add,
        1 => AluOp::Adc,
        2 => AluOp::Sub,
        3 => AluOp::Sbc,
        4 => AluOp::And,
        5 => AluOp::Xor,
        6 => AluOp::Or,
        _ => AluOp::Cp,
    }
}

/// The shift or rotation that the 3 bit field `i` names: RLC, RRC, RL, RR, SLA, SRA,
/// SLL, SRL.
pub fn rot_table(i: u8) -> (r: (ShiftDir, ShiftMode))
    requires
        i < 8,
    ensures
        r == spec_rot(i),
{
    match i {
        0 => (ShiftDir::Left, ShiftMode::RotateCarry),
        1 => (ShiftDir::Right, ShiftMode::RotateCarry),
        2 => (ShiftDir::Left, ShiftMode::Rotate),
        3 => (ShiftDir::Right, ShiftMode::Rotate),
        4 => (ShiftDir::Left, ShiftMode::Arithmetic),
        5 => (ShiftDir::Right, ShiftMode::Arithmetic),
        6 => (ShiftDir::Left, ShiftMode::Logical),
        _ => (ShiftDir::Right, ShiftMode::Logical),
    }
}

fn no_prefix_opcode(c: u8) -> (r: Opcode)
    ensures
        r.action.wf() || is_prefix_slot(c as int),
        r.action == z80_main_action(c),
{
    reveal(z80_main_action);
    if c == 0xcb || c == 0xdd || c == 0xed || c == 0xfd {
        return build_not_an_opcode();
    }
    let x = c / 64;
    let y = (c / 8) % 8;
    let z = c % 8;
    let p = (c / 16) % 4;
    let q = (c / 8) % 2;
    if x == 0 {
        if z == 0 {
            if y == 0 {
                build_nop()
            } else if y == 1 {
                build_ex_af()
            } else if y == 2 {
                build_djnz()
            } else if y == 3 {
                build_jr_unconditional()
            } else {
                let (f, v) = cc_table(y - 4);
                build_jr_eq(f, v)
            }
        } else if z == 1 {
            if q == 0 {
                build_ld_rr_nn(rp_table(p))
            } else {
                build_add_hl_rr(rp_table(p))
            }
        } else if z == 2 {
            if q == 0 {
                if p == 0 {
                    build_ld_prr_a(Reg16::BC)
                } else if p == 1 {
                    build_ld_prr_a(Reg16::DE)
                } else if p == 2 {
                    build_ld_pnn_rr(Reg16::HL)
                } else {
                    build_ld_pnn_a()
                }
            } else {
                if p == 0 {
                    build_ld_a_prr(Reg16::BC)
                } else if p == 1 {
                    build_ld_a_prr(Reg16::DE)
                } else if p == 2 {
                    build_ld_rr_pnn(Reg16::HL)
                } else {
                    build_ld_a_pnn()
                }
            }
        } else if z == 3 {
            build_inc_dec_rr(rp_table(p), q == 0)
        } else if z == 4 {
            build_inc_r(r_table(y))
        } else if z == 5 {
            build_dec_r(r_table(y))
        } else if z == 6 {
            build_ld_r_n(r_table(y))
        } else {
            if y <= 3 {
                let (d, m) = rot_table(y);
                build_rot_r(Reg8::A, d, m, true, false)
            } else if y == 4 {
                build_daa()
            } else if y == 5 {
                build_cpl()
            } else if y == 6 {
                build_scf()
            } else {
                build_ccf()
            }
        }
    } else if x == 1 {
        if z == 6 && y == 6 {
            build_halt()
        } else {
            build_ld_r_r(r_table(y), r_table(z))
        }
    } else if x == 2 {
        build_operator_a_r(r_table(z), alu_table(y))
    } else {
        if z == 0 {
            let (f, v) = cc_table(y);
            build_ret_eq(f, v)
        } else if z == 1 {
            if q == 0 {
                build_pop_rr(rp2_table(p))
            } else if p == 0 {
                build_ret()
            } else if p == 1 {
                build_exx()
            } else if p == 2 {
                build_jp_hl()
            } else {
                build_ld_sp_hl()
            }
        } else if z == 2 {
            let (f, v) = cc_table(y);
            build_jp_eq(f, v)
        } else if z == 3 {
            if y == 0 {
                build_jp_unconditional()
            } else if y == 2 {
                build_out_n_a()
            } else if y == 3 {
                build_in_a_n()
            } else if y == 4 {
                build_ex_psp_hl()
            } else if y == 5 {
                build_ex_de_hl()
            } else if y == 6 {
                build_disable_interrupts()
            } else {
                build_enable_interrupts()
            }
        } else if z == 4 {
            let (f, v) = cc_table(y);
            build_call_eq(f, v)
        } else if z == 5 {
            if q == 0 {
                build_push_rr(rp2_table(p))
            } else {
                build_call()
            }
        } else if z == 6 {
            build_operator_a_n(alu_table(y))
        } else {
            build_rst(y * 8)
        }
    }
}

fn cb_opcode(c: u8, indexed: bool) -> (r: Opcode)
    ensures
        r.action.wf(),
        r.action == z80_cb_action(c, indexed),
{
    reveal(z80_cb_action);
    let x = c / 64;
    let y = (c / 8) % 8;
    let z = c % 8;
    if x == 0 {
        let (d, m) = rot_table(y);
        build_rot_r(r_table(z), d, m, false, indexed)
    } else if x == 1 {
        build_bit_r(y, r_table(z))
    } else if indexed {
        build_indexed_set_res_r(y, r_table(z), x == 3)
    } else {
        build_set_res_r(y, r_table(z), x == 3)
    }
}

fn ed_opcode(c: u8) -> (r: Opcode)
    ensures
        r.action.wf(),
        r.action == z80_ed_action(c),
{
    reveal(z80_ed_action);
    let x = c / 64;
    let y = (c / 8) % 8;
    let z = c % 8;
    let p = (c / 16) % 4;
    let q = (c / 8) % 2;
    if x == 1 {
        if z == 0 {
            if y == 6 {
                build_in_0_c()
            } else {
                build_in_r_c(r_table(y))
            }
        } else if z == 1 {
            if y == 6 {
                build_out_c_0()
            } else {
                build_out_c_r(r_table(y))
            }
        } else if z == 2 {
            if q == 0 {
                build_sbc_hl_rr(rp_table(p))
            } else {
                build_adc_hl_rr(rp_table(p))
            }
        } else if z == 3 {
            if q == 0 {
                build_ld_pnn_rr(rp_table(p))
            } else {
                build_ld_rr_pnn(rp_table(p))
            }
        } else if z == 4 {
            build_neg()
        } else if z == 5 {
            if y == 1 {
                build_reti()
            } else {
                build_retn()
            }
        } else if z == 6 {
            let m: u8 = if y % 4 == 2 {
                1
            } else if y % 4 == 3 {
                2
            } else {
                0
            };
            build_im(m)
        } else {
            if y == 0 {
                build_ld_r_r(Reg8::I, Reg8::A)
            } else if y == 1 {
                build_ld_r_r(Reg8::R, Reg8::A)
            } else if y == 2 {
                build_ld_r_r(Reg8::A, Reg8::I)
            } else if y == 3 {
                build_ld_r_r(Reg8::A, Reg8::R)
            } else if y == 4 {
                build_rxd(ShiftDir::Right)
            } else if y == 5 {
                build_rxd(ShiftDir::Left)
            } else {
                build_nop()
            }
        }
    } else if x == 2 && z <= 3 && y >= 4 {
        let inc = y % 2 == 0;
        let repeat = y >= 6;
        if z == 0 {
            build_ld_block(inc, repeat)
        } else if z == 1 {
            build_cp_block(inc, repeat)
        } else if z == 2 {
            build_in_block(inc, repeat)
        } else {
            build_out_block(inc, repeat)
        }
    } else {
        build_noni_nop()
    }
}

fn no_prefix_opcodes() -> (r: Vec<Opcode>)
    ensures
        r@.len() == 256,
        forall|i: int|
            0 <= i < 256 ==> {
                &&& (#[trigger] r@[i]).action.wf() || is_prefix_slot(i)
                &&& r@[i].action == z80_main_action(i as u8)
                &&& r@[i].cycles == z80_main_cycles(i)
                &&& r@[i].cycles_conditional == z80_main_not_taken(i)
            },
{
    let cycles = z80_main();
    let mut v: Vec<Opcode> = Vec::new();
    let mut c: usize = 0;
    while c < 256
        invariant
            c <= 256,
            v@.len() == c,
            cycles@ == crate::cycles::z80_main_table()@,
            forall|i: int|
                0 <= i < c ==> {
                    &&& (#[trigger] v@[i]).action.wf() || is_prefix_slot(i)
                    &&& v@[i].action == z80_main_action(i as u8)
                    &&& v@[i].cycles == z80_main_cycles(i)
                    &&& v@[i].cycles_conditional == z80_main_not_taken(i)
                },
        decreases 256 - c,
    {
        let mut op = no_prefix_opcode(c as u8);
        op.cycles = cycles[c];
        op.cycles_conditional = z80_main_not_taken_of(c as u8, cycles[c]);
        v.push(op);
        c = c + 1;
    }
    v
}

fn cb_prefix_opcodes() -> (r: Vec<Opcode>)
    ensures
        r@.len() == 256,
        forall|i: int|
            0 <= i < 256 ==> {
                &&& (#[trigger] r@[i]).action.wf()
                &&& r@[i].action == z80_cb_action(i as u8, false)
                &&& r@[i].cycles == z80_cb_cycles(i)
                &&& r@[i].cycles_conditional == z80_cb_cycles(i)
            },
{
    let mut v: Vec<Opcode> = Vec::new();
    let mut c: usize = 0;
    while c < 256
        invariant
            c <= 256,
            v@.len() == c,
            forall|i: int|
                0 <= i < c ==> {
                    &&& (#[trigger] v@[i]).action.wf()
                    &&& v@[i].action == z80_cb_action(i as u8, false)
                    &&& v@[i].cycles == z80_cb_cycles(i)
                    &&& v@[i].cycles_conditional == z80_cb_cycles(i)
                },
        decreases 256 - c,
    {
        let mut op = cb_opcode(c as u8, false);
        let cy: u8 = if c % 8 == 6 {
            if c / 64 == 1 { 12 } else { 15 }
        } else {
            8
        };
        op.cycles = cy;
        op.cycles_conditional = cy;
        v.push(op);
        c = c + 1;
    }
    v
}

fn cb_indexed_prefix_opcodes() -> (r: Vec<Opcode>)
    ensures
        r@.len() == 256,
        forall|i: int|
            0 <= i < 256 ==> {
                &&& (#[trigger] r@[i]).action.wf()
                &&& r@[i].action == z80_cb_action(i as u8, true)
                &&& r@[i].cycles == z80_cb_indexed_cycles(i)
                &&& r@[i].cycles_conditional == z80_cb_indexed_cycles(i)
            },
{
    let mut v: Vec<Opcode> = Vec::new();
    let mut c: usize = 0;
    while c < 256
        invariant
            c <= 256,
            v@.len() == c,
            forall|i: int|
                0 <= i < c ==> {
                    &&& (#[trigger] v@[i]).action.wf()
                    &&& v@[i].action == z80_cb_action(i as u8, true)
                    &&& v@[i].cycles == z80_cb_indexed_cycles(i)
                    &&& v@[i].cycles_conditional == z80_cb_indexed_cycles(i)
                },
        decreases 256 - c,
    {
        let mut op = cb_opcode(c as u8, true);
        let cy: u8 = if c / 64 == 1 { 20 } else { 23 };
        op.cycles = cy;
        op.cycles_conditional = cy;
        v.push(op);
        c = c + 1;
    }
    v
}

fn ed_prefix_opcodes() -> (r: Vec<Opcode>)
    ensures
        r@.len() == 256,
        forall|i: int|
            0 <= i < 256 ==> {
                &&& (#[trigger] r@[i]).action.wf()
                &&& r@[i].action == z80_ed_action(i as u8)
                &&& r@[i].cycles == z80_ed_cycles(i)
                &&& r@[i].cycles_conditional == z80_ed_not_taken(i)
            },
{
    let cycles = z80_ed();
    let mut v: Vec<Opcode> = Vec::new();
    let mut c: usize = 0;
    while c < 256
        invariant
            c <= 256,
            v@.len() == c,
            cycles@ == crate::cycles::z80_ed_table()@,
            forall|i: int|
                0 <= i < c ==> {
                    &&& (#[trigger] v@[i]).action.wf()
                    &&& v@[i].action == z80_ed_action(i as u8)
                    &&& v@[i].cycles == z80_ed_cycles(i)
                    &&& v@[i].cycles_conditional == z80_ed_not_taken(i)
                },
        decreases 256 - c,
    {
        let mut op = ed_opcode(c as u8);
        op.cycles = cycles[c];
        op.cycles_conditional = z80_ed_not_taken_of(c as u8, cycles[c]);
        v.push(op);
        c = c + 1;
    }
    v
}

fn displacements() -> (r: Vec<bool>)
    ensures
        r@.len() == 256,
        forall|i: int| 0 <= i < 256 ==> #[trigger] r@[i] == takes_displacement(i),
{
    let mut v: Vec<bool> = Vec::new();
    let mut c: usize = 0;
    while c < 256
        invariant
            c <= 256,
            v@.len() == c,
            forall|i: int| 0 <= i < c ==> #[trigger] v@[i] == takes_displacement(i),
        decreases 256 - c,
    {
        let d = c == 0x34 || c == 0x35 || c == 0x36 || c == 0x46 || c == 0x4e || c == 0x56 || c == 0x5e
            || c == 0x66 || c == 0x6e || (0x70 <= c && c <= 0x75) || c == 0x77 || c == 0x7e || c == 0x86
            || c == 0x8e || c == 0x96 || c == 0x9e || c == 0xa6 || c == 0xae || c == 0xb6 || c == 0xbe;
        v.push(d);
        c = c + 1;
    }
    v
}

} // verus!
