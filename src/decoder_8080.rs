use vstd::prelude::*;
use crate::cycles::{i8080, i8080_cycles, i8080_not_taken, i8080_not_taken_of};
use crate::decoder_z80::{z80_main_action, alu_table, cc_table, r_table, rot_table, rp2_table, rp_table};
use crate::machine::{next_addr, Machine};
use crate::opcode::{
    Action, build_disable_interrupts, build_enable_interrupts, build_halt, build_nop, build_pop_rr, build_push_rr,
    Opcode,
};
use crate::opcode_alu::{build_operator_a_n, build_operator_a_r};
use crate::opcode_arith::{build_add_hl_rr, build_daa8080, build_dec_r, build_inc_dec_rr, build_inc_r};
use crate::opcode_bits::{build_ccf, build_cpl, build_rot_r, build_scf};
use crate::opcode_io::{build_in_a_n, build_out_n_a};
use crate::opcode_jumps::{build_call, build_call_eq, build_jp_eq, build_jp_hl, build_jp_unconditional, build_ret, build_ret_eq, build_rst};
use crate::opcode_ld::{
    build_ex_de_hl, build_ex_psp_hl, build_ld_a_pnn, build_ld_a_prr, build_ld_pnn_a, build_ld_pnn_rr,
    build_ld_prr_a, build_ld_r_n, build_ld_r_r, build_ld_rr_nn, build_ld_rr_pnn, build_ld_sp_hl,
};
use crate::registers::{Reg16, Reg8, Registers};
use crate::state::State;

verus! {

/// The 8080 instruction decoder: one table, no prefixes.
pub struct Decoder8080 {
    /// Opcodes by their byte
    pub no_prefix: Vec<Opcode>,
}

impl Decoder8080 {
    /// Whether every slot holds a runnable opcode with the published cycles.
    pub open spec fn wf(&self) -> bool {
        &&& self.no_prefix@.len() == 256
        &&& forall|i: int|
            0 <= i < 256 ==> {
                &&& (#[trigger] self.no_prefix@[i]).action.wf()
                &&& self.no_prefix@[i].action == i8080_action(i as u8)
                &&& self.no_prefix@[i].cycles == i8080_cycles(i)
                &&& self.no_prefix@[i].cycles_conditional == i8080_not_taken(i)
            }
    }

    /// Returns the 8080 decoder with its table.
    pub fn new() -> (r: Decoder8080)
        ensures
            r.wf(),
    {
        Decoder8080 { no_prefix: no_prefix_opcodes() }
    }

    /// Reads the opcode byte at PC; no prefix exists on the 8080.
    pub fn decode<'a, M: Machine>(&'a self, state: &mut State, sys: &M) -> (r: (&'a Opcode, u32))
        requires
            self.wf(),
        ensures
            r.0.action.wf(),
            r.1 == 0,
            *r.0 == self.no_prefix@[sys.memory()[old(state).reg.pc] as int],
            *final(state) == (State {
                reg: Registers { pc: next_addr(old(state).reg.pc), ..old(state).reg },
                ..*old(state)
            }),
    {
        let code = state.advance_pc(sys);
        (&self.no_prefix[code as usize], 0)
    }
}

/// The operation of 8080 opcode `c`, by the fields x (bits 7-6), y (5-3), z (2-0),
/// p (5-4) and q (3): the Z80 table without relative jumps, exchanges with the
/// alternate bank and prefixes, whose bytes repeat NOP, RET, JP and CALL.
#[verifier::opaque]
pub open spec fn i8080_action(c: u8) -> Action {
    let x = c / 64;
    let y = (c / 8) % 8;
    let z = c % 8;
    let p = (c / 16) % 4;
    let q = (c / 8) % 2;
    if x == 0 && z == 0 {
        Action::Nop
    } else if x == 0 && z == 7 && y == 4 {
        Action::Daa8080
    } else if x == 3 && z == 1 && q == 1 && p <= 1 {
        Action::Ret
    } else if x == 3 && z == 3 && y <= 1 {
        Action::JpUnconditional
    } else if x == 3 && z == 5 && q == 1 {
        Action::Call
    } else {
        z80_main_action(c)
    }
}

fn no_prefix_opcode(c: u8) -> (r: Opcode)
    ensures
        r.action.wf(),
        r.action == i8080_action(c),
{
    reveal(i8080_action);
    reveal(z80_main_action);
    let x = c / 64;
    let y = (c / 8) % 8;
    let z = c % 8;
    let p = (c / 16) % 4;
    let q = (c / 8) % 2;
    if x == 0 {
        if z == 0 {
            build_nop()
        } else if z == 1 {
            if q == 0 {
                build_ld_rr_nn(rp_table(p))
            } else {
                build_add_hl_rr(rp_table(p))
            }
        } else if z == 2 {
            if q == 0 {
                if p == 0 {
                    build_ld_prr_a(Reg16::BC)
                } else if p == 1 {
                    build_ld_prr_a(Reg16::DE)
                } else if p == 2 {
                    build_ld_pnn_rr(Reg16::HL)
                } else {
                    build_ld_pnn_a()
                }
            } else {
                if p == 0 {
                    build_ld_a_prr(Reg16::BC)
                } else if p == 1 {
                    build_ld_a_prr(Reg16::DE)
                } else if p == 2 {
                    build_ld_rr_pnn(Reg16::HL)
                } else {
                    build_ld_a_pnn()
                }
            }
        } else if z == 3 {
            build_inc_dec_rr(rp_table(p), q == 0)
        } else if z == 4 {
            build_inc_r(r_table(y))
        } else if z == 5 {
            build_dec_r(r_table(y))
        } else if z == 6 {
            build_ld_r_n(r_table(y))
        } else {
            if y <= 3 {
                let (d, m) = rot_table(y);
                build_rot_r(Reg8::A, d, m, true, false)
            } else if y == 4 {
                build_daa8080()
            } else if y == 5 {
                build_cpl()
            } else if y == 6 {
                build_scf()
            } else {
                build_ccf()
            }
        }
    } else if x == 1 {
        if z == 6 && y == 6 {
            build_halt()
        } else {
            build_ld_r_r(r_table(y), r_table(z))
        }
    } else if x == 2 {
        build_operator_a_r(r_table(z), alu_table(y))
    } else {
        if z == 0 {
            let (f, v) = cc_table(y);
            build_ret_eq(f, v)
        } else if z == 1 {
            if q == 0 {
                build_pop_rr(rp2_table(p))
            } else if p <= 1 {
                build_ret()
            } else if p == 2 {
                build_jp_hl()
            } else {
                build_ld_sp_hl()
            }
        } else if z == 2 {
            let (f, v) = cc_table(y);
            build_jp_eq(f, v)
        } else if z == 3 {
            if y <= 1 {
                build_jp_unconditional()
            } else if y == 2 {
                build_out_n_a()
            } else if y == 3 {
                build_in_a_n()
            } else if y == 4 {
                build_ex_psp_hl()
            } else if y == 5 {
                build_ex_de_hl()
            } else if y == 6 {
                build_disable_interrupts()
            } else {
                build_enable_interrupts()
            }
        } else if z == 4 {
            let (f, v) = cc_table(y);
            build_call_eq(f, v)
        } else if z == 5 {
            if q == 0 {
                build_push_rr(rp2_table(p))
            } else {
                build_call()
            }
        } else if z == 6 {
            build_operator_a_n(alu_table(y))
        } else {
            build_rst(y * 8)
        }
    }
}

fn no_prefix_opcodes() -> (r: Vec<Opcode>)
    ensures
        r@.len() == 256,
        forall|i: int|
            0 <= i < 256 ==> {
                &&& (#[trigger] r@[i]).action.wf()
                &&& r@[i].action == i8080_action(i as u8)
                &&& r@[i].cycles == i8080_cycles(i)
                &&& r@[i].cycles_conditional == i8080_not_taken(i)
            },
{
    let cycles = i8080();
    let mut v: Vec<Opcode> = Vec::new();
    let mut c: usize = 0;
    while c < 256
        invariant
            c <= 256,
            v@.len() == c,
            cycles@ == crate::cycles::i8080_table()@,
            forall|i: int|
                0 <= i < c ==> {
                    &&& (#[trigger] v@[i]).action.wf()
                    &&& v@[i].action == i8080_action(i as u8)
                    &&& v@[i].cycles == i8080_cycles(i)
                    &&& v@[i].cycles_conditional == i8080_not_taken(i)
                },
        decreases 256 - c,
    {
        let mut op = no_prefix_opcode(c as u8);
        op.cycles = cycles[c];
        op.cycles_conditional = i8080_not_taken_of(c as u8, cycles[c]);
        v.push(op);
        c = c + 1;
    }
    v
}

} // verus!
