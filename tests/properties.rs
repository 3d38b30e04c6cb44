use iz80::{Cpu, Cpu8080, DeserializeError, Flag, Machine, PlainMachine, Reg16, Reg8, VilleMachine};

fn load(sys: &mut PlainMachine, at: u16, code: &[u8]) {
    for (i, b) in code.iter().enumerate() {
        sys.poke(at.wrapping_add(i as u16), *b);
    }
}

#[test]
fn push_wraps_below_zero() {
    let mut sys = PlainMachine::new();
    let mut cpu = Cpu::new();
    load(&mut sys, 0, &[0xc5]); // PUSH BC
    cpu.registers().set16(Reg16::SP, 0x0001);
    cpu.registers().set16(Reg16::BC, 0x1234);
    cpu.execute_instruction(&mut sys);
    assert_eq!(0x12, sys.peek(0x0000));
    assert_eq!(0x34, sys.peek(0xffff));
    assert_eq!(0xffff, cpu.registers().get16(Reg16::SP));
}

#[test]
fn pc_wraps_for_operands() {
    let mut sys = PlainMachine::new();
    let mut cpu = Cpu::new();
    sys.poke(0xffff, 0x3e); // LD A, n
    sys.poke(0x0000, 0x42);
    cpu.registers().set_pc(0xffff);
    cpu.execute_instruction(&mut sys);
    assert_eq!(0x42, cpu.registers().a());
    assert_eq!(0x0001, cpu.registers().pc());
}

#[test]
fn ldi_wraps_bc_across_zero() {
    let mut sys = PlainMachine::new();
    let mut cpu = Cpu::new();
    load(&mut sys, 0, &[0xed, 0xa0]); // LDI
    cpu.registers().set16(Reg16::BC, 0x0000);
    cpu.registers().set16(Reg16::HL, 0x4000);
    cpu.registers().set16(Reg16::DE, 0x5000);
    sys.poke(0x4000, 0x77);
    cpu.execute_instruction(&mut sys);
    assert_eq!(0xffff, cpu.registers().get16(Reg16::BC));
    assert!(cpu.registers().get_flag(Flag::P));
    assert_eq!(0x77, sys.peek(0x5000));
    assert_eq!(0x4001, cpu.registers().get16(Reg16::HL));
    assert_eq!(0x5001, cpu.registers().get16(Reg16::DE));
}

#[test]
fn ldir_repeats_until_bc_is_zero() {
    let mut sys = PlainMachine::new();
    let mut cpu = Cpu::new();
    load(&mut sys, 0, &[0xed, 0xb0]); // LDIR
    cpu.registers().set16(Reg16::BC, 0x0002);
    cpu.registers().set16(Reg16::HL, 0x4000);
    cpu.registers().set16(Reg16::DE, 0x5000);
    sys.poke(0x4000, 0x11);
    sys.poke(0x4001, 0x22);
    cpu.execute_instruction(&mut sys);
    assert_eq!(0x0000, cpu.registers().pc());
    assert_eq!(21, cpu.cycle_count());
    cpu.execute_instruction(&mut sys);
    assert_eq!(0x0002, cpu.registers().pc());
    assert_eq!(0x0000, cpu.registers().get16(Reg16::BC));
    assert!(!cpu.registers().get_flag(Flag::P));
    assert_eq!(0x11, sys.peek(0x5000));
    assert_eq!(0x22, sys.peek(0x5001));
    assert_eq!(21 + 16, cpu.cycle_count());
}

#[test]
fn inir_wraps_b_and_repeats() {
    let mut sys = PlainMachine::new();
    let mut cpu = Cpu::new();
    load(&mut sys, 0, &[0xed, 0xb2]); // INIR
    cpu.registers().set16(Reg16::BC, 0x0010);
    cpu.registers().set16(Reg16::HL, 0x4000);
    sys.port_out(0xff10, 0x5a);
    cpu.execute_instruction(&mut sys);
    assert_eq!(0xff, cpu.registers().get8(Reg8::B));
    assert_eq!(0x0000, cpu.registers().pc());
    assert_eq!(0x5a, sys.peek(0x4000));
}

#[test]
fn ini_stops_when_b_reaches_zero() {
    let mut sys = PlainMachine::new();
    let mut cpu = Cpu::new();
    load(&mut sys, 0, &[0xed, 0xb2]); // INIR
    cpu.registers().set16(Reg16::BC, 0x0110);
    cpu.registers().set16(Reg16::HL, 0x4000);
    cpu.execute_instruction(&mut sys);
    assert_eq!(0x00, cpu.registers().get8(Reg8::B));
    assert_eq!(0x0002, cpu.registers().pc());
    assert!(cpu.registers().get_flag(Flag::Z));
}

#[test]
fn last_index_prefix_wins() {
    let mut sys = PlainMachine::new();
    let mut cpu = Cpu::new();
    load(&mut sys, 0, &[0xdd, 0xdd, 0xdd, 0xfd, 0x21, 0x34, 0x12]); // LD IY, 1234h
    cpu.execute_instruction(&mut sys);
    assert_eq!(0x1234, cpu.registers().get16(Reg16::IY));
    assert_eq!(0x0000, cpu.registers().get16(Reg16::IX));
    assert_eq!(0x0007, cpu.registers().pc());
    assert_eq!(4 * 4 + 10, cpu.cycle_count());
}

#[test]
fn disasm_last_prefix_wins() {
    let mut sys = PlainMachine::new();
    let mut cpu = Cpu::new();
    load(&mut sys, 0, &[0xdd, 0xfd, 0x21, 0x34, 0x12]);
    assert_eq!("LD IY, 1234h", cpu.disasm_instruction(&mut sys));
    assert_eq!(0x0005, cpu.registers().pc());
}

#[test]
fn disasm_relative_jump_and_index() {
    let mut sys = PlainMachine::new();
    let mut cpu = Cpu::new();
    load(&mut sys, 0, &[0x10, 0x06, 0xfd, 0x7e, 0xfd]);
    assert_eq!("DJNZ +8", cpu.disasm_instruction(&mut sys));
    assert_eq!("LD A, (IY-3)", cpu.disasm_instruction(&mut sys));
}

#[test]
fn load_then_move() {
    let mut sys = PlainMachine::new();
    let mut cpu = Cpu::new();
    load(&mut sys, 0, &[0x06, 0x34, 0x78]);
    cpu.registers().set16(Reg16::BC, 0);
    cpu.execute_instruction(&mut sys);
    assert_eq!(0x34, cpu.registers().get8(Reg8::B));
    assert_eq!(2, cpu.registers().pc());
    cpu.execute_instruction(&mut sys);
    assert_eq!(0x34, cpu.registers().a());
    assert_eq!(3, cpu.registers().pc());
}

#[test]
fn call_then_return() {
    let mut sys = PlainMachine::new();
    let mut cpu = Cpu::new();
    load(&mut sys, 0, &[0xcd, 0x00, 0x20]);
    sys.poke(0x2000, 0xc9);
    cpu.registers().set16(Reg16::SP, 0x1000);
    cpu.execute_instruction(&mut sys);
    assert_eq!(0x2000, cpu.registers().pc());
    assert_eq!(0x0ffe, cpu.registers().get16(Reg16::SP));
    assert_eq!(0x03, sys.peek(0x0ffe));
    assert_eq!(0x00, sys.peek(0x0fff));
    cpu.execute_instruction(&mut sys);
    assert_eq!(0x0003, cpu.registers().pc());
    assert_eq!(0x1000, cpu.registers().get16(Reg16::SP));
    assert_eq!(17 + 10, cpu.cycle_count());
}

#[test]
fn cp_8080_keeps_half_carry_clear() {
    let mut sys = PlainMachine::new();
    let mut cpu = Cpu8080::new();
    load(&mut sys, 0, &[0xfe, 0x01]);
    cpu.registers().set_a(0x10);
    cpu.registers().clear_flag(Flag::H);
    cpu.execute_instruction(&mut sys);
    assert!(!cpu.registers().get_flag(Flag::H));
    assert_eq!(0x10, cpu.registers().a());
    assert!(cpu.registers().get_flag(Flag::N));
    assert!(!cpu.registers().get_flag(Flag::_3));
    assert!(!cpu.registers().get_flag(Flag::_5));
}

#[test]
fn rld_rotates_digits() {
    let mut sys = PlainMachine::new();
    let mut cpu = Cpu::new();
    load(&mut sys, 0, &[0xed, 0x6f]);
    cpu.registers().set_a(0xab);
    cpu.registers().set16(Reg16::HL, 0xccdd);
    sys.poke(0xccdd, 0xcd);
    cpu.execute_instruction(&mut sys);
    assert_eq!(0xac, cpu.registers().a());
    assert_eq!(0xdb, sys.peek(0xccdd));
}

#[test]
fn ei_im1_then_interrupt() {
    let mut sys = PlainMachine::new();
    let mut cpu = Cpu::new();
    load(&mut sys, 0, &[0xfb, 0xed, 0x56]);
    cpu.registers().set16(Reg16::SP, 0x8000);
    cpu.execute_instruction(&mut sys);
    cpu.execute_instruction(&mut sys);
    cpu.execute_instruction(&mut sys);
    assert_eq!(0x0004, cpu.registers().pc());
    cpu.signal_interrupt(true);
    let before = cpu.cycle_count();
    cpu.execute_instruction(&mut sys);
    // Accepted: PC pushed, handler entered, interrupts disabled, and the step ends.
    assert_eq!(0x7ffe, cpu.registers().get16(Reg16::SP));
    assert_eq!(0x04, sys.peek(0x7ffe));
    assert_eq!(0x00, sys.peek(0x7fff));
    assert_eq!(0x0038, cpu.registers().pc());
    assert_eq!(before + 13, cpu.cycle_count());
    cpu.execute_instruction(&mut sys);
    // Interrupts are disabled in the handler.
    assert_eq!(0x0039, cpu.registers().pc());
}

#[test]
fn ei_defers_interrupt_by_one_instruction() {
    let mut sys = PlainMachine::new();
    let mut cpu = Cpu::new();
    load(&mut sys, 0, &[0xed, 0x56, 0xfb, 0x00, 0x00]); // IM 1; EI; NOP; NOP
    cpu.execute_instruction(&mut sys);
    cpu.execute_instruction(&mut sys);
    cpu.signal_interrupt(true);
    cpu.execute_instruction(&mut sys);
    assert_eq!(0x0004, cpu.registers().pc());
    cpu.execute_instruction(&mut sys);
    assert_eq!(0x0038, cpu.registers().pc());
}

#[test]
fn rrca_moves_bit_zero_to_carry() {
    let mut sys = PlainMachine::new();
    let mut cpu = Cpu::new();
    load(&mut sys, 0, &[0x0f]);
    cpu.registers().set_a(0x93);
    cpu.registers().set_flag(Flag::C);
    cpu.execute_instruction(&mut sys);
    assert_eq!(0xc9, cpu.registers().a());
    assert!(cpu.registers().get_flag(Flag::C));
    assert!(!cpu.registers().get_flag(Flag::H));
    assert!(!cpu.registers().get_flag(Flag::N));
}

#[test]
fn halted_cpu_stays_unchanged() {
    let mut sys = PlainMachine::new();
    let mut cpu = Cpu::new();
    load(&mut sys, 0, &[0x76, 0x3c]); // HALT; INC A
    cpu.execute_instruction(&mut sys);
    assert!(cpu.is_halted());
    let before = cpu.serialize();
    cpu.execute_instruction(&mut sys);
    cpu.execute_instruction(&mut sys);
    assert_eq!(before, cpu.serialize());
    assert_eq!(0x0001, cpu.registers().pc());
}

#[test]
fn nmi_wakes_halted_cpu() {
    let mut sys = PlainMachine::new();
    let mut cpu = Cpu::new();
    load(&mut sys, 0, &[0x76]);
    cpu.registers().set16(Reg16::SP, 0x8000);
    cpu.execute_instruction(&mut sys);
    cpu.signal_nmi();
    assert!(!cpu.is_halted());
    cpu.execute_instruction(&mut sys);
    assert_eq!(0x0066, cpu.registers().pc());
    assert_eq!(0x01, sys.peek(0x7ffe));
}

#[test]
fn reset_clears_state() {
    let mut sys = PlainMachine::new();
    let mut cpu = Cpu::new();
    load(&mut sys, 0x100, &[0xfb]);
    cpu.registers().set_pc(0x100);
    cpu.execute_instruction(&mut sys);
    cpu.signal_reset();
    cpu.execute_instruction(&mut sys);
    assert_eq!(0x0000, cpu.registers().pc());
    assert_eq!(0x00, cpu.registers().get8(Reg8::I));
}

#[test]
fn step_clears_index_and_displacement() {
    let mut sys = PlainMachine::new();
    let mut cpu = Cpu::new();
    load(&mut sys, 0, &[0xdd, 0x7e, 0x05]); // LD A, (IX+5)
    cpu.registers().set16(Reg16::IX, 0x3000);
    sys.poke(0x3005, 0x99);
    cpu.execute_instruction(&mut sys);
    assert_eq!(0x99, cpu.registers().a());
    let blob = cpu.serialize();
    assert_eq!(0, blob[51]);
    assert_eq!(0, blob[52]);
    assert_eq!(0, blob[45]);
}

#[test]
fn nop_and_conditional_call_cycles() {
    let mut sys = PlainMachine::new();
    let mut cpu = Cpu::new();
    load(&mut sys, 0, &[0x00, 0xcc, 0x00, 0x20]); // NOP; CALL Z, 2000h
    cpu.registers().clear_flag(Flag::Z);
    cpu.execute_instruction(&mut sys);
    assert_eq!(4, cpu.cycle_count());
    cpu.execute_instruction(&mut sys);
    assert_eq!(4 + 10, cpu.cycle_count());
    assert_eq!(0x0004, cpu.registers().pc());
}

#[test]
fn serialization_round_trip_of_every_field() {
    let mut sys = PlainMachine::new();
    let mut cpu = Cpu::new();
    load(&mut sys, 0, &[0x01, 0x34, 0x12, 0xd9, 0xfb]); // LD BC, 1234h; EXX; EI
    cpu.execute_instruction(&mut sys);
    cpu.execute_instruction(&mut sys);
    cpu.execute_instruction(&mut sys);
    cpu.signal_nmi();
    cpu.signal_interrupt(true);
    let blob = cpu.serialize();
    assert_eq!(53, blob.len());
    let mut other = Cpu::new();
    assert_eq!(Ok(()), other.deserialize(&blob));
    assert_eq!(blob, other.serialize());
    assert_eq!(cpu.cycle_count(), other.cycle_count());
}

#[test]
fn deserialize_rejects_short_blob() {
    let mut cpu = Cpu::new();
    let blob = cpu.serialize();
    assert_eq!(Err(DeserializeError::TooShort), cpu.deserialize(&blob[0..52]));
}

#[test]
fn deserialize_rejects_bad_index_tag() {
    let mut cpu = Cpu::new();
    let mut blob = cpu.serialize();
    blob[51] = 3;
    assert_eq!(Err(DeserializeError::BadIndex), cpu.deserialize(&blob));
}

#[test]
fn daa_corrects_bcd_sum() {
    let mut sys = PlainMachine::new();
    let mut cpu = Cpu::new();
    load(&mut sys, 0, &[0xc6, 0x27, 0x27]); // ADD A, 27h; DAA
    cpu.registers().set_a(0x15);
    cpu.execute_instruction(&mut sys);
    assert_eq!(0x3c, cpu.registers().a());
    cpu.execute_instruction(&mut sys);
    assert_eq!(0x42, cpu.registers().a());
}

#[test]
fn sub_sets_overflow_and_borrow() {
    let mut sys = PlainMachine::new();
    let mut cpu = Cpu::new();
    load(&mut sys, 0, &[0xd6, 0x01]); // SUB 01h
    cpu.registers().set_a(0x80);
    cpu.execute_instruction(&mut sys);
    assert_eq!(0x7f, cpu.registers().a());
    assert!(cpu.registers().get_flag(Flag::P));
    assert!(cpu.registers().get_flag(Flag::H));
    assert!(cpu.registers().get_flag(Flag::N));
    assert!(!cpu.registers().get_flag(Flag::C));
}

#[test]
fn sbc_hl_sets_zero_from_full_result() {
    let mut sys = PlainMachine::new();
    let mut cpu = Cpu::new();
    load(&mut sys, 0, &[0xed, 0x52]); // SBC HL, DE
    cpu.registers().set16(Reg16::HL, 0x1000);
    cpu.registers().set16(Reg16::DE, 0x0fff);
    cpu.registers().set_flag(Flag::C);
    cpu.execute_instruction(&mut sys);
    assert_eq!(0x0000, cpu.registers().get16(Reg16::HL));
    assert!(cpu.registers().get_flag(Flag::Z));
}

#[test]
fn ld_a_i_copies_iff2_to_p() {
    let mut sys = PlainMachine::new();
    let mut cpu = Cpu::new();
    load(&mut sys, 0, &[0xfb, 0xed, 0x57]); // EI; LD A, I
    cpu.registers().set8(Reg8::I, 0x80);
    cpu.execute_instruction(&mut sys);
    cpu.execute_instruction(&mut sys);
    assert_eq!(0x80, cpu.registers().a());
    assert!(cpu.registers().get_flag(Flag::P));
    assert!(cpu.registers().get_flag(Flag::S));
}

#[test]
fn djnz_jumps_from_the_next_instruction() {
    let mut sys = PlainMachine::new();
    let mut cpu = Cpu::new();
    load(&mut sys, 0, &[0x10, 0x04]); // DJNZ $+6
    cpu.registers().set8(Reg8::B, 0x23);
    cpu.execute_instruction(&mut sys);
    assert_eq!(0x22, cpu.registers().get8(Reg8::B));
    assert_eq!(0x0006, cpu.registers().pc());
    assert_eq!(13, cpu.cycle_count());
}

#[test]
fn jr_backwards_to_itself() {
    let mut sys = PlainMachine::new();
    let mut cpu = Cpu::new();
    load(&mut sys, 0, &[0x28, 0xfe]); // JR Z, $
    cpu.registers().set_flag(Flag::Z);
    cpu.execute_instruction(&mut sys);
    assert_eq!(0x0000, cpu.registers().pc());
    assert_eq!(12, cpu.cycle_count());
}

#[test]
fn ville_machine_records_ports() {
    let mut sys = VilleMachine::new();
    let mut cpu = Cpu::new();
    load_ville(&mut sys, &[0xd3, 0x02, 0xdb, 0x03]); // OUT (2), A; IN A, (3)
    sys.in_values[3] = 0x55;
    cpu.registers().set_a(0x41);
    cpu.execute_instruction(&mut sys);
    assert_eq!(Some(2), sys.out_port);
    assert_eq!(0x41, sys.out_value);
    cpu.execute_instruction(&mut sys);
    assert_eq!(Some(3), sys.in_port);
    assert_eq!(0x55, cpu.registers().a());
}

fn load_ville(sys: &mut VilleMachine, code: &[u8]) {
    for (i, b) in code.iter().enumerate() {
        sys.poke(i as u16, *b);
    }
}

#[test]
fn noni_defers_interrupt() {
    let mut sys = PlainMachine::new();
    let mut cpu = Cpu::new();
    load(&mut sys, 0, &[0xed, 0x56, 0xfb, 0xed, 0x00, 0x00]); // IM 1; EI; NONI; NOP
    cpu.execute_instruction(&mut sys);
    cpu.execute_instruction(&mut sys);
    cpu.signal_interrupt(true);
    cpu.execute_instruction(&mut sys);
    cpu.execute_instruction(&mut sys);
    assert_eq!(0x0006, cpu.registers().pc());
    assert_eq!(8 + 4 + 8 + 4, cpu.cycle_count());
    cpu.execute_instruction(&mut sys);
    assert_eq!(0x0038, cpu.registers().pc());
}

#[test]
fn jr_not_taken_and_jp_cycles() {
    let mut sys = PlainMachine::new();
    let mut cpu = Cpu::new();
    load(&mut sys, 0, &[0x20, 0x05, 0xc2, 0x00, 0x10]); // JR NZ, $+7; JP NZ, 1000h
    cpu.registers().set_flag(Flag::Z);
    cpu.execute_instruction(&mut sys);
    assert_eq!(0x0002, cpu.registers().pc());
    assert_eq!(7, cpu.cycle_count());
    cpu.execute_instruction(&mut sys);
    assert_eq!(0x0005, cpu.registers().pc());
    assert_eq!(7 + 10, cpu.cycle_count());
}

#[test]
fn outi_writes_port_before_decrement() {
    let mut sys = PlainMachine::new();
    let mut cpu = Cpu::new();
    load(&mut sys, 0, &[0xed, 0xa3]); // OUTI
    cpu.registers().set16(Reg16::BC, 0x0242);
    cpu.registers().set16(Reg16::HL, 0x4000);
    sys.poke(0x4000, 0x99);
    cpu.execute_instruction(&mut sys);
    assert_eq!(0x99, sys.port_in(0x0242));
    assert_eq!(0x01, cpu.registers().get8(Reg8::B));
    assert_eq!(0x4001, cpu.registers().get16(Reg16::HL));
}

#[test]
fn indexed_forms_charge_published_cycles() {
    let mut sys = PlainMachine::new();
    let mut cpu = Cpu::new();
    load(&mut sys, 0, &[0xdd, 0x7e, 0x05, 0xdd, 0xcb, 0x05, 0x06, 0xfd, 0x36, 0x01, 0x22]);
    cpu.registers().set16(Reg16::IX, 0x3000);
    cpu.registers().set16(Reg16::IY, 0x3000);
    cpu.execute_instruction(&mut sys); // LD A, (IX+5)
    assert_eq!(19, cpu.cycle_count());
    cpu.execute_instruction(&mut sys); // RLC (IX+5)
    assert_eq!(19 + 23, cpu.cycle_count());
    cpu.execute_instruction(&mut sys); // LD (IY+1), 22h
    assert_eq!(19 + 23 + 19, cpu.cycle_count());
    assert_eq!(0x22, sys.peek(0x3001));
}

#[test]
fn r_counts_opcode_fetches() {
    let mut sys = PlainMachine::new();
    let mut cpu = Cpu::new();
    load(&mut sys, 0, &[0x00, 0xdd, 0x21, 0x00, 0x00, 0xed, 0x56, 0xdd, 0xcb, 0x00, 0x06]);
    cpu.execute_instruction(&mut sys);
    assert_eq!(1, cpu.registers().get8(Reg8::R));
    cpu.execute_instruction(&mut sys);
    assert_eq!(3, cpu.registers().get8(Reg8::R));
    cpu.execute_instruction(&mut sys);
    assert_eq!(5, cpu.registers().get8(Reg8::R));
    cpu.execute_instruction(&mut sys);
    assert_eq!(7, cpu.registers().get8(Reg8::R));
    cpu.registers().set8(Reg8::R, 0xff);
    load(&mut sys, 11, &[0x00]);
    cpu.execute_instruction(&mut sys);
    assert_eq!(0x80, cpu.registers().get8(Reg8::R));
}

#[test]
fn ei_im1_nop_leaves_interrupts_enabled() {
    let mut sys = PlainMachine::new();
    let mut cpu = Cpu::new();
    load(&mut sys, 0, &[0xfb, 0xed, 0x56, 0x00]);
    cpu.execute_instruction(&mut sys);
    cpu.execute_instruction(&mut sys);
    cpu.execute_instruction(&mut sys);
    assert_eq!((true, 1), cpu.registers().get_interrupt_mode());
    assert_eq!(4, cpu.registers().pc());
}
