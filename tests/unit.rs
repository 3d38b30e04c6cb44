use iz80::{Flag, Machine, PlainMachine, Reg16, Reg8, Registers};

#[test]
fn set_get_byte() {
    let mut m = PlainMachine::new();
    const A: u16 = 0x2345;
    const V: u8 = 0xa0;

    m.poke(A, V);
    assert_eq!(V, m.peek(A));
}

#[test]
fn set_get_8bit_register() {
    let mut r = Registers::new();
    const V: u8 = 23;

    r.set8(Reg8::A, V);
    assert_eq!(V, r.get8(Reg8::A));
}

#[test]
fn set_get_16bit_register() {
    let mut r = Registers::new();

    r.set16(Reg16::BC, 0x34de);
    assert_eq!(0x34de, r.get16(Reg16::BC));
    assert_eq!(0x34, r.get8(Reg8::B));
    assert_eq!(0xde, r.get8(Reg8::C));
}

#[test]
fn set_get_flag() {
    let mut r = Registers::new();

    r.set_flag(Flag::P);
    assert!(r.get_flag(Flag::P));
    r.clear_flag(Flag::P);
    assert!(!r.get_flag(Flag::P));
    r.put_flag(Flag::P, true);
    assert!(r.get_flag(Flag::P));
    r.put_flag(Flag::P, false);
    assert!(!r.get_flag(Flag::P));
}
