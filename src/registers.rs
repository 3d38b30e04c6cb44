use vstd::prelude::*;

verus! {

/// 8 bit registers, plus the pseudo register `(HL)` that stands for memory.
#[derive(Copy, Clone, Debug, PartialEq, Eq, Structural)]
pub enum Reg8 {
    /// Accumulator
    A,
    /// Flags, also reachable through the flag methods
    F,
    /// Register B
    B,
    /// Register C
    C,
    /// Register D
    D,
    /// Register E
    E,
    /// Register H, high byte of HL
    H,
    /// Register L, low byte of HL
    L,
    /// Interrupt vector register
    I,
    /// Memory refresh register
    R,
    /// High byte of IX
    IXH,
    /// Low byte of IX
    IXL,
    /// High byte of IY
    IYH,
    /// Low byte of IY
    IYL,
    /// High byte of SP
    SPH,
    /// Low byte of SP
    SPL,
    /// Pseudo register: the memory byte addressed by HL, (IX+d) or (IY+d)
    _HL,
}

/// 16 bit registers, each made of two 8 bit registers
#[derive(Copy, Clone, Debug, PartialEq, Eq, Structural)]
pub enum Reg16 {
    /// A and F
    AF,
    /// B and C
    BC,
    /// D and E
    DE,
    /// H and L
    HL,
    /// IXH and IXL
    IX,
    /// IYH and IYL
    IY,
    /// SPH and SPL
    SP,
}

/// Bits of the flag register F
#[derive(Copy, Clone, Debug, PartialEq, Eq, Structural)]
pub enum Flag {
    /// Carry
    C,
    /// Subtract
    N,
    /// Parity or overflow
    P,
    /// Undocumented bit 3
    _3,
    /// Half carry
    H,
    /// Undocumented bit 5
    _5,
    /// Zero
    Z,
    /// Sign
    S,
}

impl Reg8 {
    /// Position of the register in the register file; 16 for the pseudo register.
    pub open spec fn spec_index(self) -> int {
        match self {
            Reg8::A => 0,
            Reg8::F => 1,
            Reg8::B => 2,
            Reg8::C => 3,
            Reg8::D => 4,
            Reg8::E => 5,
            Reg8::H => 6,
            Reg8::L => 7,
            Reg8::I => 8,
            Reg8::R => 9,
            Reg8::IXH => 10,
            Reg8::IXL => 11,
            Reg8::IYH => 12,
            Reg8::IYL => 13,
            Reg8::SPH => 14,
            Reg8::SPL => 15,
            Reg8::_HL => 16,
        }
    }

    /// Position of the register in the register file.
    pub fn index(self) -> (r: usize)
        ensures
            r == self.spec_index(),
    {
        match self {
            Reg8::A => 0,
            Reg8::F => 1,
            Reg8::B => 2,
            Reg8::C => 3,
            Reg8::D => 4,
            Reg8::E => 5,
            Reg8::H => 6,
            Reg8::L => 7,
            Reg8::I => 8,
            Reg8::R => 9,
            Reg8::IXH => 10,
            Reg8::IXL => 11,
            Reg8::IYH => 12,
            Reg8::IYL => 13,
            Reg8::SPH => 14,
            Reg8::SPL => 15,
            Reg8::_HL => 16,
        }
    }
}

impl Reg16 {
    /// Position of the high byte in the register file; the low byte follows it.
    pub open spec fn spec_index(self) -> int {
        match self {
            Reg16::AF => 0,
            Reg16::BC => 2,
            Reg16::DE => 4,
            Reg16::HL => 6,
            Reg16::IX => 10,
            Reg16::IY => 12,
            Reg16::SP => 14,
        }
    }

    /// Position of the high byte in the register file.
    pub fn index(self) -> (r: usize)
        ensures
            r == self.spec_index(),
    {
        match self {
            Reg16::AF => 0,
            Reg16::BC => 2,
            Reg16::DE => 4,
            Reg16::HL => 6,
            Reg16::IX => 10,
            Reg16::IY => 12,
            Reg16::SP => 14,
        }
    }
}

impl Flag {
    /// The bit of F that holds the flag.
    pub open spec fn spec_mask(self) -> u8 {
        match self {
            Flag::C => 1,
            Flag::N => 2,
            Flag::P => 4,
            Flag::_3 => 8,
            Flag::H => 16,
            Flag::_5 => 32,
            Flag::Z => 64,
            Flag::S => 128,
        }
    }

    /// The bit of F that holds the flag.
    pub fn mask(self) -> (r: u8)
        ensures
            r == self.spec_mask(),
    {
        match self {
            Flag::C => 1,
            Flag::N => 2,
            Flag::P => 4,
            Flag::_3 => 8,
            Flag::H => 16,
            Flag::_5 => 32,
            Flag::Z => 64,
            Flag::S => 128,
        }
    }
}

/// F with the bits of `mask` set when `value` holds and cleared otherwise.
pub open spec fn put_bits(f: u8, mask: u8, value: bool) -> u8 {
    if value {
        f | mask
    } else {
        f & !mask
    }
}

/// Whether `v` has an even number of set bits: the exclusive or of its bits is 0.
pub open spec fn parity_even(v: u8) -> bool {
    (v ^ (v >> 1u8) ^ (v >> 2u8) ^ (v >> 3u8) ^ (v >> 4u8) ^ (v >> 5u8) ^ (v >> 6u8) ^ (v >> 7u8)) & 1 == 0
}

/// F after S, Z, bit 5 and bit 3 were taken from `v` (bits 5 and 3 only off 8080 mode).
pub open spec fn sz53(f: u8, v: u8, mode8080: bool) -> u8 {
    put_bits(put_bits(undoc(f, v, mode8080), 64, v == 0), 128, v & 128 != 0)
}

/// F after bits 5 and 3 were copied from `v`, off 8080 mode.
pub open spec fn undoc(f: u8, v: u8, mode8080: bool) -> u8 {
    if mode8080 {
        f
    } else {
        put_bits(put_bits(f, 32, v & 32 != 0), 8, v & 8 != 0)
    }
}

/// F after bits 5 and 3 were taken from bits 1 and 3 of `v`, off 8080 mode.
pub open spec fn undoc_block(f: u8, v: u8, mode8080: bool) -> u8 {
    if mode8080 {
        f
    } else {
        put_bits(put_bits(f, 32, v & 2 != 0), 8, v & 8 != 0)
    }
}

/// F after H and N were written, off 8080 mode.
pub open spec fn hn(f: u8, hf: bool, nf: bool, mode8080: bool) -> u8 {
    if mode8080 {
        f
    } else {
        put_bits(put_bits(f, 16, hf), 2, nf)
    }
}

/// F after P was set to the parity of `v`.
pub open spec fn with_parity(f: u8, v: u8) -> u8 {
    put_bits(f, 4, parity_even(v))
}

/// F after an 8 or 16 bit arithmetic operation with operands `a`, `b` and raw result `r`
/// (the high bytes for 16 bits): carry from bit 8 of a^b^r, half carry from bit 4, and
/// overflow and N on the Z80, or parity and the 8080 half borrow rule.
pub open spec fn arith_flags(f: u8, a: u16, b: u16, r: u16, neg: bool, update_carry: bool, mode8080: bool) -> u8 {
    let x = a ^ b ^ r;
    let f1 = sz53(f, r as u8, mode8080);
    let f2 = if update_carry { put_bits(f1, 1, x & 0x100 != 0) } else { f1 };
    let f3 = put_bits(f2, 16, x & 0x10 != 0);
    if mode8080 {
        let f4 = with_parity(f3, r as u8);
        if neg {
            let a3 = a & 8 != 0;
            let b3 = b & 8 != 0;
            let r3 = r & 8 != 0;
            put_bits(f4, 16, (!a3 && !b3 && !r3) || (a3 && !(b3 && r3)))
        } else {
            f4
        }
    } else {
        put_bits(put_bits(f3, 4, (x & 0x100 != 0) != (x & 0x80 != 0)), 2, neg)
    }
}

/// F after ADD HL, rr with operands `a`, `b` and raw sum `v`: only C on the 8080; on
/// the Z80 bits 5 and 3 from the high byte of the sum, C, H, and N cleared.
pub open spec fn add16_flags(f: u8, a: u32, b: u32, v: u32, mode8080: bool) -> u8 {
    if mode8080 {
        put_bits(f, 1, v & 0x10000 != 0)
    } else {
        let x = ((a ^ b ^ v) >> 8u32) as u16;
        put_bits(put_bits(put_bits(undoc(f, (v >> 8u32) as u8, false), 1, (x >> 8u16) & 1 != 0), 16, (x >> 4u16) & 1 != 0), 2, false)
    }
}

/// F after a logic operation on `a` and `b` with result `r`.
pub open spec fn logic_flags(f: u8, a: u8, b: u8, r: u8, is_and: bool, mode8080: bool) -> u8 {
    let f1 = put_bits(with_parity(sz53(f, r, mode8080), r), 1, false);
    if mode8080 {
        put_bits(f1, 16, is_and && ((a | b) & 8 != 0))
    } else {
        put_bits(put_bits(f1, 2, false), 16, is_and)
    }
}

/// F after a block I/O step that moved `value` with counter `counter` and sum `k`.
pub open spec fn block_flags(f: u8, value: u8, k: u16, counter: u8, mode8080: bool) -> u8 {
    let f1 = put_bits(sz53(f, counter, mode8080), 16, k > 255);
    let f2 = if mode8080 {
        f1
    } else {
        put_bits(with_parity(f1, ((k as u8) & 7) ^ counter), 2, value & 0x80 != 0)
    };
    put_bits(f2, 1, k > 255)
}

/// F after a rotate, shift or bit operation with result `v`.
pub open spec fn bits_in_flags(f: u8, v: u8, mode8080: bool) -> u8 {
    let f1 = put_bits(sz53(f, v, mode8080), 16, false);
    if mode8080 {
        f1
    } else {
        put_bits(with_parity(f1, v), 2, false)
    }
}

/// F after DAA left `a` in the accumulator with the given H and C.
pub open spec fn daa_flags(f: u8, a: u8, hf: bool, cf: bool, mode8080: bool) -> u8 {
    put_bits(put_bits(with_parity(sz53(f, a, mode8080), a), 16, hf), 1, cf)
}

/// Writing any flag but Z leaves Z.
pub proof fn lemma_put_keeps_z(f: u8, m: u8, v: bool)
    requires
        m & 64 == 0,
    ensures
        put_bits(f, m, v) & 64 == f & 64,
{
    assert(m & 64 == 0 ==> ((f | m) & 64) == (f & 64) && ((f & !m) & 64) == (f & 64)) by (bit_vector);
}

/// After S, Z, bit 5 and bit 3 were taken from `v`, Z tells whether `v` is 0.
pub proof fn lemma_sz53_z(f: u8, v: u8, mode8080: bool)
    ensures
        (sz53(f, v, mode8080) & 64 != 0) == (v == 0),
{
    let g = undoc(f, v, mode8080);
    assert(((g | 64) & 64) != 0 && ((g & !64) & 64) == 0) by (bit_vector);
    let h = put_bits(g, 64, v == 0);
    assert(128u8 & 64u8 == 0) by (bit_vector);
    lemma_put_keeps_z(h, 128, v & 128 != 0);
}

/// The register file of a Z80 or 8080.
#[derive(Debug)]
pub struct Registers {
    /// Primary bank, indexed by `Reg8::spec_index`
    pub data: [u8; 16],
    /// Alternate bank
    pub shadow: [u8; 16],
    /// Program counter
    pub pc: u16,
    /// Interrupt flip-flop 1, which decides acceptance
    pub iff1: bool,
    /// Interrupt flip-flop 2, the saved copy
    pub iff2: bool,
    /// Interrupt mode, 0 to 2
    pub im: u8,
    /// Whether flags follow the 8080
    pub mode8080: bool,
}

impl Registers {
    /// Value of an 8 bit register.
    pub open spec fn reg8(&self, r: Reg8) -> u8 {
        self.data[r.spec_index()]
    }

    /// Value of a 16 bit register: high byte first in the register file.
    pub open spec fn reg16(&self, rr: Reg16) -> u16 {
        (self.data[rr.spec_index()] as int * 256 + self.data[rr.spec_index() + 1] as int) as u16
    }

    /// The flag byte.
    pub open spec fn f(&self) -> u8 {
        self.data[1]
    }

    /// Value of a flag.
    pub open spec fn flag(&self, f: Flag) -> bool {
        self.data[1] & f.spec_mask() != 0
    }

    /// Whether only F changed between `self` and `other`.
    pub open spec fn same_but_f(&self, other: &Registers) -> bool {
        &&& other.data@ =~= self.data@.update(1, other.data[1])
        &&& other.shadow == self.shadow
        &&& other.pc == self.pc
        &&& other.iff1 == self.iff1
        &&& other.iff2 == self.iff2
        &&& other.im == self.im
        &&& other.mode8080 == self.mode8080
    }

    /// Whether only F became `f` between `self` and `other`.
    pub open spec fn with_f(&self, other: &Registers, f: u8) -> bool {
        self.same_but_f(other) && other.data[1] == f
    }

    /// Whether only the data bank changed between `self` and `other`.
    pub open spec fn same_but_data(&self, other: &Registers) -> bool {
        &&& other.shadow == self.shadow
        &&& other.pc == self.pc
        &&& other.iff1 == self.iff1
        &&& other.iff2 == self.iff2
        &&& other.im == self.im
        &&& other.mode8080 == self.mode8080
    }

    /// The register file at power up.
    pub open spec fn spec_new() -> Registers {
        Registers {
            data: [0xff, 0xff, 0, 0, 0, 0, 0, 0, 0, 0, 0, 0, 0, 0, 0xff, 0xff],
            shadow: [0, 0, 0, 0, 0, 0, 0, 0, 0, 0, 0, 0, 0, 0, 0, 0],
            pc: 0,
            iff1: false,
            iff2: false,
            im: 0,
            mode8080: false,
        }
    }

    /// The register file at power up: AF and SP at 0xffff, the rest cleared.
    pub fn new() -> (r: Registers)
        ensures
            r.data@ == Registers::spec_new().data@,
            r.shadow@ == Registers::spec_new().shadow@,
            r.pc == 0,
            !r.iff1,
            !r.iff2,
            r.im == 0,
            !r.mode8080,
    {
        Registers {
            data: [0xff, 0xff, 0, 0, 0, 0, 0, 0, 0, 0, 0, 0, 0, 0, 0xff, 0xff],
            shadow: [0, 0, 0, 0, 0, 0, 0, 0, 0, 0, 0, 0, 0, 0, 0, 0],
            pc: 0,
            iff1: false,
            iff2: false,
            im: 0,
            mode8080: false,
        }
    }

    /// Switches to 8080 flag semantics: AF and SP to 0xffff, with N set and bits 3 and 5 clear.
    pub fn set_8080(&mut self)
        ensures
            final(self).mode8080,
            final(self).data@ == old(self).data@.update(0, 0xff).update(1, 0xd7).update(14, 0xff).update(15, 0xff),
            final(self).shadow == old(self).shadow,
            final(self).pc == old(self).pc,
            final(self).iff1 == old(self).iff1,
            final(self).iff2 == old(self).iff2,
            final(self).im == old(self).im,
    {
        self.mode8080 = true;
        self.set16(Reg16::AF, 0xffff);
        self.set16(Reg16::SP, 0xffff);
        self.set_flag(Flag::N);
        assert(((0xffu8 | 2u8) & 0xd7u8) == 0xd7u8 && (0xd7u8 | 2u8) == 0xd7u8) by (bit_vector);
    }

    /// Returns the value of the A register
    pub fn a(&self) -> (r: u8)
        ensures
            r == self.reg8(Reg8::A),
    {
        self.data[0]
    }

    /// Sets the A register
    pub fn set_a(&mut self, value: u8)
        ensures
            final(self).data@ == old(self).data@.update(0, value),
            old(self).same_but_data(&*final(self)),
    {
        self.data[0] = value;
    }

    /// Returns the value of an 8 bit register
    pub fn get8(&self, reg: Reg8) -> (r: u8)
        requires
            reg != Reg8::_HL,
        ensures
            r == self.reg8(reg),
    {
        self.data[reg.index()]
    }

    /// Sets the value of an 8 bit register
    pub fn set8(&mut self, reg: Reg8, value: u8)
        requires
            reg != Reg8::_HL,
        ensures
            final(self).data@ == old(self).data@.update(reg.spec_index(), value),
            old(self).same_but_data(&*final(self)),
    {
        self.data[reg.index()] = value;
    }

    /// Adds or subtracts one, with wrap around, and returns the new value.
    pub fn inc_dec8(&mut self, reg: Reg8, inc: bool) -> (r: u8)
        requires
            reg != Reg8::_HL,
        ensures
            r as int == (if inc { old(self).reg8(reg) + 1 } else { old(self).reg8(reg) + 255 }) % 256,
            final(self).data@ == old(self).data@.update(reg.spec_index(), r),
            old(self).same_but_data(&*final(self)),
    {
        let v = self.get8(reg);
        let n: u8 = if inc {
            if v == 255 { 0 } else { v + 1 }
        } else {
            if v == 0 { 255 } else { v - 1 }
        };
        self.set8(reg, n);
        n
    }

    /// Returns the value of a 16 bit register
    pub fn get16(&self, rr: Reg16) -> (r: u16)
        ensures
            r == self.reg16(rr),
    {
        let i = rr.index();
        (self.data[i] as u16) * 256 + self.data[i + 1] as u16
    }

    /// Sets the value of a 16 bit register, high byte first. In 8080 mode a write of AF
    /// keeps N set and bits 3 and 5 clear.
    pub fn set16(&mut self, rr: Reg16, value: u16)
        ensures
            final(self).data@ == old(self).data@.update(rr.spec_index(), (value / 256) as u8).update(
                rr.spec_index() + 1,
                if old(self).mode8080 && rr == Reg16::AF {
                    ((value % 256) as u8 | 2) & 0xd7
                } else {
                    (value % 256) as u8
                },
            ),
            old(self).same_but_data(&*final(self)),
    {
        let i = rr.index();
        self.data[i] = (value / 256) as u8;
        if self.mode8080 && rr == Reg16::AF {
            self.data[i + 1] = ((value % 256) as u8 | 2) & 0xd7;
        } else {
            self.data[i + 1] = (value % 256) as u8;
        }
    }

    /// Adds or subtracts one on a 16 bit register, with wrap around, and returns the new value.
    pub fn inc_dec16(&mut self, rr: Reg16, inc: bool) -> (r: u16)
        requires
            rr != Reg16::AF,
        ensures
            r as int == (if inc { old(self).reg16(rr) + 1 } else { old(self).reg16(rr) + 0xffff }) % 0x10000,
            final(self).reg16(rr) == r,
            final(self).data@ == old(self).data@.update(rr.spec_index(), (r / 256) as u8).update(
                rr.spec_index() + 1,
                (r % 256) as u8,
            ),
            old(self).same_but_data(&*final(self)),
    {
        let v = self.get16(rr);
        let n: u16 = if inc {
            if v == 0xffff { 0 } else { v + 1 }
        } else {
            if v == 0 { 0xffff } else { v - 1 }
        };
        self.set16(rr, n);
        n
    }

    /// Exchanges both bytes of a register pair with the alternate bank.
    pub fn swap(&mut self, rr: Reg16)
        ensures
            final(self).data@ == old(self).data@.update(rr.spec_index(), old(self).shadow[rr.spec_index()]).update(
                rr.spec_index() + 1,
                old(self).shadow[rr.spec_index() + 1],
            ),
            final(self).shadow@ == old(self).shadow@.update(rr.spec_index(), old(self).data[rr.spec_index()]).update(
                rr.spec_index() + 1,
                old(self).data[rr.spec_index() + 1],
            ),
            final(self).pc == old(self).pc,
            final(self).iff1 == old(self).iff1,
            final(self).iff2 == old(self).iff2,
            final(self).im == old(self).im,
            final(self).mode8080 == old(self).mode8080,
    {
        let ih = rr.index();
        let t = self.data[ih];
        self.data[ih] = self.shadow[ih];
        self.shadow[ih] = t;
        let il = ih + 1;
        let t = self.data[il];
        self.data[il] = self.shadow[il];
        self.shadow[il] = t;
    }

    /// Returns the value of a flag
    pub fn get_flag(&self, flag: Flag) -> (r: bool)
        ensures
            r == self.flag(flag),
    {
        self.data[1] & flag.mask() != 0
    }

    /// Sets a flag to true
    pub fn set_flag(&mut self, flag: Flag)
        ensures
            old(self).with_f(&*final(self), old(self).f() | flag.spec_mask()),
    {
        self.data[1] = self.data[1] | flag.mask();
    }

    /// Clears a flag
    pub fn clear_flag(&mut self, flag: Flag)
        ensures
            old(self).with_f(&*final(self), old(self).f() & !flag.spec_mask()),
    {
        self.data[1] = self.data[1] & !flag.mask();
    }

    /// Sets a flag to the given value
    pub fn put_flag(&mut self, flag: Flag, value: bool)
        ensures
            old(self).with_f(&*final(self), put_bits(old(self).f(), flag.spec_mask(), value)),
    {
        if value {
            self.set_flag(flag);
        } else {
            self.clear_flag(flag);
        }
    }

    /// Returns the program counter
    pub fn pc(&self) -> (r: u16)
        ensures
            r == self.pc,
    {
        self.pc
    }

    /// Changes the program counter
    pub fn set_pc(&mut self, value: u16)
        ensures
            *final(self) == (Registers { pc: value, ..*old(self) }),
    {
        self.pc = value;
    }

    /// Writes both interrupt flip-flops.
    pub fn set_interrupts(&mut self, v: bool)
        ensures
            *final(self) == (Registers { iff1: v, iff2: v, ..*old(self) }),
    {
        self.iff1 = v;
        self.iff2 = v;
    }

    /// Selects the interrupt mode.
    pub fn set_interrupt_mode(&mut self, im: u8)
        ensures
            *final(self) == (Registers { im: im, ..*old(self) }),
    {
        self.im = im;
    }

    /// Returns IFF1 and the interrupt mode.
    pub fn get_interrupt_mode(&self) -> (r: (bool, u8))
        ensures
            r == (self.iff1, self.im),
    {
        (self.iff1, self.im)
    }

    /// Entry of a non maskable interrupt: IFF1 is saved to IFF2, then cleared.
    pub fn start_nmi(&mut self)
        ensures
            *final(self) == (Registers { iff1: false, iff2: old(self).iff1, ..*old(self) }),
    {
        self.iff2 = self.iff1;
        self.iff1 = false;
    }

    /// Writes H and N, off 8080 mode.
    pub fn update_hn_flags(&mut self, hf: bool, nf: bool)
        ensures
            old(self).with_f(&*final(self), hn(old(self).f(), hf, nf, old(self).mode8080)),
    {
        if !self.mode8080 {
            self.put_flag(Flag::H, hf);
            self.put_flag(Flag::N, nf);
        }
    }

    /// Sets P to the parity of `reference`.
    pub fn update_p_flag(&mut self, reference: u8)
        ensures
            old(self).with_f(&*final(self), with_parity(old(self).f(), reference)),
    {
        let v = reference;
        let even = (v ^ (v >> 1u8) ^ (v >> 2u8) ^ (v >> 3u8) ^ (v >> 4u8) ^ (v >> 5u8) ^ (v >> 6u8) ^ (v
            >> 7u8)) & 1 == 0;
        self.put_flag(Flag::P, even);
    }

    /// Takes S, Z, bit 5 and bit 3 from `reference`.
    pub fn update_sz53_flags(&mut self, reference: u8)
        ensures
            old(self).with_f(&*final(self), sz53(old(self).f(), reference, old(self).mode8080)),
    {
        self.update_undocumented_flags(reference);
        self.put_flag(Flag::Z, reference == 0);
        self.put_flag(Flag::S, reference & 128 != 0);
    }

    /// Copies bits 5 and 3 of `reference` into F, off 8080 mode.
    pub fn update_undocumented_flags(&mut self, reference: u8)
        ensures
            old(self).with_f(&*final(self), undoc(old(self).f(), reference, old(self).mode8080)),
    {
        if !self.mode8080 {
            self.put_flag(Flag::_5, reference & 32 != 0);
            self.put_flag(Flag::_3, reference & 8 != 0);
        }
    }

    /// Copies bits 1 and 3 of `reference` into bits 5 and 3 of F, off 8080 mode.
    pub fn update_undocumented_flags_block(&mut self, reference: u8)
        ensures
            old(self).with_f(&*final(self), undoc_block(old(self).f(), reference, old(self).mode8080)),
    {
        if !self.mode8080 {
            self.put_flag(Flag::_5, reference & 2 != 0);
            self.put_flag(Flag::_3, reference & 8 != 0);
        }
    }

    /// Flags of ADD HL, rr.
    pub fn update_add16_flags(&mut self, a: u32, b: u32, v: u32)
        ensures
            old(self).with_f(&*final(self), add16_flags(old(self).f(), a, b, v, old(self).mode8080)),
    {
        if self.mode8080 {
            self.put_flag(Flag::C, (v & 0x10000) != 0);
        } else {
            let xor = ((a ^ b ^ v) >> 8u32) as u16;
            let m = self.mode8080;
            self.update_undocumented_flags((v >> 8u32) as u8);
            self.put_flag(Flag::C, (xor >> 8u16) & 1 != 0);
            self.put_flag(Flag::H, (xor >> 4u16) & 1 != 0);
            self.clear_flag(Flag::N);
            assert(!2u8 == 0xfdu8) by (bit_vector);
        }
    }

    /// Flags of an 8 bit arithmetic operation.
    pub fn update_arithmetic_flags(&mut self, a: u16, b: u16, reference: u16, neg: bool, update_carry: bool)
        ensures
            old(self).with_f(
                &*final(self),
                arith_flags(old(self).f(), a, b, reference, neg, update_carry, old(self).mode8080),
            ),
    {
        self.update_sz53_flags(reference as u8);
        let xor = a ^ b ^ reference;
        let carry_bit = (xor & 0x100) != 0;
        if update_carry {
            self.put_flag(Flag::C, carry_bit);
        }
        let half_bit = (xor & 0x10) != 0;
        self.put_flag(Flag::H, half_bit);
        if self.mode8080 {
            self.update_p_flag(reference as u8);
            if neg {
                let a_b3 = (a & 8) != 0;
                let b_b3 = (b & 8) != 0;
                let r_b3 = (reference & 8) != 0;
                self.put_flag(Flag::H, (!a_b3 && !b_b3 && !r_b3) || (a_b3 && !(b_b3 && r_b3)));
            }
        } else {
            let top_xor = (xor & 0x80) != 0;
            self.put_flag(Flag::P, carry_bit != top_xor);
            self.put_flag(Flag::N, neg);
        }
    }

    /// Flags of a 16 bit ADC or SBC, from the high bytes.
    pub fn update_arithmetic_flags_16(&mut self, a: u32, b: u32, reference: u32, neg: bool)
        ensures
            old(self).with_f(
                &*final(self),
                arith_flags(
                    old(self).f(),
                    (a >> 8u32) as u16,
                    (b >> 8u32) as u16,
                    (reference >> 8u32) as u16,
                    neg,
                    true,
                    old(self).mode8080,
                ),
            ),
    {
        self.update_arithmetic_flags((a >> 8u32) as u16, (b >> 8u32) as u16, (reference >> 8u32) as u16, neg, true);
    }

    /// Flags of AND, OR and XOR.
    pub fn update_logic_flags(&mut self, a: u8, b: u8, reference: u8, is_and: bool)
        ensures
            old(self).with_f(&*final(self), logic_flags(old(self).f(), a, b, reference, is_and, old(self).mode8080)),
    {
        self.update_sz53_flags(reference);
        self.update_p_flag(reference);
        self.clear_flag(Flag::C);
        if self.mode8080 {
            self.put_flag(Flag::H, is_and && (((a | b) & 8) != 0));
        } else {
            self.clear_flag(Flag::N);
            self.put_flag(Flag::H, is_and);
        }
        assert(!1u8 == 0xfeu8 && !2u8 == 0xfdu8) by (bit_vector);
    }

    /// Flags of a block I/O step.
    pub fn update_block_flags(&mut self, reference: u8, k: u16, counter: u8)
        ensures
            old(self).with_f(&*final(self), block_flags(old(self).f(), reference, k, counter, old(self).mode8080)),
    {
        self.update_sz53_flags(counter);
        self.put_flag(Flag::H, k > 255);
        if !self.mode8080 {
            self.update_p_flag(((k as u8) & 7) ^ counter);
            self.put_flag(Flag::N, reference & 0x80 != 0);
        }
        self.put_flag(Flag::C, k > 255);
    }

    /// Flags of a rotate, shift or bit operation with result `reference`.
    pub fn update_bits_in_flags(&mut self, reference: u8)
        ensures
            old(self).with_f(&*final(self), bits_in_flags(old(self).f(), reference, old(self).mode8080)),
    {
        self.update_sz53_flags(reference);
        self.clear_flag(Flag::H);
        if !self.mode8080 {
            self.update_p_flag(reference);
            self.clear_flag(Flag::N);
        }
        assert(!16u8 == 0xefu8 && !2u8 == 0xfdu8) by (bit_vector);
    }

    /// Flags of DAA.
    pub fn update_daa_flags(&mut self, new_a: u8, new_hf: bool, new_cf: bool)
        ensures
            old(self).with_f(&*final(self), daa_flags(old(self).f(), new_a, new_hf, new_cf, old(self).mode8080)),
    {
        self.update_sz53_flags(new_a);
        self.update_p_flag(new_a);
        self.put_flag(Flag::H, new_hf);
        self.put_flag(Flag::C, new_cf);
    }

    /// Copies IFF2 into P, as LD A, I and LD A, R do.
    pub fn update_p_flag_with_iff2(&mut self)
        ensures
            old(self).with_f(&*final(self), put_bits(old(self).f(), 4, old(self).iff2)),
    {
        let v = self.iff2;
        self.put_flag(Flag::P, v);
    }

    /// Exit of a non maskable interrupt: IFF1 is restored from IFF2.
    pub fn end_nmi(&mut self)
        ensures
            *final(self) == (Registers { iff1: old(self).iff2, ..*old(self) }),
    {
        self.iff1 = self.iff2;
    }
}

} // verus!
