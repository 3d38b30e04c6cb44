use vstd::prelude::*;
use crate::registers::{Reg16, Reg8, Registers};

verus! {

/// Internal state of the CPU: the registers and the bookkeeping of the step in progress.
pub struct State {
    /// Values of the registers
    pub reg: Registers,
    /// Cycle counter
    pub cycle: u64,
    /// Whether the current conditional instruction took its branch
    pub branch_taken: bool,
    /// Halt state of the CPU
    pub halted: bool,
    /// Maskable interrupt signaled
    pub int_signaled: bool,
    /// Non maskable interrupt signaled
    pub nmi_pending: bool,
    /// Reset signaled
    pub reset_pending: bool,
    /// Interrupts enabled by the previous instruction
    pub int_just_enabled: bool,
    /// Active index register: HL, IX or IY
    pub index: Reg16,
    /// Displacement for (IX+d) and (IY+d)
    pub displacement: i8,
}

/// Why a byte blob could not be read back into a state.
#[derive(Copy, Clone, Debug, PartialEq, Eq, Structural)]
pub enum DeserializeError {
    /// Fewer bytes than a serialized state holds
    TooShort,
    /// The index tag is not 0, 1 or 2
    BadIndex,
}

/// Length of a serialized state.
pub const SERIALIZE_SIZE: usize = 53;

/// Register that `r` names while `index` is the active index: H and L move to the
/// halves of IX or IY.
pub open spec fn translate(index: Reg16, r: Reg8) -> Reg8 {
    if index == Reg16::IX && r == Reg8::H {
        Reg8::IXH
    } else if index == Reg16::IX && r == Reg8::L {
        Reg8::IXL
    } else if index == Reg16::IY && r == Reg8::H {
        Reg8::IYH
    } else if index == Reg16::IY && r == Reg8::L {
        Reg8::IYL
    } else {
        r
    }
}

/// The 16 bit value `a + d`, wrapping.
pub open spec fn offset_addr(a: u16, d: i8) -> u16 {
    ((a as int + d as int + 0x10000) % 0x10000) as u16
}

/// The index tag stored for `index`.
pub open spec fn index_tag(index: Reg16) -> u8 {
    if index == Reg16::IX {
        1
    } else if index == Reg16::IY {
        2
    } else {
        0
    }
}

/// The eight bytes of `x`, least significant first.
pub open spec fn le64(x: u64) -> Seq<u8> {
    seq![
        x as u8,
        (x >> 8u64) as u8,
        (x >> 16u64) as u8,
        (x >> 24u64) as u8,
        (x >> 32u64) as u8,
        (x >> 40u64) as u8,
        (x >> 48u64) as u8,
        (x >> 56u64) as u8,
    ]
}

/// The number whose little endian bytes start `b` at `i`.
pub open spec fn from_le64(b: Seq<u8>, i: int) -> u64 {
    (b[i] as u64) | ((b[i + 1] as u64) << 8u64) | ((b[i + 2] as u64) << 16u64) | ((b[i + 3] as u64)
        << 24u64) | ((b[i + 4] as u64) << 32u64) | ((b[i + 5] as u64) << 40u64) | ((b[i + 6] as u64)
        << 48u64) | ((b[i + 7] as u64) << 56u64)
}

/// A boolean as a byte.
pub open spec fn byte_of(b: bool) -> u8 {
    if b {
        1
    } else {
        0
    }
}

/// Reading back the bytes of a state restores it: every field, the 8080 mode aside,
/// which a blob does not carry and which the receiving state keeps.
pub proof fn lemma_serialize_round_trip(s: State, t: State, u: State)
    requires
        s.index == Reg16::HL || s.index == Reg16::IX || s.index == Reg16::IY,
        u.reg.data@ == s.serialized().subrange(0, 16),
        u.reg.shadow@ == s.serialized().subrange(16, 32),
        u == (State {
            reg: Registers { data: u.reg.data, shadow: u.reg.shadow, ..t.deserialized(s.serialized()).reg },
            ..t.deserialized(s.serialized())
        }),
    ensures
        s.serialized().len() == SERIALIZE_SIZE,
        s.serialized()[51] <= 2,
        u == (State { reg: Registers { mode8080: t.reg.mode8080, ..s.reg }, ..s }),
{
    let b = s.serialized();
    assert(b.len() == 53);
    assert(u.reg.data@ =~= s.reg.data@);
    assert(u.reg.shadow@ =~= s.reg.shadow@);
    vstd::array::axiom_array_ext_equal(u.reg.data, s.reg.data);
    vstd::array::axiom_array_ext_equal(u.reg.shadow, s.reg.shadow);
    let x = s.cycle;
    assert(b.subrange(37, 45) =~= le64(x));
    assert(from_le64(b, 37) == x) by {
        assert(b[37] == x as u8 && b[38] == (x >> 8u64) as u8 && b[39] == (x >> 16u64) as u8
            && b[40] == (x >> 24u64) as u8 && b[41] == (x >> 32u64) as u8 && b[42] == (x >> 40u64) as u8
            && b[43] == (x >> 48u64) as u8 && b[44] == (x >> 56u64) as u8);
        assert(((x as u8) as u64) | ((((x >> 8u64) as u8) as u64) << 8u64) | ((((x >> 16u64) as u8) as u64)
            << 16u64) | ((((x >> 24u64) as u8) as u64) << 24u64) | ((((x >> 32u64) as u8) as u64) << 32u64)
            | ((((x >> 40u64) as u8) as u64) << 40u64) | ((((x >> 48u64) as u8) as u64) << 48u64) | ((((x
            >> 56u64) as u8) as u64) << 56u64) == x) by (bit_vector);
    }
    let pc = s.reg.pc;
    assert(b[32] == pc as u8 && b[33] == (pc / 256) as u8);
    assert((pc as u8) as int + 256 * ((pc / 256) as u8) as int == pc as int) by {
        assert((pc as u8) as u16 == pc % 256 && ((pc / 256) as u8) as u16 == pc / 256) by (bit_vector);
    }
    let d = s.displacement;
    assert(b[52] == d as u8);
    assert(((d as u8) as i8) == d) by (bit_vector);
}

/// The eight bytes of `x`, least significant first.
fn le64_bytes(x: u64) -> (r: Vec<u8>)
    ensures
        r@ == le64(x),
{
    let mut r: Vec<u8> = Vec::new();
    r.push(x as u8);
    r.push((x >> 8u64) as u8);
    r.push((x >> 16u64) as u8);
    r.push((x >> 24u64) as u8);
    r.push((x >> 32u64) as u8);
    r.push((x >> 40u64) as u8);
    r.push((x >> 48u64) as u8);
    r.push((x >> 56u64) as u8);
    assert(r@ =~= le64(x));
    r
}

impl State {
    /// The bytes that `serialize` gives: both register banks, PC little endian, IFF1, IFF2,
    /// IM, the cycle counter little endian, six latches, the index tag and the displacement.
    pub open spec fn serialized(&self) -> Seq<u8> {
        self.reg.data@ + self.reg.shadow@ + self.spec_tail()
    }

    /// The state that `deserialize` makes of `b` on `self`: every serialized field read
    /// back, the 8080 mode kept.
    pub open spec fn deserialized(&self, b: Seq<u8>) -> State {
        State {
            reg: Registers {
                data: self.reg.data,
                shadow: self.reg.shadow,
                pc: (b[32] as int + 256 * b[33] as int) as u16,
                iff1: b[34] != 0,
                iff2: b[35] != 0,
                im: b[36],
                mode8080: self.reg.mode8080,
            },
            cycle: from_le64(b, 37),
            branch_taken: b[45] != 0,
            halted: b[46] != 0,
            int_signaled: b[47] != 0,
            nmi_pending: b[48] != 0,
            reset_pending: b[49] != 0,
            int_just_enabled: b[50] != 0,
            index: if b[51] == 1 {
                Reg16::IX
            } else if b[51] == 2 {
                Reg16::IY
            } else {
                Reg16::HL
            },
            displacement: b[52] as i8,
        }
    }

    /// Whether the active index is HL, IX or IY.
    pub open spec fn index_ok(&self) -> bool {
        self.index == Reg16::HL || self.index == Reg16::IX || self.index == Reg16::IY
    }

    /// Address of the pseudo register (HL): HL, or IX+d or IY+d.
    pub open spec fn spec_index_address(&self) -> u16 {
        if self.index == Reg16::HL {
            self.reg.reg16(Reg16::HL)
        } else {
            offset_addr(self.reg.reg16(self.index), self.displacement)
        }
    }

    /// Whether only the registers changed between `self` and `other`.
    pub open spec fn same_but_reg(&self, other: &State) -> bool {
        other == &(State { reg: other.reg, ..*self })
    }

    /// Returns the state of a CPU at power up.
    pub fn new() -> (r: State)
        ensures
            r.reg.data@ == Registers::spec_new().data@,
            r.reg.shadow@ == Registers::spec_new().shadow@,
            r.reg.pc == 0,
            !r.reg.iff1 && !r.reg.iff2 && r.reg.im == 0 && !r.reg.mode8080,
            r.cycle == 0,
            !r.branch_taken && !r.halted && !r.int_signaled && !r.nmi_pending && !r.reset_pending,
            !r.int_just_enabled,
            r.index == Reg16::HL,
            r.displacement == 0,
    {
        State {
            reg: Registers::new(),
            cycle: 0,
            branch_taken: false,
            halted: false,
            int_signaled: false,
            nmi_pending: false,
            reset_pending: false,
            int_just_enabled: false,
            index: Reg16::HL,
            displacement: 0,
        }
    }

    /// The bytes that follow the register banks in a serialized state.
    pub open spec fn spec_tail(&self) -> Seq<u8> {
        seq![
            self.reg.pc as u8,
            (self.reg.pc / 256) as u8,
            byte_of(self.reg.iff1),
            byte_of(self.reg.iff2),
            self.reg.im,
        ] + le64(self.cycle) + seq![
            byte_of(self.branch_taken),
            byte_of(self.halted),
            byte_of(self.int_signaled),
            byte_of(self.nmi_pending),
            byte_of(self.reset_pending),
            byte_of(self.int_just_enabled),
            index_tag(self.index),
            self.displacement as u8,
        ]
    }

    fn serialized_tail(&self) -> (r: Vec<u8>)
        ensures
            r@ == self.spec_tail(),
    {
        let mut data: Vec<u8> = Vec::new();
        let pc = self.reg.pc;
        data.push(pc as u8);
        data.push((pc / 256) as u8);
        data.push(if self.reg.iff1 { 1 } else { 0 });
        data.push(if self.reg.iff2 { 1 } else { 0 });
        data.push(self.reg.im);
        let ghost head = data@;
        let mut c = le64_bytes(self.cycle);
        data.append(&mut c);
        let ghost mid = data@;
        let mut latches: Vec<u8> = Vec::new();
        latches.push(if self.branch_taken { 1 } else { 0 });
        latches.push(if self.halted { 1 } else { 0 });
        latches.push(if self.int_signaled { 1 } else { 0 });
        latches.push(if self.nmi_pending { 1 } else { 0 });
        latches.push(if self.reset_pending { 1 } else { 0 });
        latches.push(if self.int_just_enabled { 1 } else { 0 });
        latches.push(
            match self.index {
                Reg16::IX => 1,
                Reg16::IY => 2,
                _ => 0,
            },
        );
        latches.push(self.displacement as u8);
        data.append(&mut latches);
        assert(data@ =~= self.spec_tail());
        data
    }

    /// Returns the state as a fixed length byte blob.
    pub fn serialize(&self) -> (r: Vec<u8>)
        ensures
            r@ == self.serialized(),
            r@.len() == SERIALIZE_SIZE,
    {
        let mut data: Vec<u8> = Vec::new();
        let mut i: usize = 0;
        while i < 16
            invariant
                i <= 16,
                data@ == self.reg.data@.subrange(0, i as int),
            decreases 16 - i,
        {
            data.push(self.reg.data[i]);
            i = i + 1;
            assert(data@ =~= self.reg.data@.subrange(0, i as int));
        }
        let mut i: usize = 0;
        while i < 16
            invariant
                i <= 16,
                data@ == self.reg.data@ + self.reg.shadow@.subrange(0, i as int),
            decreases 16 - i,
        {
            data.push(self.reg.shadow[i]);
            i = i + 1;
            assert(data@ =~= self.reg.data@ + self.reg.shadow@.subrange(0, i as int));
        }
        assert(self.reg.data@ =~= self.reg.data@.subrange(0, 16));
        assert(self.reg.shadow@ =~= self.reg.shadow@.subrange(0, 16));
        let mut tail = self.serialized_tail();
        data.append(&mut tail);
        assert(data@ =~= self.serialized());
        data
    }

    /// Reads a state back from `data`. Fails, leaving the state as it was, when `data`
    /// is shorter than a serialized state or its index tag is not 0, 1 or 2.
    pub fn deserialize(&mut self, data: &[u8]) -> (r: Result<(), DeserializeError>)
        ensures
            data@.len() < SERIALIZE_SIZE ==> r == Err::<(), DeserializeError>(DeserializeError::TooShort),
            data@.len() >= SERIALIZE_SIZE && data@[51] > 2 ==> r == Err::<(), DeserializeError>(
                DeserializeError::BadIndex,
            ),
            r.is_err() ==> *final(self) == *old(self),
            r.is_ok() <==> data@.len() >= SERIALIZE_SIZE && data@[51] <= 2,
            r.is_ok() ==> final(self).reg.data@ == data@.subrange(0, 16),
            r.is_ok() ==> final(self).reg.shadow@ == data@.subrange(16, 32),
            r.is_ok() ==> *final(self) == (State {
                reg: Registers { data: final(self).reg.data, shadow: final(self).reg.shadow, ..old(self).deserialized(data@).reg },
                ..old(self).deserialized(data@)
            }),
    {
        if data.len() < SERIALIZE_SIZE {
            return Err(DeserializeError::TooShort);
        }
        if data[51] > 2 {
            return Err(DeserializeError::BadIndex);
        }
        let mut i: usize = 0;
        while i < 16
            invariant
                i <= 16,
                data@.len() >= SERIALIZE_SIZE,
                forall|j: int| 0 <= j < i ==> self.reg.data[j] == data@[j],
                forall|j: int| 0 <= j < i ==> self.reg.shadow[j] == data@[16 + j],
                *self == (State { reg: Registers { data: self.reg.data, shadow: self.reg.shadow, ..old(self).reg }, ..*old(self) }),
            decreases 16 - i,
        {
            self.reg.data[i] = data[i];
            self.reg.shadow[i] = data[16 + i];
            i = i + 1;
        }
        assert(self.reg.data@ =~= data@.subrange(0, 16));
        assert(self.reg.shadow@ =~= data@.subrange(16, 32));
        self.reg.pc = data[32] as u16 + (data[33] as u16) * 256;
        self.reg.iff1 = data[34] != 0;
        self.reg.iff2 = data[35] != 0;
        self.reg.im = data[36];
        self.cycle = (data[37] as u64) | ((data[38] as u64) << 8u64) | ((data[39] as u64) << 16u64) | ((
        data[40] as u64) << 24u64) | ((data[41] as u64) << 32u64) | ((data[42] as u64) << 40u64) | ((
        data[43] as u64) << 48u64) | ((data[44] as u64) << 56u64);
        self.branch_taken = data[45] != 0;
        self.halted = data[46] != 0;
        self.int_signaled = data[47] != 0;
        self.nmi_pending = data[48] != 0;
        self.reset_pending = data[49] != 0;
        self.int_just_enabled = data[50] != 0;
        self.index = if data[51] == 1 {
            Reg16::IX
        } else if data[51] == 2 {
            Reg16::IY
        } else {
            Reg16::HL
        };
        self.displacement = data[52] as i8;
        Ok(())
    }
}

} // verus!
