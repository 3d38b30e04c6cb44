use vstd::prelude::*;

verus! {

/// Published cycles of the Z80 opcodes without prefix.
pub open spec fn z80_main_table() -> [u8; 256] {
    [
        4, 10, 7, 6, 4, 4, 7, 4, 4, 11, 7, 6, 4, 4, 7, 4,
        13, 10, 7, 6, 4, 4, 7, 4, 12, 11, 7, 6, 4, 4, 7, 4,
        12, 10, 16, 6, 4, 4, 7, 4, 12, 11, 16, 6, 4, 4, 7, 4,
        12, 10, 13, 6, 11, 11, 10, 4, 12, 11, 13, 6, 4, 4, 7, 4,
        4, 4, 4, 4, 4, 4, 7, 4, 4, 4, 4, 4, 4, 4, 7, 4,
        4, 4, 4, 4, 4, 4, 7, 4, 4, 4, 4, 4, 4, 4, 7, 4,
        4, 4, 4, 4, 4, 4, 7, 4, 4, 4, 4, 4, 4, 4, 7, 4,
        7, 7, 7, 7, 7, 7, 4, 7, 4, 4, 4, 4, 4, 4, 7, 4,
        4, 4, 4, 4, 4, 4, 7, 4, 4, 4, 4, 4, 4, 4, 7, 4,
        4, 4, 4, 4, 4, 4, 7, 4, 4, 4, 4, 4, 4, 4, 7, 4,
        4, 4, 4, 4, 4, 4, 7, 4, 4, 4, 4, 4, 4, 4, 7, 4,
        4, 4, 4, 4, 4, 4, 7, 4, 4, 4, 4, 4, 4, 4, 7, 4,
        11, 10, 10, 10, 17, 11, 7, 11, 11, 10, 10, 0, 17, 17, 7, 11,
        11, 10, 10, 11, 17, 11, 7, 11, 11, 4, 10, 11, 17, 0, 7, 11,
        11, 10, 10, 19, 17, 11, 7, 11, 11, 4, 10, 4, 17, 0, 7, 11,
        11, 10, 10, 4, 17, 11, 7, 11, 11, 6, 10, 4, 17, 0, 7, 11,
    ]
}

/// Published cycles of the Z80 opcodes after ED.
pub open spec fn z80_ed_table() -> [u8; 256] {
    [
        8, 8, 8, 8, 8, 8, 8, 8, 8, 8, 8, 8, 8, 8, 8, 8,
        8, 8, 8, 8, 8, 8, 8, 8, 8, 8, 8, 8, 8, 8, 8, 8,
        8, 8, 8, 8, 8, 8, 8, 8, 8, 8, 8, 8, 8, 8, 8, 8,
        8, 8, 8, 8, 8, 8, 8, 8, 8, 8, 8, 8, 8, 8, 8, 8,
        12, 12, 15, 20, 8, 14, 8, 9, 12, 12, 15, 20, 8, 14, 8, 9,
        12, 12, 15, 20, 8, 14, 8, 9, 12, 12, 15, 20, 8, 14, 8, 9,
        12, 12, 15, 20, 8, 14, 8, 18, 12, 12, 15, 20, 8, 14, 8, 18,
        12, 12, 15, 20, 8, 14, 8, 8, 12, 12, 15, 20, 8, 14, 8, 8,
        8, 8, 8, 8, 8, 8, 8, 8, 8, 8, 8, 8, 8, 8, 8, 8,
        8, 8, 8, 8, 8, 8, 8, 8, 8, 8, 8, 8, 8, 8, 8, 8,
        16, 16, 16, 16, 8, 8, 8, 8, 16, 16, 16, 16, 8, 8, 8, 8,
        21, 21, 21, 21, 8, 8, 8, 8, 21, 21, 21, 21, 8, 8, 8, 8,
        8, 8, 8, 8, 8, 8, 8, 8, 8, 8, 8, 8, 8, 8, 8, 8,
        8, 8, 8, 8, 8, 8, 8, 8, 8, 8, 8, 8, 8, 8, 8, 8,
        8, 8, 8, 8, 8, 8, 8, 8, 8, 8, 8, 8, 8, 8, 8, 8,
        8, 8, 8, 8, 8, 8, 8, 8, 8, 8, 8, 8, 8, 8, 8, 8,
    ]
}

/// Published cycles of the 8080 opcodes.
pub open spec fn i8080_table() -> [u8; 256] {
    [
        4, 10, 7, 5, 5, 5, 7, 4, 4, 10, 7, 5, 5, 5, 7, 4,
        4, 10, 7, 5, 5, 5, 7, 4, 4, 10, 7, 5, 5, 5, 7, 4,
        4, 10, 16, 5, 5, 5, 7, 4, 4, 10, 16, 5, 5, 5, 7, 4,
        4, 10, 13, 5, 10, 10, 10, 4, 4, 10, 13, 5, 5, 5, 7, 4,
        5, 5, 5, 5, 5, 5, 7, 5, 5, 5, 5, 5, 5, 5, 7, 5,
        5, 5, 5, 5, 5, 5, 7, 5, 5, 5, 5, 5, 5, 5, 7, 5,
        5, 5, 5, 5, 5, 5, 7, 5, 5, 5, 5, 5, 5, 5, 7, 5,
        7, 7, 7, 7, 7, 7, 7, 7, 5, 5, 5, 5, 5, 5, 7, 5,
        4, 4, 4, 4, 4, 4, 7, 4, 4, 4, 4, 4, 4, 4, 7, 4,
        4, 4, 4, 4, 4, 4, 7, 4, 4, 4, 4, 4, 4, 4, 7, 4,
        4, 4, 4, 4, 4, 4, 7, 4, 4, 4, 4, 4, 4, 4, 7, 4,
        7, 7, 7, 7, 7, 7, 4, 7, 4, 4, 4, 4, 4, 4, 7, 4,
        11, 10, 10, 10, 17, 11, 7, 11, 11, 10, 10, 10, 17, 17, 7, 11,
        11, 10, 10, 10, 17, 11, 7, 11, 11, 10, 10, 10, 17, 17, 7, 11,
        11, 10, 10, 18, 17, 11, 7, 11, 11, 5, 10, 5, 17, 17, 7, 11,
        11, 10, 10, 4, 17, 11, 7, 11, 11, 5, 10, 4, 17, 17, 7, 11,
    ]
}

/// Cycles of a Z80 opcode without prefix when its branch is taken, or always.
pub open spec fn z80_main_cycles(c: int) -> u8 {
    z80_main_table()@[c]
}

/// Cycles of a Z80 opcode without prefix when its branch is not taken: DJNZ takes 8,
/// JR cc 7, RET cc 5, CALL cc 10; JP cc takes 10 either way.
pub open spec fn z80_main_not_taken(c: int) -> u8 {
    if c == 0x10 {
        8
    } else if c == 0x20 || c == 0x28 || c == 0x30 || c == 0x38 {
        7
    } else if c >= 0xc0 && c % 8 == 0 {
        5
    } else if c >= 0xc0 && c % 8 == 4 {
        10
    } else {
        z80_main_cycles(c)
    }
}

/// Cycles of a CB opcode: 8, or 12 for BIT and 15 for the others on (HL).
pub open spec fn z80_cb_cycles(c: int) -> u8 {
    if c % 8 == 6 {
        if c / 64 == 1 {
            12
        } else {
            15
        }
    } else {
        8
    }
}

/// Cycles of a CB opcode after DD or FD: 20 for BIT, 23 for the others.
pub open spec fn z80_cb_indexed_cycles(c: int) -> u8 {
    if c / 64 == 1 {
        20
    } else {
        23
    }
}

/// Cycles of an ED opcode, or of a repeating block instruction that repeats; the
/// undefined slots run as two no-operations, 8 cycles.
pub open spec fn z80_ed_cycles(c: int) -> u8 {
    z80_ed_table()@[c]
}

/// Cycles of an ED opcode when a repeating block instruction ends: 16.
pub open spec fn z80_ed_not_taken(c: int) -> u8 {
    if (0xb0 <= c <= 0xb3) || (0xb8 <= c <= 0xbb) {
        16
    } else {
        z80_ed_cycles(c)
    }
}

/// Cycles of an 8080 opcode when its branch is taken, or always.
pub open spec fn i8080_cycles(c: int) -> u8 {
    i8080_table()@[c]
}

/// Cycles of an 8080 opcode when its branch is not taken: RET cc 5 and CALL cc 11;
/// conditional jumps take as long either way.
pub open spec fn i8080_not_taken(c: int) -> u8 {
    if c >= 0xc0 && c % 8 == 0 {
        5
    } else if c >= 0xc0 && c % 8 == 4 {
        11
    } else {
        i8080_cycles(c)
    }
}

/// The Z80 table without prefix.
pub fn z80_main() -> (r: [u8; 256])
    ensures
        r@ == z80_main_table()@,
{
    [
        4, 10, 7, 6, 4, 4, 7, 4, 4, 11, 7, 6, 4, 4, 7, 4,
        13, 10, 7, 6, 4, 4, 7, 4, 12, 11, 7, 6, 4, 4, 7, 4,
        12, 10, 16, 6, 4, 4, 7, 4, 12, 11, 16, 6, 4, 4, 7, 4,
        12, 10, 13, 6, 11, 11, 10, 4, 12, 11, 13, 6, 4, 4, 7, 4,
        4, 4, 4, 4, 4, 4, 7, 4, 4, 4, 4, 4, 4, 4, 7, 4,
        4, 4, 4, 4, 4, 4, 7, 4, 4, 4, 4, 4, 4, 4, 7, 4,
        4, 4, 4, 4, 4, 4, 7, 4, 4, 4, 4, 4, 4, 4, 7, 4,
        7, 7, 7, 7, 7, 7, 4, 7, 4, 4, 4, 4, 4, 4, 7, 4,
        4, 4, 4, 4, 4, 4, 7, 4, 4, 4, 4, 4, 4, 4, 7, 4,
        4, 4, 4, 4, 4, 4, 7, 4, 4, 4, 4, 4, 4, 4, 7, 4,
        4, 4, 4, 4, 4, 4, 7, 4, 4, 4, 4, 4, 4, 4, 7, 4,
        4, 4, 4, 4, 4, 4, 7, 4, 4, 4, 4, 4, 4, 4, 7, 4,
        11, 10, 10, 10, 17, 11, 7, 11, 11, 10, 10, 0, 17, 17, 7, 11,
        11, 10, 10, 11, 17, 11, 7, 11, 11, 4, 10, 11, 17, 0, 7, 11,
        11, 10, 10, 19, 17, 11, 7, 11, 11, 4, 10, 4, 17, 0, 7, 11,
        11, 10, 10, 4, 17, 11, 7, 11, 11, 6, 10, 4, 17, 0, 7, 11,
    ]
}

/// The Z80 table after ED.
pub fn z80_ed() -> (r: [u8; 256])
    ensures
        r@ == z80_ed_table()@,
{
    [
        8, 8, 8, 8, 8, 8, 8, 8, 8, 8, 8, 8, 8, 8, 8, 8,
        8, 8, 8, 8, 8, 8, 8, 8, 8, 8, 8, 8, 8, 8, 8, 8,
        8, 8, 8, 8, 8, 8, 8, 8, 8, 8, 8, 8, 8, 8, 8, 8,
        8, 8, 8, 8, 8, 8, 8, 8, 8, 8, 8, 8, 8, 8, 8, 8,
        12, 12, 15, 20, 8, 14, 8, 9, 12, 12, 15, 20, 8, 14, 8, 9,
        12, 12, 15, 20, 8, 14, 8, 9, 12, 12, 15, 20, 8, 14, 8, 9,
        12, 12, 15, 20, 8, 14, 8, 18, 12, 12, 15, 20, 8, 14, 8, 18,
        12, 12, 15, 20, 8, 14, 8, 8, 12, 12, 15, 20, 8, 14, 8, 8,
        8, 8, 8, 8, 8, 8, 8, 8, 8, 8, 8, 8, 8, 8, 8, 8,
        8, 8, 8, 8, 8, 8, 8, 8, 8, 8, 8, 8, 8, 8, 8, 8,
        16, 16, 16, 16, 8, 8, 8, 8, 16, 16, 16, 16, 8, 8, 8, 8,
        21, 21, 21, 21, 8, 8, 8, 8, 21, 21, 21, 21, 8, 8, 8, 8,
        8, 8, 8, 8, 8, 8, 8, 8, 8, 8, 8, 8, 8, 8, 8, 8,
        8, 8, 8, 8, 8, 8, 8, 8, 8, 8, 8, 8, 8, 8, 8, 8,
        8, 8, 8, 8, 8, 8, 8, 8, 8, 8, 8, 8, 8, 8, 8, 8,
        8, 8, 8, 8, 8, 8, 8, 8, 8, 8, 8, 8, 8, 8, 8, 8,
    ]
}

/// The 8080 table.
pub fn i8080() -> (r: [u8; 256])
    ensures
        r@ == i8080_table()@,
{
    [
        4, 10, 7, 5, 5, 5, 7, 4, 4, 10, 7, 5, 5, 5, 7, 4,
        4, 10, 7, 5, 5, 5, 7, 4, 4, 10, 7, 5, 5, 5, 7, 4,
        4, 10, 16, 5, 5, 5, 7, 4, 4, 10, 16, 5, 5, 5, 7, 4,
        4, 10, 13, 5, 10, 10, 10, 4, 4, 10, 13, 5, 5, 5, 7, 4,
        5, 5, 5, 5, 5, 5, 7, 5, 5, 5, 5, 5, 5, 5, 7, 5,
        5, 5, 5, 5, 5, 5, 7, 5, 5, 5, 5, 5, 5, 5, 7, 5,
        5, 5, 5, 5, 5, 5, 7, 5, 5, 5, 5, 5, 5, 5, 7, 5,
        7, 7, 7, 7, 7, 7, 7, 7, 5, 5, 5, 5, 5, 5, 7, 5,
        4, 4, 4, 4, 4, 4, 7, 4, 4, 4, 4, 4, 4, 4, 7, 4,
        4, 4, 4, 4, 4, 4, 7, 4, 4, 4, 4, 4, 4, 4, 7, 4,
        4, 4, 4, 4, 4, 4, 7, 4, 4, 4, 4, 4, 4, 4, 7, 4,
        7, 7, 7, 7, 7, 7, 4, 7, 4, 4, 4, 4, 4, 4, 7, 4,
        11, 10, 10, 10, 17, 11, 7, 11, 11, 10, 10, 10, 17, 17, 7, 11,
        11, 10, 10, 10, 17, 11, 7, 11, 11, 10, 10, 10, 17, 17, 7, 11,
        11, 10, 10, 18, 17, 11, 7, 11, 11, 5, 10, 5, 17, 17, 7, 11,
        11, 10, 10, 4, 17, 11, 7, 11, 11, 5, 10, 4, 17, 17, 7, 11,
    ]
}

/// Not taken cycles of a Z80 opcode without prefix.
pub fn z80_main_not_taken_of(c: u8, taken: u8) -> (r: u8)
    requires
        taken == z80_main_cycles(c as int),
    ensures
        r == z80_main_not_taken(c as int),
{
    if c == 0x10 {
        8
    } else if c == 0x20 || c == 0x28 || c == 0x30 || c == 0x38 {
        7
    } else if c >= 0xc0 && c % 8 == 0 {
        5
    } else if c >= 0xc0 && c % 8 == 4 {
        10
    } else {
        taken
    }
}

/// Not taken cycles of an ED opcode.
pub fn z80_ed_not_taken_of(c: u8, taken: u8) -> (r: u8)
    requires
        taken == z80_ed_cycles(c as int),
    ensures
        r == z80_ed_not_taken(c as int),
{
    if (0xb0 <= c && c <= 0xb3) || (0xb8 <= c && c <= 0xbb) {
        16
    } else {
        taken
    }
}

/// Not taken cycles of an 8080 opcode.
pub fn i8080_not_taken_of(c: u8, taken: u8) -> (r: u8)
    requires
        taken == i8080_cycles(c as int),
    ensures
        r == i8080_not_taken(c as int),
{
    if c >= 0xc0 && c % 8 == 0 {
        5
    } else if c >= 0xc0 && c % 8 == 4 {
        11
    } else {
        taken
    }
}

} // verus!
