use vstd::prelude::*;

verus! {

/// The low byte of a 16-bit word.
pub open spec fn spec_lo(x: u16) -> u8 {
    (x % 0x100) as u8
}

/// The high byte of a 16-bit word.
pub open spec fn spec_hi(x: u16) -> u8 {
    (x / 0x100) as u8
}

/// The 16-bit word with the given high and low bytes.
pub open spec fn spec_word(hi: u8, lo: u8) -> u16 {
    (hi as int * 0x100 + lo as int) as u16
}

/// The integer `v` reduced to eight bits.
pub open spec fn spec_wrap8(v: int) -> u8 {
    (v % 0x100) as u8
}

/// The integer `v` reduced to sixteen bits.
pub open spec fn spec_wrap16(v: int) -> u16 {
    (v % 0x10000) as u16
}

/// The byte read as a two's-complement number, -128 to 127.
pub open spec fn spec_signed(b: u8) -> int {
    if b < 0x80 {
        b as int
    } else {
        b as int - 0x100
    }
}

/// The byte with only the given bit set; 0 when there is no such bit.
pub open spec fn spec_bit_mask(bit: u8) -> u8 {
    if bit == 0 {
        0x01
    } else if bit == 1 {
        0x02
    } else if bit == 2 {
        0x04
    } else if bit == 3 {
        0x08
    } else if bit == 4 {
        0x10
    } else if bit == 5 {
        0x20
    } else if bit == 6 {
        0x40
    } else if bit == 7 {
        0x80
    } else {
        0
    }
}

/// Whether the given bit of the byte is set; false when there is no such
/// bit.
pub open spec fn spec_bit(value: u8, bit: u8) -> bool {
    if bit == 0 {
        value % 2 == 1
    } else if bit == 1 {
        (value / 0x02) % 2 == 1
    } else if bit == 2 {
        (value / 0x04) % 2 == 1
    } else if bit == 3 {
        (value / 0x08) % 2 == 1
    } else if bit == 4 {
        (value / 0x10) % 2 == 1
    } else if bit == 5 {
        (value / 0x20) % 2 == 1
    } else if bit == 6 {
        (value / 0x40) % 2 == 1
    } else if bit == 7 {
        value >= 0x80
    } else {
        false
    }
}

/// A byte whose bit is set holds at least the bit's weight, and a byte
/// whose bit is clear has room for it.
pub proof fn lemma_bit_weight(value: u8, bit: u8)
    requires
        bit < 8,
    ensures
        spec_bit(value, bit) ==> value >= spec_bit_mask(bit),
        !spec_bit(value, bit) ==> value + spec_bit_mask(bit) <= 0xFF,
{
    if bit == 0 {
    } else if bit == 1 {
    } else if bit == 2 {
    } else if bit == 3 {
    } else if bit == 4 {
    } else if bit == 5 {
    } else if bit == 6 {
    } else {
    }
}

/// A byte is a multiple of 16 exactly when its low nibble is clear.
pub proof fn lemma_low_nibble(f: u8)
    by (bit_vector)
    ensures
        (f % 16 == 0) == (f & 0x0F == 0),
{
}

pub fn lo(x: u16) -> (r: u8)
    ensures
        r == spec_lo(x),
{
    (x % 0x100) as u8
}

pub fn hi(x: u16) -> (r: u8)
    ensures
        r == spec_hi(x),
{
    (x / 0x100) as u8
}

pub fn word(hi: u8, lo: u8) -> (r: u16)
    ensures
        r == spec_word(hi, lo),
{
    (hi as u16) * 0x100 + (lo as u16)
}

/// `x + y`, reduced to eight bits.
pub fn add8(x: u8, y: u8) -> (r: u8)
    ensures
        r == spec_wrap8(x + y),
{
    ((x as u16 + y as u16) % 0x100) as u8
}

/// `x - y`, reduced to eight bits.
pub fn sub8(x: u8, y: u8) -> (r: u8)
    ensures
        r == spec_wrap8(x - y),
{
    ((x as u16 + 0x100 - y as u16) % 0x100) as u8
}

/// `x + y`, reduced to sixteen bits.
pub fn add16(x: u16, y: u16) -> (r: u16)
    ensures
        r == spec_wrap16(x + y),
{
    ((x as u32 + y as u32) % 0x10000) as u16
}

/// `x - y`, reduced to sixteen bits.
pub fn sub16(x: u16, y: u16) -> (r: u16)
    ensures
        r == spec_wrap16(x - y),
{
    ((x as u32 + 0x10000 - y as u32) % 0x10000) as u16
}

/// `x` plus the byte `b` read as a signed number, reduced to sixteen bits.
pub fn add_signed16(x: u16, b: u8) -> (r: u16)
    ensures
        r == spec_wrap16(x + spec_signed(b)),
{
    if b < 0x80 {
        ((x as u32 + b as u32) % 0x10000) as u16
    } else {
        ((x as u32 + 0x10000 + b as u32 - 0x100) % 0x10000) as u16
    }
}

/// The byte with only the given bit set; 0 when there is no such bit.
pub fn bit_mask(bit: u8) -> (r: u8)
    ensures
        r == spec_bit_mask(bit),
        bit < 8 ==> r > 0,
{
    if bit == 0 {
        0x01
    } else if bit == 1 {
        0x02
    } else if bit == 2 {
        0x04
    } else if bit == 3 {
        0x08
    } else if bit == 4 {
        0x10
    } else if bit == 5 {
        0x20
    } else if bit == 6 {
        0x40
    } else if bit == 7 {
        0x80
    } else {
        0
    }
}

/// Whether the given bit of the byte is set; false when there is no such
/// bit.
pub fn bit(value: u8, index: u8) -> (r: bool)
    ensures
        r == spec_bit(value, index),
{
    if index == 0 {
        value % 2 == 1
    } else if index == 1 {
        (value / 0x02) % 2 == 1
    } else if index == 2 {
        (value / 0x04) % 2 == 1
    } else if index == 3 {
        (value / 0x08) % 2 == 1
    } else if index == 4 {
        (value / 0x10) % 2 == 1
    } else if index == 5 {
        (value / 0x20) % 2 == 1
    } else if index == 6 {
        (value / 0x40) % 2 == 1
    } else if index == 7 {
        value >= 0x80
    } else {
        false
    }
}

} // verus!
