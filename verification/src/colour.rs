use vstd::prelude::*;

verus! {

/// The colour of a point that never leaves the disc: all three channels zero.
pub const BLACK: u32 = 0x00_00_00;

/// The largest packed colour: all three channels full.
pub const WHITE: u32 = 0xFF_FF_FF;

/// Three 8-bit channels in the low 24 bits of a word: `high` in bits 16 to 23,
/// `middle` in bits 8 to 15, `low` in bits 0 to 7.
pub open spec fn packed(high: u8, middle: u8, low: u8) -> u32 {
    (high * 0x1_00_00 + middle * 0x1_00 + low) as u32
}

/// Bits 0 to 7 of a packed colour.
pub open spec fn spec_low_byte(colour: u32) -> u8 {
    (colour % 0x1_00) as u8
}

/// Bits 8 to 15 of a packed colour.
pub open spec fn spec_middle_byte(colour: u32) -> u8 {
    ((colour / 0x1_00) % 0x1_00) as u8
}

/// Bits 16 to 23 of a packed colour.
pub open spec fn spec_high_byte(colour: u32) -> u8 {
    ((colour / 0x1_00_00) % 0x1_00) as u8
}

/// Packs three channels into one word, and gets each of them back unchanged
/// from the three byte accessors.
pub fn pack(high: u8, middle: u8, low: u8) -> (colour: u32)
    ensures
        colour == packed(high, middle, low),
        colour <= WHITE,
        spec_high_byte(colour) == high,
        spec_middle_byte(colour) == middle,
        spec_low_byte(colour) == low,
{
    let h: u32 = high as u32;
    let m: u32 = middle as u32;
    let l: u32 = low as u32;
    assert((h << 16 | m << 8 | l) == h * 0x1_00_00 + m * 0x1_00 + l) by (bit_vector)
        requires
            h < 0x1_00,
            m < 0x1_00,
            l < 0x1_00,
    ;
    h << 16 | m << 8 | l
}

/// Bits 0 to 7 of a packed colour.
pub fn low_byte(colour: u32) -> (b: u8)
    ensures
        b == spec_low_byte(colour),
{
    assert(colour & 0xFF == colour % 0x1_00) by (bit_vector);
    (colour & 0xFF) as u8
}

/// Bits 8 to 15 of a packed colour.
pub fn middle_byte(colour: u32) -> (b: u8)
    ensures
        b == spec_middle_byte(colour),
{
    assert((colour >> 8) & 0xFF == (colour / 0x1_00) % 0x1_00) by (bit_vector);
    ((colour >> 8) & 0xFF) as u8
}

/// Bits 16 to 23 of a packed colour.
pub fn high_byte(colour: u32) -> (b: u8)
    ensures
        b == spec_high_byte(colour),
{
    assert((colour >> 16) & 0xFF == (colour / 0x1_00_00) % 0x1_00) by (bit_vector);
    ((colour >> 16) & 0xFF) as u8
}

} // verus!
