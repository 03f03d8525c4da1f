use vstd::prelude::*;

verus! {

/// Bounds of the bit fields of a byte.
pub proof fn lemma_u8_fields(x: u8)
    ensures
        x & 0x01 <= 1,
        x & 0x03 <= 3,
        x & 0x07 <= 7,
        x & 0x0f <= 15,
        x & 0x1f <= 31,
        x & 0x3f <= 63,
        x & 0x7f <= 127,
        (x & 0x0f) & 0x0f == x & 0x0f,
        x & x == x,
        x >> 1u8 <= x,
        x >> 2u8 <= 63,
        x >> 3u8 <= 31,
        x >> 4u8 <= 15,
        x >> 5u8 <= 7,
        x >> 6u8 <= 3,
        (x >> 1u8) & 0x03 <= 3,
        (x >> 3u8) & 0x07 <= 7,
        (x >> 3u8) & 31 <= 31,
        (x >> 5u8) & 0x03 <= 3,
        ((x >> 3u8) & 0x07) >> 1u8 <= 3,
        x <= 0x3f ==> x >> 3u8 <= 7,
        (0x40 <= x < 0x80) == (x >> 6u8 == 1),
        (0x80 <= x < 0xc0) == (x >> 6u8 == 2),
        (x < 0x40) == (x >> 6u8 == 0),
{
    assert(x & 0x01 <= 1 && x & 0x03 <= 3 && x & 0x07 <= 7 && x & 0x0f <= 15 && x & 0x1f <= 31 && x & 0x3f <= 63 && x
        & 0x7f <= 127 && (x & 0x0f) & 0x0f == x & 0x0f && x & x == x && x >> 1u8 <= x && x >> 2u8 <= 63 && x >> 3u8
        <= 31 && x >> 4u8 <= 15 && x >> 5u8 <= 7 && x >> 6u8 <= 3 && (x >> 1u8) & 0x03 <= 3 && (x >> 3u8) & 0x07 <= 7
        && (x >> 3u8) & 31 <= 31 && (x >> 5u8) & 0x03 <= 3 && ((x >> 3u8) & 0x07) >> 1u8 <= 3
        && (x <= 0x3f ==> x >> 3u8 <= 7) && ((0x40 <= x < 0x80) == (x >> 6u8 == 1)) && ((0x80 <= x < 0xc0) == (x >> 6u8
        == 2)) && ((x < 0x40) == (x >> 6u8 == 0))) by (bit_vector);
}

/// Bit facts about constants.
pub proof fn lemma_constants()
    ensures
        0u8 & 0x80 == 0,
        0u8 & 0x03 == 0,
        0u8 & 0x1f == 0,
        0xb0u8 & 0x0f == 0,
        0b101u8 & 0x03 == 1,
        0u16 & 0x000f == 0,
        0x8000u16 & 0x000f == 0,
        0xf1u8 & 0x80 != 0,
{
    assert(0u8 & 0x80 == 0 && 0u8 & 0x03 == 0 && 0u8 & 0x1f == 0 && 0xb0u8 & 0x0f == 0 && 0b101u8 & 0x03 == 1 && 0u16
        & 0x000f == 0 && 0x8000u16 & 0x000f == 0 && 0xf1u8 & 0x80 != 0) by (bit_vector);
}

/// A word split into its high and low bytes and joined again is unchanged; with the low
/// nibble of the low byte dropped it loses exactly that nibble.
pub proof fn lemma_u16_split(v: u16)
    ensures
        ((((v >> 8u16) as u8) as u16) << 8u16) | ((v as u8) as u16) == v,
        ((((v >> 8u16) as u8) as u16) << 8u16) | (((v & 0x00f0) as u8) as u16) == v & 0xfff0,
        ((v & 0x00f0) as u8) & 0x0f == 0,
{
    assert(((((v >> 8u16) as u8) as u16) << 8u16) | ((v as u8) as u16) == v && ((((v >> 8u16) as u8) as u16) << 8u16)
        | (((v & 0x00f0) as u8) as u16) == v & 0xfff0 && ((v & 0x00f0) as u8) & 0x0f == 0) by (bit_vector);
}

} // verus!
