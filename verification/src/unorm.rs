//! Normalized integers: a `u16` stands for the fraction `v / 65535` of full
//! scale, a `u8` for `b / 255`. One step of 8 bits is 257 steps of 16 bits,
//! since `65535 == 255 * 257`.

use vstd::prelude::*;

verus! {

/// Full scale of a 16-bit normalized value.
pub const UNORM16_ONE: u16 = 65535;

/// The byte nearest to `v` on the 8-bit scale, `round(v / 65535 * 255)`.
pub open spec fn unorm8_round_spec(v: u16) -> u8 {
    ((v + 128) / 257) as u8
}

/// The largest byte not above `v` on the 8-bit scale, `floor(v / 65535 * 255)`.
pub open spec fn unorm8_floor_spec(v: u16) -> u8 {
    (v / 257) as u8
}

/// The 16-bit value of a byte, `b / 255 * 65535`.
pub open spec fn unorm16_spec(b: u8) -> u16 {
    (b * 257) as u16
}

/// The distance between two values.
pub open spec fn distance(a: int, b: int) -> int {
    if a <= b {
        b - a
    } else {
        a - b
    }
}

/// Rounds a 16-bit normalized value to 8 bits.
#[verifier::when_used_as_spec(unorm8_round_spec)]
pub fn unorm8_round(v: u16) -> (b: u8)
    ensures
        b == unorm8_round_spec(v),
        2 * distance(b * 257, v as int) < 257,
{
    let wide: u32 = (v as u32 + 128) / 257;
    wide as u8
}

/// Truncates a 16-bit normalized value to 8 bits.
#[verifier::when_used_as_spec(unorm8_floor_spec)]
pub fn unorm8_floor(v: u16) -> (b: u8)
    ensures
        b == unorm8_floor_spec(v),
        b * 257 <= v < (b + 1) * 257,
{
    let wide: u16 = v / 257;
    wide as u8
}

/// Widens a byte to 16 bits; full scale goes to full scale.
#[verifier::when_used_as_spec(unorm16_spec)]
pub fn unorm16(b: u8) -> (v: u16)
    ensures
        v == unorm16_spec(b),
        v == b * 257,
{
    let wide: u16 = b as u16;
    wide * 257
}

/// The phase of a source, as a fraction of a turn, from the byte in which
/// the device sends it. The device counts phase backwards: its byte `p`
/// stands for the fraction `1 - p / 255`.
pub open spec fn drive_phase_spec(p: u8) -> u16 {
    unorm16_spec((255 - p) as u8)
}

/// The phase of a source from the byte in which the device sends it.
#[verifier::when_used_as_spec(drive_phase_spec)]
pub fn drive_phase(p: u8) -> (phase: u16)
    ensures
        phase == drive_phase_spec(p),
        phase == (255 - p) * 257,
        unorm8_round_spec(phase) == 255 - p,
{
    unorm16(255 - p)
}

/// Rounding to 8 bits and widening again moves a value by less than half an
/// 8-bit step, so by no more than `1 / 255` of full scale (257 steps of 16
/// bits). This bounds the loss of amplitude, in units of full amplitude, and
/// of phase, in units of a full turn, through the drive texture.
pub proof fn lemma_round_trip_bound(v: u16)
    ensures
        2 * distance(unorm16_spec(unorm8_round_spec(v)) as int, v as int) < 257,
        distance(unorm16_spec(unorm8_round_spec(v)) as int, v as int) * 255 <= 65535,
{
}

/// Every byte survives widening and rounding unchanged.
pub proof fn lemma_byte_round_trip(b: u8)
    ensures
        unorm8_round_spec(unorm16_spec(b)) == b,
        unorm8_floor_spec(unorm16_spec(b)) == b,
{
}

} // verus!
