//! Shared numeric scaling and offset conventions of the binary
//! protocol: millisecond-to-second epoch conversion, the altitude
//! fixed-point scale (0.2 m resolution, +500 offset), speed rounding,
//! the +1000 bias on workout target bounds, and saturating clamps into
//! the narrow field widths.

use vstd::prelude::*;

verus! {

/// Clamp an integer into the unsigned 16-bit range.
pub open spec fn clamp_u16_spec(v: int) -> int {
    if v < 0 {
        0
    } else if v > 0xFFFF {
        0xFFFF
    } else {
        v
    }
}

/// Clamp an integer into the unsigned 8-bit range.
pub open spec fn clamp_u8_spec(v: int) -> int {
    if v < 0 {
        0
    } else if v > 0xFF {
        0xFF
    } else {
        v
    }
}

/// Clamp an integer into the unsigned 32-bit range.
pub open spec fn clamp_u32_spec(v: int) -> int {
    if v < 0 {
        0
    } else if v > 0xFFFF_FFFF {
        0xFFFF_FFFF
    } else {
        v
    }
}

/// Unsigned 32-bit saturating addition.
pub open spec fn sat_add_u32(a: int, b: int) -> int {
    if a + b > u32::MAX {
        u32::MAX as int
    } else {
        a + b
    }
}

/// Altitude raw encoding: the altitude in 0.2 m units is offset by
/// +500 to keep the field unsigned, then clamped to the field width.
pub open spec fn encode_altitude_spec(fifths: int) -> int {
    clamp_u16_spec(fifths + 500)
}

/// Altitude raw decoding: remove the +500 offset, back to 0.2 m units.
pub open spec fn decode_altitude_spec(raw: int) -> int {
    raw - 500
}

/// Encode an altitude given in 0.2 m units into the raw field value.
pub fn encode_altitude(fifths: i32) -> (raw: u16)
    ensures
        raw == encode_altitude_spec(fifths as int),
{
    if fifths < -500 {
        0
    } else if fifths > 0xFFFF - 500 {
        0xFFFF
    } else {
        (fifths + 500) as u16
    }
}

/// Decode a raw altitude field value back into 0.2 m units.
pub fn decode_altitude(raw: u16) -> (fifths: i32)
    ensures
        fifths == decode_altitude_spec(raw as int),
{
    raw as i32 - 500
}

/// The altitude scale is exactly invertible on 0.2 m boundaries:
/// for any altitude in 0.2 m units whose encoding is not clamped,
/// decoding the encoded raw value returns it exactly.
pub proof fn lemma_altitude_scale_roundtrip(fifths: int)
    requires
        -500 <= fifths <= 0xFFFF - 500,
    ensures
        decode_altitude_spec(encode_altitude_spec(fifths)) == fifths,
{
}

/// Millisecond-to-second epoch conversion, clamped to the 32-bit
/// timestamp width.
pub open spec fn ms_to_s_spec(ms: u64) -> int {
    clamp_u32_spec(ms as int / 1000)
}

pub fn ms_to_s(ms: u64) -> (s: u32)
    ensures
        s == ms_to_s_spec(ms),
{
    let q: u64 = ms / 1000;
    if q > 0xFFFF_FFFF {
        0xFFFF_FFFF
    } else {
        q as u32
    }
}

/// Division rounding half away from zero, for non-negative operands.
pub open spec fn round_div_spec(n: int, d: int) -> int {
    (n + d / 2) / d
}

/// Speed conversion: a speed in millimeters per hour becomes
/// millimeters per second, rounded to the nearest integer.
pub open spec fn mmh_to_mms_spec(mmh: int) -> int {
    round_div_spec(mmh, 3600)
}

pub fn mmh_to_mms(mmh: u32) -> (mms: u32)
    ensures
        mms == mmh_to_mms_spec(mmh as int),
{
    let wide: u64 = (mmh as u64 + 1800) / 3600;
    wide as u32
}

/// Workout target bounds carry a fixed +1000 bias in the source format
/// to keep an otherwise-unsigned field usable for small negative-leaning
/// ranges; removing it saturates at zero rather than wrapping.
pub open spec fn unbias_target_spec(v: int) -> int {
    if v >= 1000 {
        v - 1000
    } else {
        0
    }
}

pub fn unbias_target(v: u32) -> (r: u32)
    ensures
        r == unbias_target_spec(v as int),
{
    if v >= 1000 {
        v - 1000
    } else {
        0
    }
}

/// Clamp a 32-bit speed in mm/s into the 16-bit raw speed field.
pub fn clamp_speed_u16(v: u32) -> (r: u16)
    ensures
        r == clamp_u16_spec(v as int),
{
    if v > 0xFFFF {
        0xFFFF
    } else {
        v as u16
    }
}

/// Clamp a 16-bit rate (heart rate, cadence) into an 8-bit field.
pub fn clamp_rate_u8(v: u16) -> (r: u8)
    ensures
        r == clamp_u8_spec(v as int),
{
    if v > 0xFF {
        0xFF
    } else {
        v as u8
    }
}

} // verus!
