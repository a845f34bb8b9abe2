//! The bit layout of a frame: which bits of which byte hold each field.
//!
//! ```text
//! byte 0:  b t t f f m m m    m = mode, f = timeframe, t = type,
//!                             b = top bit of the battery reading
//! byte 1:  T T T T v v v v    v = low bits of the battery reading,
//!                             T = high part of the temperature
//! byte 2:  - r L L L L L L    L = low part of the temperature,
//!                             r = reed switch
//! byte 3:  M M M M n n n n    M = major version, n = minor version
//! ```
//!
//! Each field is defined by its mask and shift. The laws at the end of the
//! file restate every field by position, as a quotient and a remainder.

use vstd::prelude::*;

verus! {

/// The mode field: bits 0 to 2 of byte 0.
pub open spec fn mode_bits(b0: u8) -> u8 {
    b0 & 0x07
}

/// The timeframe field: bits 3 and 4 of byte 0.
pub open spec fn timeframe_bits(b0: u8) -> u8 {
    (b0 & 0x18) >> 3
}

/// The type field: bits 5 and 6 of byte 0.
pub open spec fn type_bits(b0: u8) -> u8 {
    (b0 & 0x60) >> 5
}

/// The top bit of the battery reading: bit 7 of byte 0.
pub open spec fn battery_msb_bits(b0: u8) -> u8 {
    (b0 & 0x80) >> 7
}

/// The low four bits of the battery reading: the low nibble of byte 1.
pub open spec fn battery_lsb_bits(b1: u8) -> u8 {
    b1 & 0x0f
}

/// The high part of the temperature: the high nibble of byte 1.
pub open spec fn temp_msb_bits(b1: u8) -> u8 {
    (b1 & 0xf0) >> 4
}

/// The low part of the temperature: bits 0 to 5 of byte 2.
pub open spec fn temp_lsb_bits(b2: u8) -> u8 {
    b2 & 0x3f
}

/// The reed-switch state: bit 6 of byte 2.
pub open spec fn reed_switch_bits(b2: u8) -> u8 {
    (b2 & 0x40) >> 6
}

/// The major firmware version: the high nibble of byte 3.
pub open spec fn major_version_bits(b3: u8) -> u8 {
    (b3 & 0xf0) >> 4
}

/// The minor firmware version: the low nibble of byte 3.
pub open spec fn minor_version_bits(b3: u8) -> u8 {
    b3 & 0x0f
}

/// The four fields of byte 0 by position: the mode is the byte modulo 8, the
/// timeframe the next two bits, the type the two after those, and the
/// battery bit the top one. Together they make up the whole byte.
pub proof fn byte0_fields_by_position(b0: u8)
    by (bit_vector)
    ensures
        mode_bits(b0) == b0 % 8,
        timeframe_bits(b0) == (b0 / 8) % 4,
        type_bits(b0) == (b0 / 32) % 4,
        battery_msb_bits(b0) == b0 / 128,
        mode_bits(b0) <= 7,
        timeframe_bits(b0) <= 3,
        type_bits(b0) <= 3,
        battery_msb_bits(b0) <= 1,
        b0 == mode_bits(b0) + 8 * timeframe_bits(b0) + 32 * type_bits(b0) + 128
            * battery_msb_bits(b0),
{
}

/// The two fields of byte 1 by position: the low nibble belongs to the
/// battery reading, the high nibble to the temperature.
pub proof fn byte1_fields_by_position(b1: u8)
    by (bit_vector)
    ensures
        battery_lsb_bits(b1) == b1 % 16,
        temp_msb_bits(b1) == b1 / 16,
        battery_lsb_bits(b1) <= 15,
        temp_msb_bits(b1) <= 15,
        b1 == battery_lsb_bits(b1) + 16 * temp_msb_bits(b1),
{
}

/// The two fields of byte 2 by position: the low six bits belong to the
/// temperature, the next bit is the reed switch. The top bit belongs to no
/// field.
pub proof fn byte2_fields_by_position(b2: u8)
    by (bit_vector)
    ensures
        temp_lsb_bits(b2) == b2 % 64,
        reed_switch_bits(b2) == (b2 / 64) % 2,
        temp_lsb_bits(b2) <= 63,
        reed_switch_bits(b2) <= 1,
        b2 == temp_lsb_bits(b2) + 64 * reed_switch_bits(b2) + 128 * (b2 / 128),
{
}

/// The two fields of byte 3 by position: the high nibble is the major
/// version, the low nibble the minor version.
pub proof fn byte3_fields_by_position(b3: u8)
    by (bit_vector)
    ensures
        major_version_bits(b3) == b3 / 16,
        minor_version_bits(b3) == b3 % 16,
        major_version_bits(b3) <= 15,
        minor_version_bits(b3) <= 15,
        b3 == minor_version_bits(b3) + 16 * major_version_bits(b3),
{
}

} // verus!
