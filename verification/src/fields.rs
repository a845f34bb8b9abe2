//! Readers for the single fields of a frame.
//!
//! Every reader checks by itself that the buffer is long enough for the
//! field it reads, and fails with `InsufficientData` if it is not, before
//! touching any byte. A reader of an enumerated field then maps the bits to
//! a variant and fails with that field's own error if they name none.

use vstd::prelude::*;
use crate::error::DecodeError;
use crate::header::{FrameType, Mode, Timeframe};
use crate::layout::{
    battery_lsb_bits, battery_msb_bits, byte0_fields_by_position, byte1_fields_by_position,
    byte2_fields_by_position, byte3_fields_by_position, major_version_bits, minor_version_bits,
    mode_bits, reed_switch_bits, temp_lsb_bits, temp_msb_bits, timeframe_bits, type_bits,
};
use crate::units::battery_twentieths;

verus! {

/// What reading the mode from `data` gives.
pub open spec fn mode_of(data: Seq<u8>) -> Result<Mode, DecodeError> {
    if data.len() < 1 {
        Err(DecodeError::InsufficientData)
    } else {
        Mode::spec_from_raw(mode_bits(data[0]))
    }
}

/// What reading the timeframe from `data` gives.
pub open spec fn timeframe_of(data: Seq<u8>) -> Result<Timeframe, DecodeError> {
    if data.len() < 1 {
        Err(DecodeError::InsufficientData)
    } else {
        Timeframe::spec_from_raw(timeframe_bits(data[0]))
    }
}

/// What reading the frame type from `data` gives.
pub open spec fn frame_type_of(data: Seq<u8>) -> Result<FrameType, DecodeError> {
    if data.len() < 1 {
        Err(DecodeError::InsufficientData)
    } else {
        FrameType::spec_from_raw(type_bits(data[0]))
    }
}

/// The battery voltage that a frame of at least two bytes holds, in
/// twentieths of a volt.
pub open spec fn battery_in(data: Seq<u8>) -> int {
    battery_twentieths(battery_msb_bits(data[0]) as int, battery_lsb_bits(data[1]) as int)
}

/// Reads the operating mode: needs one byte.
pub fn get_mode(data: &[u8]) -> (r: Result<Mode, DecodeError>)
    ensures
        r == mode_of(data@),
        r is Ok <==> data@.len() >= 1 && data@[0] & 0x07 == 0,
{
    if data.len() == 0 {
        return Err(DecodeError::InsufficientData);
    }
    Mode::from_raw(data[0] & 0x07)
}

/// Reads the reporting timeframe: needs one byte.
pub fn get_timeframe(data: &[u8]) -> (r: Result<Timeframe, DecodeError>)
    ensures
        r == timeframe_of(data@),
        r is Ok <==> data@.len() >= 1,
{
    if data.len() == 0 {
        return Err(DecodeError::InsufficientData);
    }
    proof {
        two_bit_fields_always_map(data@);
    }
    Timeframe::from_raw((data[0] & 0x18) >> 3)
}

/// Reads the frame type: needs one byte.
pub fn get_type(data: &[u8]) -> (r: Result<FrameType, DecodeError>)
    ensures
        r == frame_type_of(data@),
        r is Ok <==> data@.len() >= 1,
{
    if data.len() == 0 {
        return Err(DecodeError::InsufficientData);
    }
    proof {
        two_bit_fields_always_map(data@);
    }
    FrameType::from_raw((data[0] & 0x60) >> 5)
}

/// Reads the battery voltage in twentieths of a volt: needs two bytes.
pub fn get_battery(data: &[u8]) -> (r: Result<u8, DecodeError>)
    ensures
        match r {
            Ok(v) => data@.len() >= 2 && v == battery_in(data@) && 54 <= v <= 85,
            Err(e) => data@.len() < 2 && e == DecodeError::InsufficientData,
        },
{
    if data.len() < 2 {
        return Err(DecodeError::InsufficientData);
    }
    let b_msb: u8 = (data[0] & 0x80) >> 7;
    let b_lsb: u8 = data[1] & 0x0f;
    proof {
        byte0_fields_by_position(data[0]);
        byte1_fields_by_position(data[1]);
    }
    Ok(((b_msb * 16) + b_lsb) + 54)
}

/// Reads the high part of the temperature: needs two bytes.
pub fn get_temp_msb(data: &[u8]) -> (r: Result<u8, DecodeError>)
    ensures
        match r {
            Ok(v) => data@.len() >= 2 && v == temp_msb_bits(data@[1]) && v <= 15,
            Err(e) => data@.len() < 2 && e == DecodeError::InsufficientData,
        },
{
    if data.len() < 2 {
        return Err(DecodeError::InsufficientData);
    }
    proof {
        byte1_fields_by_position(data[1]);
    }
    Ok((data[1] & 0xf0) >> 4)
}

/// Reads the low part of the temperature: needs three bytes.
pub fn get_temp_lsb(data: &[u8]) -> (r: Result<u8, DecodeError>)
    ensures
        match r {
            Ok(v) => data@.len() >= 3 && v == temp_lsb_bits(data@[2]) && v <= 63,
            Err(e) => data@.len() < 3 && e == DecodeError::InsufficientData,
        },
{
    if data.len() < 3 {
        return Err(DecodeError::InsufficientData);
    }
    proof {
        byte2_fields_by_position(data[2]);
    }
    Ok(data[2] & 0x3f)
}

/// Reads the state of the reed switch, 0 or 1: needs three bytes.
pub fn get_reed_switch_state(data: &[u8]) -> (r: Result<u8, DecodeError>)
    ensures
        match r {
            Ok(v) => data@.len() >= 3 && v == reed_switch_bits(data@[2]) && (v == 0 || v == 1),
            Err(e) => data@.len() < 3 && e == DecodeError::InsufficientData,
        },
{
    if data.len() < 3 {
        return Err(DecodeError::InsufficientData);
    }
    proof {
        byte2_fields_by_position(data[2]);
    }
    Ok((data[2] & 0x40) >> 6)
}

/// Reads the major firmware version: needs four bytes.
pub fn get_major_version(data: &[u8]) -> (r: Result<u8, DecodeError>)
    ensures
        match r {
            Ok(v) => data@.len() >= 4 && v == major_version_bits(data@[3]) && v <= 15,
            Err(e) => data@.len() < 4 && e == DecodeError::InsufficientData,
        },
{
    if data.len() < 4 {
        return Err(DecodeError::InsufficientData);
    }
    proof {
        byte3_fields_by_position(data[3]);
    }
    Ok((data[3] & 0xf0) >> 4)
}

/// Reads the minor firmware version: needs four bytes.
pub fn get_minor_version(data: &[u8]) -> (r: Result<u8, DecodeError>)
    ensures
        match r {
            Ok(v) => data@.len() >= 4 && v == minor_version_bits(data@[3]) && v <= 15,
            Err(e) => data@.len() < 4 && e == DecodeError::InsufficientData,
        },
{
    if data.len() < 4 {
        return Err(DecodeError::InsufficientData);
    }
    proof {
        byte3_fields_by_position(data[3]);
    }
    Ok(data[3] & 0x0f)
}

/// The timeframe and type fields are two bits wide and all four patterns of
/// each name a variant, so on a buffer that is not empty neither reader can
/// fail: `UnknownTimeframe` and `UnknownType` never come from a frame.
pub proof fn two_bit_fields_always_map(data: Seq<u8>)
    requires
        data.len() >= 1,
    ensures
        timeframe_of(data) is Ok,
        frame_type_of(data) is Ok,
        timeframe_of(data)->Ok_0.spec_value() == timeframe_bits(data[0]),
        frame_type_of(data)->Ok_0.spec_value() == type_bits(data[0]),
{
    byte0_fields_by_position(data[0]);
}

/// The mode is read successfully exactly from a buffer that is not empty
/// and whose mode bits are all zero; any other pattern of mode bits is
/// refused as `UnknownMode`, whatever follows in the buffer.
pub proof fn mode_outcomes(data: Seq<u8>)
    ensures
        mode_of(data) is Ok <==> data.len() >= 1 && mode_bits(data[0]) == 0,
        mode_of(data) matches Ok(mode) ==> mode == Mode::Button,
        mode_of(data) matches Err(e) ==> e == (if data.len() == 0 {
            DecodeError::InsufficientData
        } else {
            DecodeError::UnknownMode
        }),
{
}

} // verus!
