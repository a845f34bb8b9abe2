//! The decoded record of a button-mode frame, and the decoder that builds it.
//!
//! Decoding reads the fields in a fixed order, each with its own length
//! check, and stops at the first field that cannot be read. It returns either
//! a record with every field filled in or the error of that first field;
//! there are no partial records.

use vstd::prelude::*;
use crate::error::DecodeError;
use crate::fields::{
    battery_in, frame_type_of, get_battery, get_major_version, get_minor_version, get_mode,
    get_reed_switch_state, get_temp_lsb, get_temp_msb, get_timeframe, get_type, mode_of,
    timeframe_of, two_bit_fields_always_map,
};
use crate::header::{FrameType, Mode, Timeframe};
use crate::layout::{
    byte0_fields_by_position, byte1_fields_by_position, byte2_fields_by_position,
    byte3_fields_by_position, major_version_bits, minor_version_bits, reed_switch_bits,
    temp_lsb_bits, temp_msb_bits,
};
use crate::units::{celsius_eighths, fahrenheit_fortieths, get_temp_c, get_temp_f};

verus! {

/// What a button-mode frame says, field by field.
///
/// The battery voltage is in twentieths of a volt, the Celsius temperatures
/// in eighths of a degree and the Fahrenheit temperatures in fortieths of a
/// degree (see the constants of the `units` module). The low-precision
/// temperatures use only the high part of the temperature reading.
#[derive(Debug, PartialEq, Eq)]
pub struct DecodedButtonFrame {
    /// The operating mode.
    pub mode: Mode,
    /// The name of the mode.
    pub mode_text: String,
    /// The reporting timeframe.
    pub timeframe: Timeframe,
    /// The name of the timeframe.
    pub timeframe_text: String,
    /// The frame type.
    pub frame_type: FrameType,
    /// The name of the frame type.
    pub type_text: String,
    /// The battery voltage, in twentieths of a volt.
    pub battery: u8,
    /// The temperature from the high part of the reading alone, in eighths
    /// of a degree Celsius.
    pub temp_c_low_precision: i32,
    /// The temperature in eighths of a degree Celsius.
    pub temp_c: i32,
    /// The temperature from the high part of the reading alone, in
    /// fortieths of a degree Fahrenheit.
    pub temp_f_low_precision: i32,
    /// The temperature in fortieths of a degree Fahrenheit.
    pub temp_f: i32,
    /// The state of the reed switch: 0 or 1.
    pub reed_switch_state: u8,
    /// The major firmware version.
    pub major_version: u8,
    /// The minor firmware version.
    pub minor_version: u8,
}

/// The mathematical content of a `DecodedButtonFrame`: the same fields, with
/// the labels as sequences of characters and the numbers as integers.
pub struct ButtonFrameView {
    pub mode: Mode,
    pub mode_text: Seq<char>,
    pub timeframe: Timeframe,
    pub timeframe_text: Seq<char>,
    pub frame_type: FrameType,
    pub type_text: Seq<char>,
    pub battery: int,
    pub temp_c_low_precision: int,
    pub temp_c: int,
    pub temp_f_low_precision: int,
    pub temp_f: int,
    pub reed_switch_state: int,
    pub major_version: int,
    pub minor_version: int,
}

impl View for DecodedButtonFrame {
    type V = ButtonFrameView;

    open spec fn view(&self) -> ButtonFrameView {
        ButtonFrameView {
            mode: self.mode,
            mode_text: self.mode_text@,
            timeframe: self.timeframe,
            timeframe_text: self.timeframe_text@,
            frame_type: self.frame_type,
            type_text: self.type_text@,
            battery: self.battery as int,
            temp_c_low_precision: self.temp_c_low_precision as int,
            temp_c: self.temp_c as int,
            temp_f_low_precision: self.temp_f_low_precision as int,
            temp_f: self.temp_f as int,
            reed_switch_state: self.reed_switch_state as int,
            major_version: self.major_version as int,
            minor_version: self.minor_version as int,
        }
    }
}

impl Clone for DecodedButtonFrame {
    /// Returns a record with the same content.
    fn clone(&self) -> (copy: DecodedButtonFrame)
        ensures
            copy@ == self@,
    {
        DecodedButtonFrame {
            mode: self.mode,
            mode_text: self.mode_text.clone(),
            timeframe: self.timeframe,
            timeframe_text: self.timeframe_text.clone(),
            frame_type: self.frame_type,
            type_text: self.type_text.clone(),
            battery: self.battery,
            temp_c_low_precision: self.temp_c_low_precision,
            temp_c: self.temp_c,
            temp_f_low_precision: self.temp_f_low_precision,
            temp_f: self.temp_f,
            reed_switch_state: self.reed_switch_state,
            major_version: self.major_version,
            minor_version: self.minor_version,
        }
    }
}

impl ButtonFrameView {
    /// What holds of every record that a frame can decode to: each label is
    /// the name of its variant, each number lies in the range of its field,
    /// the Fahrenheit temperatures are the Celsius ones converted, and the
    /// low-precision temperature is the full-precision one with the low part
    /// of the reading (its remainder modulo 64) taken off.
    pub open spec fn well_formed(self) -> bool {
        &&& self.mode_text == self.mode.spec_label()
        &&& self.timeframe_text == self.timeframe.spec_label()
        &&& self.type_text == self.frame_type.spec_label()
        &&& 54 <= self.battery <= 85
        &&& -200 <= self.temp_c <= 823
        &&& self.temp_c_low_precision == self.temp_c - (self.temp_c + 200) % 64
        &&& self.temp_f == 9 * self.temp_c + 1280
        &&& self.temp_f_low_precision == 9 * self.temp_c_low_precision + 1280
        &&& 0 <= self.reed_switch_state <= 1
        &&& 0 <= self.major_version <= 15
        &&& 0 <= self.minor_version <= 15
    }
}

/// The record that a button-mode frame of at least four bytes holds, given
/// its mode, timeframe and type.
pub open spec fn button_frame(
    mode: Mode,
    timeframe: Timeframe,
    frame_type: FrameType,
    data: Seq<u8>,
) -> ButtonFrameView {
    let temp_msb = temp_msb_bits(data[1]) as int;
    let temp_lsb = temp_lsb_bits(data[2]) as int;
    ButtonFrameView {
        mode: mode,
        mode_text: mode.spec_label(),
        timeframe: timeframe,
        timeframe_text: timeframe.spec_label(),
        frame_type: frame_type,
        type_text: frame_type.spec_label(),
        battery: battery_in(data),
        temp_c_low_precision: celsius_eighths(temp_msb, 0),
        temp_c: celsius_eighths(temp_msb, temp_lsb),
        temp_f_low_precision: fahrenheit_fortieths(temp_msb, 0),
        temp_f: fahrenheit_fortieths(temp_msb, temp_lsb),
        reed_switch_state: reed_switch_bits(data[2]) as int,
        major_version: major_version_bits(data[3]) as int,
        minor_version: minor_version_bits(data[3]) as int,
    }
}

/// What parsing `data` as a button-mode frame gives. The timeframe is read
/// first and the type second, and the error of the first of them that fails
/// is the outcome; the remaining fields need up to four bytes and fail, the
/// first that is short, with `InsufficientData`.
pub open spec fn button_mode_parsed(mode: Mode, data: Seq<u8>) -> Result<
    ButtonFrameView,
    DecodeError,
> {
    match timeframe_of(data) {
        Err(e) => Err(e),
        Ok(timeframe) => match frame_type_of(data) {
            Err(e) => Err(e),
            Ok(frame_type) => if data.len() < 4 {
                Err(DecodeError::InsufficientData)
            } else {
                Ok(button_frame(mode, timeframe, frame_type, data))
            },
        },
    }
}

/// What decoding `data` gives: the mode is read first, and a frame whose
/// mode cannot be read fails with the mode's error; otherwise the frame is
/// parsed as its mode lays down.
pub open spec fn decoded(data: Seq<u8>) -> Result<ButtonFrameView, DecodeError> {
    match mode_of(data) {
        Err(e) => Err(e),
        Ok(mode) => match mode {
            Mode::Button => button_mode_parsed(mode, data),
        },
    }
}

/// The mathematical content of an outcome of decoding.
pub open spec fn outcome_view(outcome: Result<DecodedButtonFrame, DecodeError>) -> Result<
    ButtonFrameView,
    DecodeError,
> {
    match outcome {
        Ok(frame) => Ok(frame@),
        Err(e) => Err(e),
    }
}

/// Parses the fields of a button-mode frame, in their fixed order, into a
/// record.
pub fn parse_button_mode(mode: Mode, data: &[u8]) -> (r: Result<DecodedButtonFrame, DecodeError>)
    ensures
        outcome_view(r) == button_mode_parsed(mode, data@),
        r is Ok <==> data@.len() >= 4,
        r matches Err(e) ==> e == DecodeError::InsufficientData,
        r matches Ok(frame) ==> frame.mode == mode && frame@.well_formed(),
{
    proof {
        if data@.len() >= 1 {
            two_bit_fields_always_map(data@);
        }
        parsed_frame_is_well_formed(mode, data@);
    }
    let timeframe = get_timeframe(data)?;
    let frame_type = get_type(data)?;
    let battery = get_battery(data)?;
    let temp_msb = get_temp_msb(data)?;
    let temp_lsb = get_temp_lsb(data)?;
    let temp_c_low_precision = get_temp_c(temp_msb, 0);
    let temp_f_low_precision = get_temp_f(temp_msb, 0);
    let temp_c = get_temp_c(temp_msb, temp_lsb);
    let temp_f = get_temp_f(temp_msb, temp_lsb);
    let reed_switch_state = get_reed_switch_state(data)?;
    let major_version = get_major_version(data)?;
    let minor_version = get_minor_version(data)?;

    Ok(
        DecodedButtonFrame {
            mode,
            mode_text: mode.label().to_owned(),
            timeframe,
            timeframe_text: timeframe.label().to_owned(),
            frame_type,
            type_text: frame_type.label().to_owned(),
            battery,
            temp_c_low_precision,
            temp_c,
            temp_f_low_precision,
            temp_f,
            reed_switch_state,
            major_version,
            minor_version,
        },
    )
}

/// Decodes a frame: reads the mode, then parses the frame as that mode lays
/// down.
pub fn decode(data: &[u8]) -> (r: Result<DecodedButtonFrame, DecodeError>)
    ensures
        outcome_view(r) == decoded(data@),
        r is Ok <==> data@.len() >= 4 && data@[0] & 0x07 == 0,
        r matches Err(e) ==> e == (if data@.len() >= 1 && data@[0] & 0x07 != 0 {
            DecodeError::UnknownMode
        } else {
            DecodeError::InsufficientData
        }),
        r matches Ok(frame) ==> frame@.well_formed(),
{
    let mode = get_mode(data)?;
    match mode {
        Mode::Button => parse_button_mode(mode, data),
    }
}

/// An empty buffer holds no field: decoding it fails with
/// `InsufficientData`.
pub proof fn empty_buffer_is_insufficient(data: Seq<u8>)
    requires
        data.len() == 0,
    ensures
        decoded(data) == Err::<ButtonFrameView, DecodeError>(DecodeError::InsufficientData),
{
}

/// A buffer whose mode bits are not all zero fails with `UnknownMode`,
/// however short or long it is: the mode is judged before the length of any
/// later field.
pub proof fn unknown_mode_is_refused(data: Seq<u8>)
    requires
        data.len() >= 1,
        data[0] & 0x07 != 0,
    ensures
        decoded(data) == Err::<ButtonFrameView, DecodeError>(DecodeError::UnknownMode),
{
}

/// A buffer of one to three bytes with a valid mode fails with
/// `InsufficientData`. Its timeframe and its type are read without error,
/// since they need one byte only; the failure comes from the first later
/// field that the buffer is too short for.
pub proof fn short_frame_is_insufficient(data: Seq<u8>)
    requires
        1 <= data.len() < 4,
        data[0] & 0x07 == 0,
    ensures
        timeframe_of(data) is Ok,
        frame_type_of(data) is Ok,
        decoded(data) == Err::<ButtonFrameView, DecodeError>(DecodeError::InsufficientData),
{
    two_bit_fields_always_map(data);
}

/// A buffer of at least four bytes whose mode bits are zero decodes to a
/// record. Its mode is `Button`, its timeframe and type are the variants
/// whose values are the timeframe and type bits, and its other fields are
/// those of `button_frame`.
pub proof fn full_frame_decodes(data: Seq<u8>)
    requires
        data.len() >= 4,
        data[0] & 0x07 == 0,
    ensures
        decoded(data) is Ok,
        timeframe_of(data) is Ok,
        frame_type_of(data) is Ok,
        decoded(data)->Ok_0 == button_frame(
            Mode::Button,
            timeframe_of(data)->Ok_0,
            frame_type_of(data)->Ok_0,
            data,
        ),
        decoded(data)->Ok_0.well_formed(),
{
    two_bit_fields_always_map(data);
    parsed_frame_is_well_formed(Mode::Button, data);
}

/// Decoding succeeds exactly on the buffers of at least four bytes whose
/// mode bits are zero, and of the five errors only `InsufficientData` and
/// `UnknownMode` can come out of it.
pub proof fn decoding_outcomes(data: Seq<u8>)
    ensures
        decoded(data) is Ok <==> data.len() >= 4 && data[0] & 0x07 == 0,
        decoded(data) matches Err(e) ==> e == DecodeError::InsufficientData || e
            == DecodeError::UnknownMode,
        decoded(data) == Err::<ButtonFrameView, DecodeError>(DecodeError::UnknownMode)
            <==> data.len() >= 1 && data[0] & 0x07 != 0,
{
    if data.len() >= 1 {
        two_bit_fields_always_map(data);
    }
}

/// Every record that comes out of parsing a button-mode frame is well
/// formed, and so is every record that comes out of decoding.
pub proof fn parsed_frame_is_well_formed(mode: Mode, data: Seq<u8>)
    ensures
        button_mode_parsed(mode, data) matches Ok(frame) ==> frame.well_formed(),
        decoded(data) matches Ok(frame) ==> frame.well_formed(),
{
    if data.len() >= 4 {
        byte0_fields_by_position(data[0]);
        byte1_fields_by_position(data[1]);
        byte2_fields_by_position(data[2]);
        byte3_fields_by_position(data[3]);
    }
}

/// Only the first four bytes of a buffer are read: two buffers of at least
/// four bytes that agree on them decode alike.
pub proof fn trailing_bytes_are_ignored(a: Seq<u8>, b: Seq<u8>)
    requires
        a.len() >= 4,
        b.len() >= 4,
        a.subrange(0, 4) == b.subrange(0, 4),
    ensures
        decoded(a) == decoded(b),
{
    assert forall|i: int| 0 <= i < 4 implies a[i] == b[i] by {
        assert(a.subrange(0, 4)[i] == a[i]);
        assert(b.subrange(0, 4)[i] == b[i]);
    }
}

/// Decoding is a function of the bytes: two outcomes of decoding the same
/// bytes have the same content, field for field and character for character.
pub proof fn decoding_is_deterministic(
    first: Seq<u8>,
    second: Seq<u8>,
    first_outcome: Result<DecodedButtonFrame, DecodeError>,
    second_outcome: Result<DecodedButtonFrame, DecodeError>,
)
    requires
        first == second,
        outcome_view(first_outcome) == decoded(first),
        outcome_view(second_outcome) == decoded(second),
    ensures
        outcome_view(first_outcome) == outcome_view(second_outcome),
{
}

/// Decoding drops nothing but the one bit that belongs to no field: two
/// buffers of at least four bytes that decode to the same record agree on
/// bytes 0, 1 and 3 and on the low seven bits of byte 2.
pub proof fn record_determines_frame(a: Seq<u8>, b: Seq<u8>)
    requires
        a.len() >= 4,
        b.len() >= 4,
        decoded(a) is Ok,
        decoded(a) == decoded(b),
    ensures
        a[0] == b[0],
        a[1] == b[1],
        a[2] % 128 == b[2] % 128,
        a[3] == b[3],
{
    two_bit_fields_always_map(a);
    two_bit_fields_always_map(b);
    byte0_fields_by_position(a[0]);
    byte0_fields_by_position(b[0]);
    byte1_fields_by_position(a[1]);
    byte1_fields_by_position(b[1]);
    byte2_fields_by_position(a[2]);
    byte2_fields_by_position(b[2]);
    byte3_fields_by_position(a[3]);
    byte3_fields_by_position(b[3]);
}

/// Well-formedness is exact: every well-formed record is what some frame of
/// four bytes decodes to.
pub proof fn well_formed_record_has_a_frame(record: ButtonFrameView) -> (data: Seq<u8>)
    requires
        record.well_formed(),
    ensures
        data.len() == 4,
        decoded(data) == Ok::<ButtonFrameView, DecodeError>(record),
{
    let battery_reading = record.battery - 54;
    let temp_reading = record.temp_c + 200;
    let b0 = (record.mode.spec_value() + 8 * record.timeframe.spec_value() + 32
        * record.frame_type.spec_value() + 128 * (battery_reading / 16)) as u8;
    let b1 = (battery_reading % 16 + 16 * (temp_reading / 64)) as u8;
    let b2 = (temp_reading % 64 + 64 * record.reed_switch_state) as u8;
    let b3 = (record.minor_version + 16 * record.major_version) as u8;
    let data = seq![b0, b1, b2, b3];
    byte0_fields_by_position(b0);
    byte1_fields_by_position(b1);
    byte2_fields_by_position(b2);
    byte3_fields_by_position(b3);
    Timeframe::from_raw_inverts_value(0, record.timeframe);
    FrameType::from_raw_inverts_value(0, record.frame_type);
    assert(data[0] == b0 && data[1] == b1 && data[2] == b2 && data[3] == b3);
    data
}

} // verus!
