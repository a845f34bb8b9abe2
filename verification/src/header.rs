//! The three enumerations packed into the first byte of a frame: the
//! operating mode, the reporting timeframe and the frame type.
//!
//! Each has a machine value (the bit pattern that stands for it on the wire)
//! and a label (its canonical name as text). A bit pattern that stands for no
//! variant is refused with an error of its own; it is never coerced.

use vstd::prelude::*;
use crate::error::DecodeError;

verus! {

/// The operating mode of the device.
#[derive(Clone, Copy, Debug, PartialEq, Eq, Structural)]
pub enum Mode {
    Button,
}

/// How often the device reports.
#[derive(Clone, Copy, Debug, PartialEq, Eq, Structural)]
pub enum Timeframe {
    TenMinutes,
    OneHour,
    SixHours,
    TwentyFourHours,
}

/// What made the device send the frame.
#[derive(Clone, Copy, Debug, PartialEq, Eq, Structural)]
pub enum FrameType {
    Regular,
    ButtonCall,
    Alert,
    NewMode,
}

impl Mode {
    /// The machine value of this mode.
    pub open spec fn spec_value(self) -> u8 {
        match self {
            Mode::Button => 0,
        }
    }

    /// The mode that `raw` stands for, or `UnknownMode` if it stands for none.
    pub open spec fn spec_from_raw(raw: u8) -> Result<Mode, DecodeError> {
        if raw == 0 {
            Ok(Mode::Button)
        } else {
            Err(DecodeError::UnknownMode)
        }
    }

    /// The canonical name of this mode.
    pub open spec fn spec_label(self) -> Seq<char> {
        match self {
            Mode::Button => "Button"@,
        }
    }

    /// Returns the machine value of this mode.
    pub fn value(&self) -> (v: u8)
        ensures
            v == self.spec_value(),
    {
        match self {
            Mode::Button => 0,
        }
    }

    /// Maps a machine value to its mode.
    pub fn from_raw(raw: u8) -> (r: Result<Mode, DecodeError>)
        ensures
            r == Mode::spec_from_raw(raw),
    {
        if raw == 0 {
            Ok(Mode::Button)
        } else {
            Err(DecodeError::UnknownMode)
        }
    }

    /// Returns the canonical name of this mode.
    pub fn label(&self) -> (s: &'static str)
        ensures
            s@ == self.spec_label(),
    {
        match self {
            Mode::Button => "Button",
        }
    }

    /// The mapping from machine values and `spec_value` are inverse to each
    /// other: a mode maps back from its own value, a value that maps to a
    /// mode is that mode's value, and every value that maps to none is
    /// refused as `UnknownMode`.
    pub proof fn from_raw_inverts_value(raw: u8, mode: Mode)
        ensures
            Mode::spec_from_raw(mode.spec_value()) matches Ok(m) && m == mode,
            Mode::spec_from_raw(raw) matches Ok(m) ==> m.spec_value() == raw,
            Mode::spec_from_raw(raw) matches Err(e) ==> e == DecodeError::UnknownMode,
            Mode::spec_from_raw(raw) is Ok <==> raw == 0,
    {
    }
}

impl Timeframe {
    /// The machine value of this timeframe.
    pub open spec fn spec_value(self) -> u8 {
        match self {
            Timeframe::TenMinutes => 0,
            Timeframe::OneHour => 1,
            Timeframe::SixHours => 2,
            Timeframe::TwentyFourHours => 3,
        }
    }

    /// The timeframe that `raw` stands for, or `UnknownTimeframe` if it
    /// stands for none.
    pub open spec fn spec_from_raw(raw: u8) -> Result<Timeframe, DecodeError> {
        if raw == 0 {
            Ok(Timeframe::TenMinutes)
        } else if raw == 1 {
            Ok(Timeframe::OneHour)
        } else if raw == 2 {
            Ok(Timeframe::SixHours)
        } else if raw == 3 {
            Ok(Timeframe::TwentyFourHours)
        } else {
            Err(DecodeError::UnknownTimeframe)
        }
    }

    /// The canonical name of this timeframe.
    pub open spec fn spec_label(self) -> Seq<char> {
        match self {
            Timeframe::TenMinutes => "TenMinutes"@,
            Timeframe::OneHour => "OneHour"@,
            Timeframe::SixHours => "SixHours"@,
            Timeframe::TwentyFourHours => "TwentyFourHours"@,
        }
    }

    /// Returns the machine value of this timeframe.
    pub fn value(&self) -> (v: u8)
        ensures
            v == self.spec_value(),
    {
        match self {
            Timeframe::TenMinutes => 0,
            Timeframe::OneHour => 1,
            Timeframe::SixHours => 2,
            Timeframe::TwentyFourHours => 3,
        }
    }

    /// Maps a machine value to its timeframe.
    pub fn from_raw(raw: u8) -> (r: Result<Timeframe, DecodeError>)
        ensures
            r == Timeframe::spec_from_raw(raw),
    {
        if raw == 0 {
            Ok(Timeframe::TenMinutes)
        } else if raw == 1 {
            Ok(Timeframe::OneHour)
        } else if raw == 2 {
            Ok(Timeframe::SixHours)
        } else if raw == 3 {
            Ok(Timeframe::TwentyFourHours)
        } else {
            Err(DecodeError::UnknownTimeframe)
        }
    }

    /// Returns the canonical name of this timeframe.
    pub fn label(&self) -> (s: &'static str)
        ensures
            s@ == self.spec_label(),
    {
        match self {
            Timeframe::TenMinutes => "TenMinutes",
            Timeframe::OneHour => "OneHour",
            Timeframe::SixHours => "SixHours",
            Timeframe::TwentyFourHours => "TwentyFourHours",
        }
    }

    /// The mapping from machine values and `spec_value` are inverse to each
    /// other: a timeframe maps back from its own value, a value that maps to
    /// a timeframe is that timeframe's value, and every value that maps to
    /// none, which are those above 3, is refused as `UnknownTimeframe`.
    pub proof fn from_raw_inverts_value(raw: u8, timeframe: Timeframe)
        ensures
            Timeframe::spec_from_raw(timeframe.spec_value()) matches Ok(t) && t == timeframe,
            Timeframe::spec_from_raw(raw) matches Ok(t) ==> t.spec_value() == raw,
            Timeframe::spec_from_raw(raw) matches Err(e) ==> e == DecodeError::UnknownTimeframe,
            Timeframe::spec_from_raw(raw) is Ok <==> raw <= 3,
    {
    }
}

impl FrameType {
    /// The machine value of this frame type.
    pub open spec fn spec_value(self) -> u8 {
        match self {
            FrameType::Regular => 0,
            FrameType::ButtonCall => 1,
            FrameType::Alert => 2,
            FrameType::NewMode => 3,
        }
    }

    /// The frame type that `raw` stands for, or `UnknownType` if it stands
    /// for none.
    pub open spec fn spec_from_raw(raw: u8) -> Result<FrameType, DecodeError> {
        if raw == 0 {
            Ok(FrameType::Regular)
        } else if raw == 1 {
            Ok(FrameType::ButtonCall)
        } else if raw == 2 {
            Ok(FrameType::Alert)
        } else if raw == 3 {
            Ok(FrameType::NewMode)
        } else {
            Err(DecodeError::UnknownType)
        }
    }

    /// The canonical name of this frame type.
    pub open spec fn spec_label(self) -> Seq<char> {
        match self {
            FrameType::Regular => "Regular"@,
            FrameType::ButtonCall => "ButtonCall"@,
            FrameType::Alert => "Alert"@,
            FrameType::NewMode => "NewMode"@,
        }
    }

    /// Returns the machine value of this frame type.
    pub fn value(&self) -> (v: u8)
        ensures
            v == self.spec_value(),
    {
        match self {
            FrameType::Regular => 0,
            FrameType::ButtonCall => 1,
            FrameType::Alert => 2,
            FrameType::NewMode => 3,
        }
    }

    /// Maps a machine value to its frame type.
    pub fn from_raw(raw: u8) -> (r: Result<FrameType, DecodeError>)
        ensures
            r == FrameType::spec_from_raw(raw),
    {
        if raw == 0 {
            Ok(FrameType::Regular)
        } else if raw == 1 {
            Ok(FrameType::ButtonCall)
        } else if raw == 2 {
            Ok(FrameType::Alert)
        } else if raw == 3 {
            Ok(FrameType::NewMode)
        } else {
            Err(DecodeError::UnknownType)
        }
    }

    /// Returns the canonical name of this frame type.
    pub fn label(&self) -> (s: &'static str)
        ensures
            s@ == self.spec_label(),
    {
        match self {
            FrameType::Regular => "Regular",
            FrameType::ButtonCall => "ButtonCall",
            FrameType::Alert => "Alert",
            FrameType::NewMode => "NewMode",
        }
    }

    /// The mapping from machine values and `spec_value` are inverse to each
    /// other: a frame type maps back from its own value, a value that maps
    /// to a frame type is that type's value, and every value that maps to
    /// none, which are those above 3, is refused as `UnknownType`.
    pub proof fn from_raw_inverts_value(raw: u8, frame_type: FrameType)
        ensures
            FrameType::spec_from_raw(frame_type.spec_value()) matches Ok(t) && t == frame_type,
            FrameType::spec_from_raw(raw) matches Ok(t) ==> t.spec_value() == raw,
            FrameType::spec_from_raw(raw) matches Err(e) ==> e == DecodeError::UnknownType,
            FrameType::spec_from_raw(raw) is Ok <==> raw <= 3,
    {
    }
}

/// The label of a timeframe tells which timeframe it is: no two variants
/// share a name.
pub proof fn timeframe_label_is_injective(a: Timeframe, b: Timeframe)
    requires
        a.spec_label() == b.spec_label(),
    ensures
        a == b,
{
    reveal_strlit("TenMinutes");
    reveal_strlit("OneHour");
    reveal_strlit("SixHours");
    reveal_strlit("TwentyFourHours");
    assert("TenMinutes"@.len() == 10);
    assert("OneHour"@.len() == 7);
    assert("SixHours"@.len() == 8);
    assert("TwentyFourHours"@.len() == 15);
}

/// The label of a frame type tells which frame type it is: no two variants
/// share a name.
pub proof fn frame_type_label_is_injective(a: FrameType, b: FrameType)
    requires
        a.spec_label() == b.spec_label(),
    ensures
        a == b,
{
    reveal_strlit("Regular");
    reveal_strlit("ButtonCall");
    reveal_strlit("Alert");
    reveal_strlit("NewMode");
    assert("Regular"@.len() == 7 && "Regular"@[0] == 'R');
    assert("ButtonCall"@.len() == 10);
    assert("Alert"@.len() == 5);
    assert("NewMode"@.len() == 7 && "NewMode"@[0] == 'N');
}

} // verus!
