//! Decoder for the fixed-layout uplink frame of a Sens'it button device.
//!
//! A frame is a short byte buffer. Its first byte packs the operating mode,
//! the reporting timeframe, the frame type and the top bit of the battery
//! reading; the following three bytes carry the rest of the battery reading,
//! the temperature, the reed-switch state and the firmware version.
//!
//! Every quantity that is a fraction in physical units is kept here as an
//! exact integer numerator over a fixed denominator, so that each formula can
//! be stated and proved without rounding.

pub mod error;
pub mod header;
pub mod layout;
pub mod units;
pub mod fields;
pub mod frame;
