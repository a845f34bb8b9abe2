//! The formulas that turn raw readings into physical quantities.
//!
//! Each quantity is an exact fraction with a fixed denominator, and the
//! functions here give its numerator:
//!
//! * the battery voltage in twentieths of a volt,
//! * a temperature in degrees Celsius in eighths of a degree,
//! * a temperature in degrees Fahrenheit in fortieths of a degree.
//!
//! Dividing a numerator by its denominator gives the quantity in its unit;
//! that division is left to the caller, who chooses the number format.

use vstd::prelude::*;

verus! {

/// Steps of the battery reading that make one volt.
pub const BATTERY_STEPS_PER_VOLT: i32 = 20;

/// Steps of a Celsius reading that make one degree.
pub const CELSIUS_STEPS_PER_DEGREE: i32 = 8;

/// Steps of a Fahrenheit reading that make one degree.
pub const FAHRENHEIT_STEPS_PER_DEGREE: i32 = 40;

/// The battery voltage, in twentieths of a volt, for the top bit `msb` and
/// the low four bits `lsb` of the battery reading: the five-bit reading plus
/// an offset of 54 steps (2.7 V).
pub open spec fn battery_twentieths(msb: int, lsb: int) -> int {
    msb * 16 + lsb + 54
}

/// The temperature in eighths of a degree Celsius for the high part `msb`
/// and the low part `lsb` of the temperature reading: the reading
/// `msb * 64 + lsb` less an offset of 200 steps (25 degrees).
pub open spec fn celsius_eighths(msb: int, lsb: int) -> int {
    msb * 64 + lsb - 200
}

/// The same temperature in fortieths of a degree Fahrenheit.
///
/// A temperature of `c` degrees Celsius is `c * 9 / 5 + 32` degrees
/// Fahrenheit. With `c = e / 8` that is `(9 * e + 32 * 40) / 40`, so the
/// numerator over 40 is `9 * e + 1280`.
pub open spec fn fahrenheit_fortieths(msb: int, lsb: int) -> int {
    9 * celsius_eighths(msb, lsb) + 1280
}

/// Returns the temperature in eighths of a degree Celsius for the two parts
/// of a temperature reading.
pub fn get_temp_c(msb: u8, lsb: u8) -> (c: i32)
    ensures
        c == celsius_eighths(msb as int, lsb as int),
{
    ((msb as i32) * 64 + (lsb as i32)) - 200
}

/// Returns the temperature in fortieths of a degree Fahrenheit for the two
/// parts of a temperature reading.
pub fn get_temp_f(msb: u8, lsb: u8) -> (f: i32)
    ensures
        f == fahrenheit_fortieths(msb as int, lsb as int),
{
    9 * get_temp_c(msb, lsb) + 1280
}

/// The battery voltage of a five-bit reading lies between 2.7 V and 4.25 V,
/// and a larger reading is a higher voltage.
pub proof fn battery_range(msb: int, lsb: int)
    requires
        0 <= msb <= 1,
        0 <= lsb <= 15,
    ensures
        54 <= battery_twentieths(msb, lsb) <= 85,
        battery_twentieths(msb, lsb) - 54 == msb * 16 + lsb,
{
}

/// The Fahrenheit value is the Celsius value converted exactly: with both
/// sides brought to the common denominator 40, `f / 40 == (e / 8) * 9 / 5 + 32`.
pub proof fn fahrenheit_is_celsius_converted(msb: int, lsb: int)
    ensures
        fahrenheit_fortieths(msb, lsb) == 9 * celsius_eighths(msb, lsb) + 32
            * FAHRENHEIT_STEPS_PER_DEGREE,
        5 * CELSIUS_STEPS_PER_DEGREE == FAHRENHEIT_STEPS_PER_DEGREE,
{
}

/// Low precision rounds down. The low-precision temperature, which is
/// computed with a low part of zero, is never above the full-precision one
/// and lies less than 64 eighths (8 degrees Celsius) below it; the two are
/// equal exactly when the low part of the reading is zero. The same holds in
/// Fahrenheit, where the step is 576 fortieths (14.4 degrees).
pub proof fn low_precision_rounds_down(msb: int, lsb: int)
    requires
        0 <= lsb < 64,
    ensures
        celsius_eighths(msb, 0) <= celsius_eighths(msb, lsb) < celsius_eighths(msb, 0) + 64,
        celsius_eighths(msb, lsb) == celsius_eighths(msb, 0) + lsb,
        celsius_eighths(msb, lsb) == celsius_eighths(msb, 0) <==> lsb == 0,
        fahrenheit_fortieths(msb, 0) <= fahrenheit_fortieths(msb, lsb) < fahrenheit_fortieths(
            msb,
            0,
        ) + 576,
        fahrenheit_fortieths(msb, lsb) == fahrenheit_fortieths(msb, 0) <==> lsb == 0,
{
}

/// The range of the temperature scale: a reading whose parts fit their
/// fields is between -25 and 102.875 degrees Celsius, that is between -13
/// and 217.175 degrees Fahrenheit.
pub proof fn temperature_range(msb: int, lsb: int)
    requires
        0 <= msb <= 15,
        0 <= lsb <= 63,
    ensures
        -200 <= celsius_eighths(msb, lsb) <= 823,
        -520 <= fahrenheit_fortieths(msb, lsb) <= 8687,
{
}

} // verus!
