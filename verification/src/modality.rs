//! Measurement model: the typed union of physical quantities a sensor can
//! report, and exact unit conversion for temperatures.
//!
//! Temperatures are stored in hundredths of a degree, so that the exact
//! Celsius/Fahrenheit conversions of decimal inputs with two fractional
//! digits stay exact. Humidity is stored in tenths of a percent, as the wire
//! protocol delivers it. Air-quality values carry the wire units directly
//! (concentration in micrograms per cubic metre, count per 0.1 litre).

use vstd::prelude::*;

verus! {

/// Wind speed reading, as a whole number of the stated unit.
#[derive(Debug, Copy, Clone, PartialEq, Eq, Structural)]
pub enum Wind {
    Kph(u16),
    Mph(u16),
}

/// Temperature reading in hundredths of a degree of the stated scale
/// (`Celsius(2770)` is 27.70 degrees Celsius).
#[derive(Debug, Copy, Clone, PartialEq, Eq, Structural)]
pub enum Temperature {
    Celsius(i32),
    Fahrenheit(i32),
}

/// Particle size classes reported by the particulate sensor.
#[derive(Debug, Copy, Clone, PartialEq, Eq, Structural)]
pub enum Particle {
    PM0_3,
    PM0_5,
    PM1_0,
    PM2_5,
    PM5_0,
    PM10_0,
}

/// Air-quality reading: either a mass concentration (micrograms per cubic
/// metre) or a particle count (per 0.1 litre of air) for one size class.
#[derive(Debug, Copy, Clone, PartialEq, Eq, Structural)]
pub enum AirQuality {
    Concentration(Particle, u16),
    Count(Particle, u16),
}

/// One typed physical quantity extracted from a sensor frame. Humidity is in
/// tenths of a percent (`Humidity(825)` is 82.5%).
#[derive(Debug, Copy, Clone, PartialEq, Eq, Structural)]
pub enum Modality {
    Humidity(u16),
    Pressure(u16),
    Temperature(Temperature),
    Wind(Wind),
    AirQuality(AirQuality),
}

/// Integer division truncating toward zero (the rounding the conversions
/// use), defined for a positive divisor.
pub open spec fn div_toward_zero(a: int, b: int) -> int
    recommends
        b > 0,
{
    if a >= 0 {
        a / b
    } else {
        -((-a) / b)
    }
}

/// Celsius to Fahrenheit over hundredths of a degree: `c * 9/5 + 32` degrees.
pub open spec fn spec_celsius_to_fahrenheit(c: int) -> int {
    div_toward_zero(c * 9, 5) + 3200
}

/// Fahrenheit to Celsius over hundredths of a degree: `(f - 32) * 5/9` degrees.
pub open spec fn spec_fahrenheit_to_celsius(f: int) -> int {
    div_toward_zero((f - 3200) * 5, 9)
}

/// Divides a magnitude-bounded numerator by a small positive constant without
/// signed hardware division: the quotient is computed on the magnitude and
/// the sign is reapplied, which is exactly truncation toward zero.
fn div_i64_toward_zero(a: i64, b: u64) -> (q: i64)
    requires
        0 < b <= 1000,
        -0x4000_0000_0000_0000 <= a <= 0x4000_0000_0000_0000,
    ensures
        q == div_toward_zero(a as int, b as int),
{
    if a >= 0 {
        let m: u64 = a as u64;
        (m / b) as i64
    } else {
        let m: u64 = (-a) as u64;
        -((m / b) as i64)
    }
}

impl Temperature {
    /// The same temperature expressed in Celsius: a Celsius reading is
    /// returned unchanged, a Fahrenheit reading is converted exactly as
    /// `spec_fahrenheit_to_celsius` (which always fits the representation).
    pub fn to_celsius(&self) -> (r: Temperature)
        ensures
            *self matches Temperature::Celsius(c) ==> r == Temperature::Celsius(c),
            *self matches Temperature::Fahrenheit(f) ==> {
                &&& r matches Temperature::Celsius(c)
                &&& c == spec_fahrenheit_to_celsius(f as int)
            },
    {
        match self {
            Temperature::Celsius(c) => Temperature::Celsius(*c),
            Temperature::Fahrenheit(f) => {
                let num: i64 = ((*f as i64) - 3200) * 5;
                let q: i64 = div_i64_toward_zero(num, 9);
                Temperature::Celsius(q as i32)
            },
        }
    }

    /// The same temperature expressed in Fahrenheit. A Celsius reading `c`
    /// maps to `c * 9/5 + 32` degrees; the precondition is the machine limit
    /// that the converted value fits the 32-bit representation.
    pub fn to_fahrenheit(&self) -> (r: Temperature)
        requires
            *self matches Temperature::Celsius(c) ==> i32::MIN <= spec_celsius_to_fahrenheit(
                c as int,
            ) <= i32::MAX,
        ensures
            *self matches Temperature::Fahrenheit(f) ==> r == Temperature::Fahrenheit(f),
            *self matches Temperature::Celsius(c) ==> {
                &&& r matches Temperature::Fahrenheit(f)
                &&& f == spec_celsius_to_fahrenheit(c as int)
            },
    {
        match self {
            Temperature::Celsius(c) => {
                let num: i64 = (*c as i64) * 9;
                let q: i64 = div_i64_toward_zero(num, 5);
                Temperature::Fahrenheit((q + 3200) as i32)
            },
            Temperature::Fahrenheit(f) => Temperature::Fahrenheit(*f),
        }
    }
}

} // verus!
