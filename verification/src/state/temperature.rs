//! Temperatures as the protocol carries them.

use vstd::prelude::*;

verus! {

/// Bit pattern of 0 °C.
pub const ZERO_BITS: u32 = 0x0000_0000;

/// Bit pattern of -0 °C, which compares equal to 0 °C.
pub const NEGATIVE_ZERO_BITS: u32 = 0x8000_0000;

/// Bit pattern of 25 °C, the ambient temperature.
pub const AMBIENT_BITS: u32 = 0x41C8_0000;

/// Bit pattern of 24.5 °C, the temperature an AMS unit reports.
pub const AMS_UNIT_BITS: u32 = 0x41C4_0000;

/// Bit pattern of 210 °C, the nozzle target of a new print job.
pub const DEFAULT_NOZZLE_BITS: u32 = 0x4352_0000;

/// Bit pattern of 55 °C, the bed target of a new print job.
pub const DEFAULT_BED_BITS: u32 = 0x425C_0000;

/// A temperature in degrees Celsius, held as the bit pattern of the IEEE 754
/// single-precision number that the printer reports. The state machine only
/// stores and copies temperatures; arithmetic on them (the heating and
/// cooling simulation) is done on the floating-point value outside this
/// library.
#[derive(Clone, Copy, Debug, PartialEq, Eq, Structural)]
pub struct Temperature {
    pub bits: u32,
}

/// 0 °C: the target of a heater that is switched off.
pub open spec fn zero() -> Temperature {
    Temperature { bits: ZERO_BITS }
}

/// 25 °C, the ambient temperature.
pub open spec fn ambient() -> Temperature {
    Temperature { bits: AMBIENT_BITS }
}

impl Temperature {
    /// Whether the temperature is zero, of either sign: what a comparison of
    /// the number with 0.0 finds.
    pub open spec fn is_zero_celsius(self) -> bool {
        self.bits == ZERO_BITS || self.bits == NEGATIVE_ZERO_BITS
    }

    /// Whether the temperature is zero (a heater target of zero means the
    /// heater is off).
    pub fn is_zero(&self) -> (z: bool)
        ensures
            z == self.is_zero_celsius(),
    {
        self.bits == ZERO_BITS || self.bits == NEGATIVE_ZERO_BITS
    }

    /// The temperature with the given bit pattern.
    pub fn from_bits(bits: u32) -> (t: Temperature)
        ensures
            t.bits == bits,
    {
        Temperature { bits }
    }

    /// 0 °C.
    pub fn zero() -> (t: Temperature)
        ensures
            t == zero(),
    {
        Temperature { bits: ZERO_BITS }
    }

    /// 25 °C, the ambient temperature.
    pub fn ambient() -> (t: Temperature)
        ensures
            t == ambient(),
    {
        Temperature { bits: AMBIENT_BITS }
    }
}

} // verus!
