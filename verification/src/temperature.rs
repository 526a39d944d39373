//! Bounded signed-degree temperature with a single-byte wire representation.

use vstd::prelude::*;

verus! {

/// Error used when a constructed temperature value does not fit
/// into the OCSD representation's range.
#[derive(Debug, Clone, Copy)]
pub struct TempOutOfRange;

/// Offset added to a degree reading before it is stored in the raw byte.
/// Present for future calibration; currently zero.
pub const CELSIUS_OFFSET: i16 = 0;

/// The two's-complement wire byte that stores the degree reading `d`: the
/// offset reading itself when it is non-negative, and the offset reading
/// plus 256 when it is negative.
pub open spec fn raw_byte_of_degrees(d: int) -> u8
    recommends
        -128 <= d + CELSIUS_OFFSET <= 127,
{
    if d + CELSIUS_OFFSET >= 0 {
        (d + CELSIUS_OFFSET) as u8
    } else {
        (d + CELSIUS_OFFSET + 256) as u8
    }
}

/// The degree reading stored by the wire byte `b`: its signed-byte value
/// minus the offset.
pub open spec fn degrees_of_raw(b: u8) -> int {
    if b < 128 {
        b - CELSIUS_OFFSET
    } else {
        b - 256 - CELSIUS_OFFSET
    }
}

/// A signed integer temperature in degrees Celsius, stored as a
/// single-byte raw value.
#[derive(Clone, Copy, PartialEq, Eq, Structural, Debug)]
pub struct Celsius {
    value: i8,
}

impl Celsius {
    /// The two's-complement byte representation of the stored value.
    pub closed spec fn spec_raw(self) -> u8 {
        if self.value >= 0 {
            self.value as u8
        } else {
            (self.value + 256) as u8
        }
    }

    /// The degree reading the stored value stands for.
    pub closed spec fn spec_degrees(self) -> i16 {
        (self.value - CELSIUS_OFFSET) as i16
    }

    /// The temperature that the raw byte `b` decodes to.
    pub closed spec fn spec_from_raw(b: u8) -> Celsius {
        Celsius { value: if b < 128 { b as i8 } else { (b - 256) as i8 } }
    }

    /// Constructs a new Celsius value.
    ///
    /// Returns the constructed value, or `TempOutOfRange` exactly when the
    /// offset degree value does not fit in a signed byte.
    pub fn new(degrees: i16) -> (r: Result<Self, TempOutOfRange>)
        ensures
            match r {
                Ok(c) => {
                    &&& -128 <= degrees + CELSIUS_OFFSET <= 127
                    &&& c.spec_degrees() == degrees
                    &&& c.spec_raw() == raw_byte_of_degrees(degrees as int)
                },
                Err(_) => !(-128 <= degrees + CELSIUS_OFFSET <= 127),
            },
    {
        let value: i16 = degrees + CELSIUS_OFFSET;
        if -128 <= value && value <= 127 {
            Ok(Celsius { value: value as i8 })
        } else {
            Err(TempOutOfRange)
        }
    }

    /// Returns the temperature as its raw OCSD byte.
    pub fn raw_value(&self) -> (r: u8)
        ensures
            r == self.spec_raw(),
    {
        if self.value >= 0 {
            self.value as u8
        } else {
            ((self.value as i16) + 256) as u8
        }
    }

    /// Returns the temperature as degrees.
    pub fn degrees(&self) -> (r: i16)
        ensures
            r == self.spec_degrees(),
    {
        self.value as i16 - CELSIUS_OFFSET
    }

    /// Constructs a new Celsius value from the raw OCSD byte.
    /// Total: every byte is a valid signed-byte reading.
    pub fn from_raw(value: u8) -> (r: Self)
        ensures
            r == Self::spec_from_raw(value),
            r.spec_raw() == value,
            r.spec_degrees() == degrees_of_raw(value),
    {
        if value < 128 {
            Celsius { value: value as i8 }
        } else {
            Celsius { value: ((value as i16) - 256) as i8 }
        }
    }
}

impl Default for Celsius {
    /// The zero reading.
    fn default() -> (r: Self)
        ensures
            r.spec_raw() == 0,
            r.spec_degrees() == 0 - CELSIUS_OFFSET,
    {
        Celsius { value: 0 }
    }
}

/// Law: decoding the raw byte of any temperature yields a value that reads
/// the same degrees, so construction, raw encoding, decoding and reading
/// compose to the identity on in-range degree values.
pub proof fn lemma_temperature_round_trip(c: Celsius)
    ensures
        Celsius::spec_from_raw(c.spec_raw()) == c,
        Celsius::spec_from_raw(c.spec_raw()).spec_degrees() == c.spec_degrees(),
{
}

/// Law: in every temperature, the wire byte and the degree reading
/// determine each other by the offset correspondence.
pub proof fn lemma_celsius_representation(c: Celsius)
    ensures
        c.spec_raw() == raw_byte_of_degrees(c.spec_degrees() as int),
        c.spec_degrees() == degrees_of_raw(c.spec_raw()),
{
}

} // verus!
