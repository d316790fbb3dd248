//! Physical quantities as they travel through the pipeline.
//!
//! A magnitude is carried as the bit pattern of the IEEE-754 number that the
//! sensor, the wire and the store use for it. The pipeline never computes with
//! a magnitude; it only has to hand every one on unchanged, and a bit pattern
//! makes "unchanged" exact, also for NaN and for negative zero.

use vstd::prelude::*;

verus! {

/// Bit pattern of an IEEE-754 double-precision number.
pub type DoubleBits = u64;

/// Bit pattern of an IEEE-754 single-precision number.
pub type SingleBits = u32;

/// A temperature. Whatever unit it was measured or is shown in, the value held
/// is the magnitude on the absolute scale, in kelvin; the wire and the store
/// use that same number and carry no unit tag.
#[derive(Debug, Clone, Copy, PartialEq, Eq, Structural)]
pub struct Temperature(pub DoubleBits);

impl Temperature {
    /// The magnitude in kelvin.
    pub open spec fn kelvin(self) -> DoubleBits {
        self.0
    }

    /// The number that stands for a temperature on the wire: its magnitude in
    /// kelvin.
    pub open spec fn wire_number(&self) -> DoubleBits {
        self.kelvin()
    }

    /// The temperature that a number on the wire stands for.
    pub open spec fn of_wire_number(number: DoubleBits) -> Temperature {
        Temperature(number)
    }

    /// The number that the store's column holds for a temperature: its
    /// magnitude in kelvin.
    pub open spec fn stored_number(&self) -> DoubleBits {
        self.kelvin()
    }

    /// The temperature that a number in the store's column stands for.
    pub open spec fn of_stored_number(number: DoubleBits) -> Temperature {
        Temperature(number)
    }

    /// The temperature whose magnitude in kelvin is `kelvin`. Every bit
    /// pattern is taken as it is: infinities, NaN and magnitudes below
    /// absolute zero are not turned away here.
    pub fn from_kelvin(kelvin: DoubleBits) -> (t: Temperature)
        ensures
            t.kelvin() == kelvin,
    {
        Temperature(kelvin)
    }

    #[verifier::when_used_as_spec(wire_number)]
    pub fn to_wire(&self) -> (number: DoubleBits)
        ensures
            number == self.wire_number(),
    {
        self.0
    }

    #[verifier::when_used_as_spec(of_wire_number)]
    pub fn from_wire(number: DoubleBits) -> (t: Temperature)
        ensures
            t == Temperature::of_wire_number(number),
    {
        Temperature(number)
    }

    #[verifier::when_used_as_spec(stored_number)]
    pub fn to_storage(&self) -> (number: DoubleBits)
        ensures
            number == self.stored_number(),
    {
        self.0
    }

    #[verifier::when_used_as_spec(of_stored_number)]
    pub fn from_storage(number: DoubleBits) -> (t: Temperature)
        ensures
            t == Temperature::of_stored_number(number),
    {
        Temperature(number)
    }

    /// A temperature that is sent over the wire arrives as the same
    /// temperature, and a number that is received goes out again as the same
    /// number.
    pub proof fn lemma_wire_round_trip(t: Temperature, number: DoubleBits)
        ensures
            Temperature::from_wire(t.to_wire()) == t,
            Temperature::from_wire(number).to_wire() == number,
    {
    }

    /// A temperature that is written to the store is read back as the same
    /// temperature, and a number that is read goes back as the same number.
    pub proof fn lemma_storage_round_trip(t: Temperature, number: DoubleBits)
        ensures
            Temperature::from_storage(t.to_storage()) == t,
            Temperature::from_storage(number).to_storage() == number,
    {
    }

    /// The wire and the store hold the same number for a temperature, so one
    /// that is received and then stored keeps its magnitude.
    pub proof fn lemma_wire_to_storage(number: DoubleBits)
        ensures
            Temperature::from_wire(number).to_storage() == number,
            Temperature::from_storage(number).to_wire() == number,
    {
    }
}

impl Default for Temperature {
    /// Absolute zero: the double 0.0, whose bit pattern is all zeros.
    fn default() -> (t: Temperature)
        ensures
            t.kelvin() == 0,
    {
        Temperature(0)
    }
}

} // verus!
