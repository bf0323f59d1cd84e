//! Height units, the fixed conversion factors between length units, and the two conversions
//! built on them.
//!
//! Heights and distances are values of a type `T` that the caller picks and computes with.
//! The functions here decide which factor applies to which value; the multiplication or
//! division itself is the caller's operation, and each contract says which call of it a
//! result comes from.

use vstd::prelude::*;

verus! {

/// Unit in which a height is entered.
#[derive(Clone, Copy, Debug, PartialEq, Eq, Structural)]
pub enum InputUnit {
    /// Metres.
    M,
    /// International feet.
    Ft,
}

/// The fixed conversion factors, each an exact decimal number of metres.
#[derive(Clone, Copy, Debug, PartialEq, Eq, Structural)]
pub enum Factor {
    /// Metres in one foot: 0.3048.
    MetersPerFoot,
    /// Metres in one kilometre: 1000.
    MetersPerKm,
    /// Metres in one nautical mile: 1852.
    MetersPerNm,
    /// Metres in one statute mile: 1609.344.
    MetersPerMile,
}

impl Factor {
    /// The factor as an exact fraction `(numerator, denominator)`.
    pub open spec fn fraction(self) -> (int, int) {
        match self {
            Factor::MetersPerFoot => (3048, 10000),
            Factor::MetersPerKm => (1000, 1),
            Factor::MetersPerNm => (1852, 1),
            Factor::MetersPerMile => (1609344, 1000),
        }
    }

    /// Numerator and denominator of the factor, both positive.
    pub fn ratio(self) -> (r: (u32, u32))
        ensures
            (r.0 as int, r.1 as int) == self.fraction(),
            r.0 > 0,
            r.1 > 0,
    {
        match self {
            Factor::MetersPerFoot => (3048, 10000),
            Factor::MetersPerKm => (1000, 1),
            Factor::MetersPerNm => (1852, 1),
            Factor::MetersPerMile => (1609344, 1000),
        }
    }
}

/// A distance read in every output unit.
#[derive(Debug, PartialEq, Eq)]
pub struct OutputUnit<T> {
    /// Kilometres.
    pub km: T,
    /// Statute miles.
    pub mi: T,
    /// Nautical miles.
    pub nm: T,
    /// Metres.
    pub m: T,
    /// Feet.
    pub ft: T,
}

/// `meters` is the height `value`, entered in `unit`, in metres: `value` itself for metres,
/// and for feet a result of `scale` on `value` and [`Factor::MetersPerFoot`].
pub open spec fn is_resolved<T, S: FnOnce(T, Factor) -> T>(
    value: T,
    unit: InputUnit,
    meters: T,
    scale: S,
) -> bool {
    match unit {
        InputUnit::M => meters == value,
        InputUnit::Ft => scale.ensures((value, Factor::MetersPerFoot), meters),
    }
}

impl<T: Copy> Clone for OutputUnit<T> {
    fn clone(&self) -> (out: Self)
        ensures
            out == *self,
    {
        OutputUnit { km: self.km, mi: self.mi, nm: self.nm, m: self.m, ft: self.ft }
    }
}

impl<T> OutputUnit<T> {
    /// Every reading derives from the metre reading and from nothing else: each is a result of
    /// `divide` on `self.m` and the factor of its unit.
    pub open spec fn is_expansion<D: Fn(T, Factor) -> T>(self, divide: D) -> bool {
        &&& divide.ensures((self.m, Factor::MetersPerKm), self.km)
        &&& divide.ensures((self.m, Factor::MetersPerMile), self.mi)
        &&& divide.ensures((self.m, Factor::MetersPerNm), self.nm)
        &&& divide.ensures((self.m, Factor::MetersPerFoot), self.ft)
    }
}

/// Height in metres of `value` entered in `unit`.
///
/// Metres pass through untouched, whatever the value. Feet are multiplied by
/// [`Factor::MetersPerFoot`], by one call of `scale`.
pub fn resolve_input_m<T, S: FnOnce(T, Factor) -> T>(value: T, unit: InputUnit, scale: S) -> (meters: T)
    requires
        unit == InputUnit::Ft ==> scale.requires((value, Factor::MetersPerFoot)),
    ensures
        unit == InputUnit::M ==> meters == value,
        is_resolved(value, unit, meters, scale),
{
    match unit {
        InputUnit::M => value,
        InputUnit::Ft => scale(value, Factor::MetersPerFoot),
    }
}

/// Reads the distance `result`, given in metres, in every output unit.
///
/// The metre reading is `result` itself; each other reading is `result` divided by the factor
/// of its unit, by one call of `divide`. Nothing is rounded.
pub fn unit_converter<T: Copy, D: Fn(T, Factor) -> T>(result: T, divide: D) -> (out: OutputUnit<T>)
    requires
        forall|by: Factor| divide.requires((result, by)),
    ensures
        out.m == result,
        out.is_expansion(divide),
{
    OutputUnit {
        km: divide(result, Factor::MetersPerKm),
        mi: divide(result, Factor::MetersPerMile),
        nm: divide(result, Factor::MetersPerNm),
        m: result,
        ft: divide(result, Factor::MetersPerFoot),
    }
}

} // verus!
