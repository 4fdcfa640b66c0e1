//! The data held for one fruit.

use vstd::prelude::*;

verus! {

/// One measurement of a fruit, kept as the bit pattern of an IEEE 754 binary32
/// number.
///
/// The catalogue never computes with a measurement; it stores it, hands it
/// back, and asks one question of it: whether it is at most zero.
#[derive(Clone, Copy, Debug, PartialEq, Eq, Structural)]
pub struct Dimension {
    pub bits: u32,
}

impl Dimension {
    /// Whether the number that `bits` encodes compares `<= 0`.
    ///
    /// That holds of both zeros and of every negative number, negative
    /// infinity included. It does not hold of a NaN, which compares false
    /// with everything.
    pub open spec fn at_most_zero(self) -> bool {
        self.bits == 0 || 0x8000_0000 <= self.bits <= 0xFF80_0000
    }

    /// The measurement with this bit pattern.
    pub fn from_bits(bits: u32) -> (d: Dimension)
        ensures
            d.bits == bits,
    {
        Dimension { bits }
    }

    /// The bit pattern of the measurement.
    pub fn to_bits(self) -> (bits: u32)
        ensures
            bits == self.bits,
    {
        self.bits
    }

    /// Whether the measurement compares `<= 0`.
    pub fn is_at_most_zero(self) -> (r: bool)
        ensures
            r == self.at_most_zero(),
    {
        self.bits == 0 || (0x8000_0000 <= self.bits && self.bits <= 0xFF80_0000)
    }
}

/// A fruit: its name and its three measurements.
///
/// The name identifies the fruit within a catalogue. Nothing here asks that
/// the measurements be positive; that is checked where a fruit is added.
#[derive(Debug)]
pub struct FruitDimensions {
    pub name: String,
    pub length: Dimension,
    pub width: Dimension,
    pub height: Dimension,
}

/// What a `FruitDimensions` stands for: the characters of its name and its
/// measurements.
pub struct FruitView {
    pub name: Seq<char>,
    pub length: Dimension,
    pub width: Dimension,
    pub height: Dimension,
}

impl View for FruitDimensions {
    type V = FruitView;

    open spec fn view(&self) -> FruitView {
        FruitView {
            name: self.name@,
            length: self.length,
            width: self.width,
            height: self.height,
        }
    }
}

impl FruitDimensions {
    /// A fruit of the given name and measurements, taken as they are.
    pub fn new(name: String, length: Dimension, width: Dimension, height: Dimension) -> (fruit:
        FruitDimensions)
        ensures
            fruit.name == name,
            fruit.length == length,
            fruit.width == width,
            fruit.height == height,
    {
        FruitDimensions { name, length, width, height }
    }
}

impl Clone for FruitDimensions {
    fn clone(&self) -> (copy: FruitDimensions)
        ensures
            copy == *self,
    {
        FruitDimensions {
            name: self.name.clone(),
            length: self.length,
            width: self.width,
            height: self.height,
        }
    }
}

/// The views of a catalogue's fruits, in catalogue order.
pub open spec fn views(items: Seq<FruitDimensions>) -> Seq<FruitView> {
    items.map_values(|fruit: FruitDimensions| fruit@)
}

} // verus!
