//! The seed catalogue, and what stands in for a catalogue that could not be
//! loaded.

use crate::models::{views, Dimension, FruitDimensions, FruitView};
use vstd::prelude::*;

verus! {

/// Why a catalogue could not be loaded.
#[derive(Clone, Copy, Debug, PartialEq, Eq, Structural)]
pub enum LoadError {
    /// Nothing exists at the path.
    NotFound,
    /// The file exists and could not be read.
    Io,
    /// The content is not a list of fruits.
    Parse,
}

/// The seed catalogue: Orange, Apple, Banana and Pear, in that order.
pub open spec fn seed_catalogue() -> Seq<FruitView> {
    seq![
        // 5.0 x 3.0 x 2.0
        FruitView {
            name: "Orange"@,
            length: Dimension { bits: 0x40A0_0000 },
            width: Dimension { bits: 0x4040_0000 },
            height: Dimension { bits: 0x4000_0000 },
        },
        // 4.0 x 2.5 x 1.5
        FruitView {
            name: "Apple"@,
            length: Dimension { bits: 0x4080_0000 },
            width: Dimension { bits: 0x4020_0000 },
            height: Dimension { bits: 0x3FC0_0000 },
        },
        // 6.0 x 3.5 x 2.5
        FruitView {
            name: "Banana"@,
            length: Dimension { bits: 0x40C0_0000 },
            width: Dimension { bits: 0x4060_0000 },
            height: Dimension { bits: 0x4020_0000 },
        },
        // 6.0 x 3.5 x 2.5
        FruitView {
            name: "Pear"@,
            length: Dimension { bits: 0x40C0_0000 },
            width: Dimension { bits: 0x4060_0000 },
            height: Dimension { bits: 0x4020_0000 },
        },
    ]
}

/// Builds the seed catalogue.
pub fn initialise_fruit_catalogue() -> (items: Vec<FruitDimensions>)
    ensures
        views(items@) == seed_catalogue(),
{
    let mut items: Vec<FruitDimensions> = Vec::new();
    items.push(
        FruitDimensions {
            name: "Orange".to_owned(),
            length: Dimension { bits: 0x40A0_0000 },
            width: Dimension { bits: 0x4040_0000 },
            height: Dimension { bits: 0x4000_0000 },
        },
    );
    items.push(
        FruitDimensions {
            name: "Apple".to_owned(),
            length: Dimension { bits: 0x4080_0000 },
            width: Dimension { bits: 0x4020_0000 },
            height: Dimension { bits: 0x3FC0_0000 },
        },
    );
    items.push(
        FruitDimensions {
            name: "Banana".to_owned(),
            length: Dimension { bits: 0x40C0_0000 },
            width: Dimension { bits: 0x4060_0000 },
            height: Dimension { bits: 0x4020_0000 },
        },
    );
    items.push(
        FruitDimensions {
            name: "Pear".to_owned(),
            length: Dimension { bits: 0x40C0_0000 },
            width: Dimension { bits: 0x4060_0000 },
            height: Dimension { bits: 0x4020_0000 },
        },
    );
    assert(views(items@) =~= seed_catalogue());
    items
}

/// Settles which catalogue a command runs against.
///
/// A loaded catalogue is used as it is. Whatever the reason a load failed,
/// the seed catalogue takes its place, and the reason is handed back so that
/// the caller can warn of it.
pub fn catalogue_or_default(loaded: Result<Vec<FruitDimensions>, LoadError>) -> (r: (
    Vec<FruitDimensions>,
    Option<LoadError>,
))
    ensures
        match loaded {
            Ok(items) => r.0 == items && r.1 is None,
            Err(reason) => views(r.0@) == seed_catalogue() && r.1 == Some(reason),
        },
{
    match loaded {
        Ok(items) => (items, None),
        Err(reason) => (initialise_fruit_catalogue(), Some(reason)),
    }
}

} // verus!
