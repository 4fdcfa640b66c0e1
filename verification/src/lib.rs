//! A small catalogue of named fruits, each with three measurements.
//!
//! The crate holds the catalogue's rules: how names are trimmed and compared,
//! what the seed catalogue contains, and what each command does to a
//! catalogue held in memory. Reading and writing the catalogue file, and
//! everything that computes with a measurement as a number, is left to the
//! caller.

pub mod catalog;
pub mod commands;
pub mod models;
pub mod names;
pub mod proofs;

pub use catalog::{catalogue_or_default, initialise_fruit_catalogue, LoadError};
pub use commands::{
    add_fruit, execute, find_fruit, list_names, remove_fruit, run, AddOutcome, Command, Outcome,
    RemoveOutcome, Report,
};
pub use models::{Dimension, FruitDimensions};
pub use names::{is_whitespace, names_match, trim};
