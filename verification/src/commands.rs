//! What each command does to a catalogue held in memory.

use crate::catalog::{catalogue_or_default, seed_catalogue, LoadError};
use crate::models::{views, Dimension, FruitDimensions, FruitView};
use crate::names::{names_match, same_name, trim, trimmed};
use vstd::prelude::*;

verus! {

/// How an attempt to add a fruit ended. Only `Added` changes the catalogue.
#[derive(Clone, Copy, Debug, PartialEq, Eq, Structural)]
pub enum AddOutcome {
    /// The name is empty once trimmed.
    EmptyName,
    /// One of the measurements is at most zero.
    NonPositiveDimension,
    /// The catalogue already has a fruit of that name.
    Duplicate,
    /// The fruit was appended.
    Added,
}

/// How an attempt to remove a fruit ended. Only `Removed` changes the
/// catalogue.
#[derive(Clone, Copy, Debug, PartialEq, Eq, Structural)]
pub enum RemoveOutcome {
    /// The name is empty once trimmed.
    EmptyName,
    /// The catalogue has no fruit of that name.
    NotFound,
    /// Every fruit of that name was removed.
    Removed,
}

/// One command against the catalogue.
#[derive(Debug)]
pub enum Command {
    /// List the names of all fruits.
    List,
    /// Look one fruit up by name.
    Get { name: String },
    /// Add a fruit.
    Add { name: String, length: Dimension, width: Dimension, height: Dimension },
    /// Remove the fruits of one name.
    Remove { name: String },
}

/// What a command answered.
#[derive(Debug)]
pub enum Outcome {
    /// The names of all fruits, in catalogue order.
    Listed(Vec<String>),
    /// The fruit that was asked for.
    Found(FruitDimensions),
    /// No fruit has the name that was asked for.
    NotFound,
    /// How an `Add` ended.
    Add(AddOutcome),
    /// How a `Remove` ended.
    Remove(RemoveOutcome),
}

impl Outcome {
    /// Whether the command changed the catalogue, so that it has to be
    /// written back.
    pub open spec fn saves(self) -> bool {
        self == Outcome::Add(AddOutcome::Added) || self == Outcome::Remove(RemoveOutcome::Removed)
    }

    /// Whether the catalogue has to be written back after this outcome.
    pub fn requires_save(&self) -> (r: bool)
        ensures
            r == self.saves(),
    {
        match self {
            Outcome::Add(AddOutcome::Added) => true,
            Outcome::Remove(RemoveOutcome::Removed) => true,
            _ => false,
        }
    }
}

/// What one run of the tool hands back.
#[derive(Debug)]
pub struct Report {
    /// Why the seed catalogue was used, where the catalogue could not be
    /// loaded.
    pub warning: Option<LoadError>,
    /// What the command answered.
    pub outcome: Outcome,
    /// The catalogue after the command.
    pub catalogue: Vec<FruitDimensions>,
}

/// The names of a catalogue's fruits, in catalogue order.
pub open spec fn names(cat: Seq<FruitView>) -> Seq<Seq<char>> {
    cat.map_values(|fruit: FruitView| fruit.name)
}

/// The characters of each string.
pub open spec fn texts(strings: Seq<String>) -> Seq<Seq<char>> {
    strings.map_values(|s: String| s@)
}

/// Whether the catalogue has a fruit of that name, whatever the case of its
/// ASCII letters.
pub open spec fn has_name(cat: Seq<FruitView>, name: Seq<char>) -> bool {
    exists|i: int| 0 <= i < cat.len() && same_name((#[trigger] cat[i]).name, name)
}

/// Whether no two fruits of the catalogue have the same name.
pub open spec fn unique_names(cat: Seq<FruitView>) -> bool {
    forall|i: int, j: int|
        0 <= i < j < cat.len() ==> !same_name((#[trigger] cat[i]).name, (#[trigger] cat[j]).name)
}

/// Whether `i` is where the first fruit of that name stands.
pub open spec fn is_first_match(cat: Seq<FruitView>, name: Seq<char>, i: int) -> bool {
    &&& 0 <= i < cat.len()
    &&& same_name(cat[i].name, name)
    &&& forall|j: int| 0 <= j < i ==> !same_name((#[trigger] cat[j]).name, name)
}

/// How adding a fruit ends. The checks come in this order: the name, the
/// measurements, then whether the name is taken.
pub open spec fn add_outcome(
    cat: Seq<FruitView>,
    name: Seq<char>,
    length: Dimension,
    width: Dimension,
    height: Dimension,
) -> AddOutcome {
    let key = trimmed(name);
    if key.len() == 0 {
        AddOutcome::EmptyName
    } else if length.at_most_zero() || width.at_most_zero() || height.at_most_zero() {
        AddOutcome::NonPositiveDimension
    } else if has_name(cat, key) {
        AddOutcome::Duplicate
    } else {
        AddOutcome::Added
    }
}

/// The catalogue after an attempt to add a fruit: with the fruit at its end,
/// under its trimmed name, where the attempt succeeds, and unchanged where it
/// does not.
pub open spec fn after_add(
    cat: Seq<FruitView>,
    name: Seq<char>,
    length: Dimension,
    width: Dimension,
    height: Dimension,
) -> Seq<FruitView> {
    if add_outcome(cat, name, length, width, height) == AddOutcome::Added {
        cat.push(FruitView { name: trimmed(name), length, width, height })
    } else {
        cat
    }
}

/// How removing a fruit ends.
pub open spec fn remove_outcome(cat: Seq<FruitView>, name: Seq<char>) -> RemoveOutcome {
    let key = trimmed(name);
    if key.len() == 0 {
        RemoveOutcome::EmptyName
    } else if has_name(cat, key) {
        RemoveOutcome::Removed
    } else {
        RemoveOutcome::NotFound
    }
}

/// The catalogue after an attempt to remove a fruit: without any fruit of
/// the trimmed name, the others in their order. An empty name removes
/// nothing.
pub open spec fn after_remove(cat: Seq<FruitView>, name: Seq<char>) -> Seq<FruitView> {
    let key = trimmed(name);
    if key.len() == 0 {
        cat
    } else {
        cat.filter(|fruit: FruitView| !same_name(fruit.name, key))
    }
}

/// The catalogue after a command.
pub open spec fn after(cat: Seq<FruitView>, command: Command) -> Seq<FruitView> {
    match command {
        Command::List => cat,
        Command::Get { name } => cat,
        Command::Add { name, length, width, height } => after_add(
            cat,
            name@,
            length,
            width,
            height,
        ),
        Command::Remove { name } => after_remove(cat, name@),
    }
}

/// Whether `outcome` is what `command` answers against `cat`.
pub open spec fn answers(cat: Seq<FruitView>, command: Command, outcome: Outcome) -> bool {
    match command {
        Command::List => outcome matches Outcome::Listed(listed) && texts(listed@) == names(cat),
        Command::Get { name } => match outcome {
            Outcome::Found(fruit) => exists|i: int|
                is_first_match(cat, name@, i) && fruit@ == #[trigger] cat[i],
            Outcome::NotFound => !has_name(cat, name@),
            _ => false,
        },
        Command::Add { name, length, width, height } => outcome == Outcome::Add(
            add_outcome(cat, name@, length, width, height),
        ),
        Command::Remove { name } => outcome == Outcome::Remove(remove_outcome(cat, name@)),
    }
}

/// The names of the catalogue's fruits, in catalogue order.
pub fn list_names(items: &Vec<FruitDimensions>) -> (listed: Vec<String>)
    ensures
        texts(listed@) == names(views(items@)),
{
    let mut listed: Vec<String> = Vec::new();
    let mut i: usize = 0;
    while i < items.len()
        invariant
            i <= items.len(),
            listed.len() == i,
            forall|j: int| 0 <= j < i ==> (#[trigger] listed@[j])@ == items@[j].name@,
        decreases items.len() - i,
    {
        listed.push(items[i].name.clone());
        i += 1;
    }
    assert(texts(listed@) =~= names(views(items@)));
    listed
}

/// Looks a fruit up by name. Of several fruits of that name the first is
/// found.
pub fn find_fruit<'a>(items: &'a Vec<FruitDimensions>, name: &str) -> (found: Option<
    &'a FruitDimensions,
>)
    ensures
        match found {
            Some(fruit) => exists|i: int|
                is_first_match(views(items@), name@, i) && *fruit == #[trigger] items@[i],
            None => !has_name(views(items@), name@),
        },
{
    let mut i: usize = 0;
    while i < items.len()
        invariant
            i <= items.len(),
            forall|j: int| 0 <= j < i ==> !same_name((#[trigger] views(items@)[j]).name, name@),
        decreases items.len() - i,
    {
        if names_match(items[i].name.as_str(), name) {
            assert(is_first_match(views(items@), name@, i as int));
            return Some(&items[i]);
        }
        i += 1;
    }
    None
}

/// Adds a fruit under its trimmed name, unless the name is empty, a
/// measurement is at most zero, or the name is taken.
pub fn add_fruit(
    items: &mut Vec<FruitDimensions>,
    name: &str,
    length: Dimension,
    width: Dimension,
    height: Dimension,
) -> (outcome: AddOutcome)
    ensures
        outcome == add_outcome(views(old(items)@), name@, length, width, height),
        views(final(items)@) == after_add(views(old(items)@), name@, length, width, height),
        outcome == AddOutcome::Added ==> final(items)@.drop_last() == old(items)@,
        outcome != AddOutcome::Added ==> final(items)@ == old(items)@,
{
    let key = trim(name);
    if key.is_empty() {
        return AddOutcome::EmptyName;
    }
    if length.is_at_most_zero() || width.is_at_most_zero() || height.is_at_most_zero() {
        return AddOutcome::NonPositiveDimension;
    }
    if find_fruit(items, key).is_some() {
        return AddOutcome::Duplicate;
    }
    items.push(FruitDimensions { name: key.to_owned(), length, width, height });
    assert(views(items@) =~= after_add(views(old(items)@), name@, length, width, height));
    assert(items@.drop_last() =~= old(items)@);
    AddOutcome::Added
}

/// Removes every fruit of the trimmed name; the others keep their order.
pub fn remove_fruit(items: &mut Vec<FruitDimensions>, name: &str) -> (outcome: RemoveOutcome)
    ensures
        outcome == remove_outcome(views(old(items)@), name@),
        views(final(items)@) == after_remove(views(old(items)@), name@),
        outcome != RemoveOutcome::Removed ==> final(items)@ == old(items)@,
{
    let key = trim(name);
    if key.is_empty() {
        return RemoveOutcome::EmptyName;
    }
    let mut all: Vec<FruitDimensions> = Vec::new();
    core::mem::swap(items, &mut all);
    let ghost before = all@;
    let ghost cat = views(before);
    let ghost keep = |fruit: FruitView| !same_name(fruit.name, key@);
    let mut removed = false;
    for fruit in rest: all
        invariant
            rest.seq() == before,
            cat == views(before),
            keep == |fruit: FruitView| !same_name(fruit.name, key@),
            views(items@) == cat.subrange(0, rest.index()).filter(keep),
            removed <==> exists|j: int|
                0 <= j < rest.index() && same_name((#[trigger] cat[j]).name, key@),
            !removed ==> items@ == before.subrange(0, rest.index()),
    {
        let ghost at = rest.index();
        let ghost kept = items@;
        proof {
            assert(fruit@ == cat[at]);
            assert(cat.subrange(0, at + 1) =~= cat.subrange(0, at).push(cat[at]));
            cat.subrange(0, at).lemma_filter_push(cat[at], keep);
        }
        if names_match(fruit.name.as_str(), key) {
            removed = true;
        } else {
            items.push(fruit);
            assert(views(items@) =~= views(kept).push(cat[at]));
            assert(!removed ==> items@ =~= before.subrange(0, at + 1));
        }
    }
    proof {
        assert(cat.subrange(0, cat.len() as int) =~= cat);
        assert(before.subrange(0, before.len() as int) =~= before);
    }
    if removed {
        RemoveOutcome::Removed
    } else {
        RemoveOutcome::NotFound
    }
}

/// Carries out one command against the catalogue.
pub fn execute(items: &mut Vec<FruitDimensions>, command: &Command) -> (outcome: Outcome)
    ensures
        answers(views(old(items)@), *command, outcome),
        views(final(items)@) == after(views(old(items)@), *command),
        !outcome.saves() ==> final(items)@ == old(items)@,
{
    match command {
        Command::List => Outcome::Listed(list_names(items)),
        Command::Get { name } => match find_fruit(items, name.as_str()) {
            Some(fruit) => Outcome::Found(fruit.clone()),
            None => Outcome::NotFound,
        },
        Command::Add { name, length, width, height } => Outcome::Add(
            add_fruit(items, name.as_str(), *length, *width, *height),
        ),
        Command::Remove { name } => Outcome::Remove(remove_fruit(items, name.as_str())),
    }
}

/// One run of the tool: settles the catalogue, then carries out the command
/// against it.
///
/// A failed load is never an error here. The seed catalogue takes the place
/// of the one that could not be loaded, and the report carries the reason.
pub fn run(loaded: Result<Vec<FruitDimensions>, LoadError>, command: &Command) -> (report: Report)
    ensures
        report.warning == match loaded {
            Ok(_) => None,
            Err(reason) => Some(reason),
        },
        ({
            let start = match loaded {
                Ok(items) => views(items@),
                Err(_) => seed_catalogue(),
            };
            &&& answers(start, *command, report.outcome)
            &&& views(report.catalogue@) == after(start, *command)
        }),
{
    let (mut catalogue, warning) = catalogue_or_default(loaded);
    let outcome = execute(&mut catalogue, command);
    Report { warning, outcome, catalogue }
}

} // verus!
