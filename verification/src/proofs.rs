//! What holds of the commands, whatever the catalogue and the input.

use crate::catalog::seed_catalogue;
use crate::commands::{
    add_outcome, after, after_add, after_remove, answers, has_name, is_first_match,
    remove_outcome, unique_names, AddOutcome, Command, Outcome, RemoveOutcome,
};
use crate::models::{Dimension, FruitView};
use crate::names::{fold, same_name, trimmed};
use vstd::prelude::*;

verus! {

/// A filter that every element passes keeps the sequence as it is.
proof fn lemma_filter_keeps_all<A>(s: Seq<A>, pred: spec_fn(A) -> bool)
    requires
        forall|i: int| 0 <= i < s.len() ==> pred(#[trigger] s[i]),
    ensures
        s.filter(pred) == s,
    decreases s.len(),
{
    reveal(Seq::filter);
    if s.len() > 0 {
        lemma_filter_keeps_all(s.drop_last(), pred);
        assert(s.drop_last().push(s.last()) =~= s);
    }
}

/// A filter that some element fails makes the sequence shorter.
proof fn lemma_filter_drops_one<A>(s: Seq<A>, pred: spec_fn(A) -> bool, i: int)
    requires
        0 <= i < s.len(),
        !pred(s[i]),
    ensures
        s.filter(pred).len() < s.len(),
    decreases s.len(),
{
    reveal(Seq::filter);
    s.drop_last().lemma_filter_len(pred);
    if i < s.len() - 1 {
        lemma_filter_drops_one(s.drop_last(), pred, i);
    }
}

/// The checks of an add come in a fixed order: an empty name is reported
/// whatever the measurements are and whether or not the name is taken; a
/// measurement that is at most zero is reported whether or not the name is
/// taken; only then is a taken name reported. An add that is turned away
/// leaves the catalogue as it was.
pub proof fn lemma_add_checks_in_order(
    cat: Seq<FruitView>,
    name: Seq<char>,
    length: Dimension,
    width: Dimension,
    height: Dimension,
)
    ensures
        ({
            let outcome = add_outcome(cat, name, length, width, height);
            let measured = !length.at_most_zero() && !width.at_most_zero()
                && !height.at_most_zero();
            &&& trimmed(name).len() == 0 ==> outcome == AddOutcome::EmptyName
            &&& trimmed(name).len() > 0 && !measured ==> outcome
                == AddOutcome::NonPositiveDimension
            &&& trimmed(name).len() > 0 && measured && has_name(cat, trimmed(name)) ==> outcome
                == AddOutcome::Duplicate
            &&& trimmed(name).len() > 0 && measured && !has_name(cat, trimmed(name)) ==> outcome
                == AddOutcome::Added
            &&& outcome != AddOutcome::Added ==> after_add(cat, name, length, width, height)
                == cat
        }),
{
}

/// A fruit that was added is the one a lookup finds, under its trimmed name
/// in any case of its ASCII letters, and it holds the measurements it was
/// added with.
pub proof fn lemma_added_fruit_is_found(
    cat: Seq<FruitView>,
    name: Seq<char>,
    length: Dimension,
    width: Dimension,
    height: Dimension,
    query: Seq<char>,
)
    requires
        add_outcome(cat, name, length, width, height) == AddOutcome::Added,
        same_name(query, trimmed(name)),
    ensures
        ({
            let grown = after_add(cat, name, length, width, height);
            &&& grown.len() == cat.len() + 1
            &&& is_first_match(grown, query, cat.len() as int)
            &&& grown[cat.len() as int] == FruitView {
                name: trimmed(name),
                length,
                width,
                height,
            }
        }),
{
    // A fruit of the catalogue that answered to `query` would answer to the
    // trimmed name too, and the add would have been turned away.
    let grown = after_add(cat, name, length, width, height);
    assert forall|j: int| 0 <= j < cat.len() implies !same_name(
        (#[trigger] grown[j]).name,
        query,
    ) by {
        assert(grown[j] == cat[j]);
        assert(!same_name(cat[j].name, trimmed(name)));
    }
}

/// No two fruits of the seed catalogue have the same name.
pub proof fn lemma_seed_names_unique()
    ensures
        unique_names(seed_catalogue()),
{
    reveal_strlit("Orange");
    reveal_strlit("Apple");
    reveal_strlit("Banana");
    reveal_strlit("Pear");
    let cat = seed_catalogue();
    // Orange and Banana are of one length and differ in their first letter;
    // every other pair differs in length.
    assert(fold(cat[0].name)[0] != fold(cat[2].name)[0]);
    assert(fold(cat[0].name).len() == 6 && fold(cat[1].name).len() == 5);
    assert(fold(cat[2].name).len() == 6 && fold(cat[3].name).len() == 4);
}

/// Adding a fruit to a catalogue without repeated names leaves it without
/// repeated names.
pub proof fn lemma_add_keeps_names_unique(
    cat: Seq<FruitView>,
    name: Seq<char>,
    length: Dimension,
    width: Dimension,
    height: Dimension,
)
    requires
        unique_names(cat),
    ensures
        unique_names(after_add(cat, name, length, width, height)),
{
    let grown = after_add(cat, name, length, width, height);
    if add_outcome(cat, name, length, width, height) == AddOutcome::Added {
        assert forall|i: int, j: int| 0 <= i < j < grown.len() implies !same_name(
            (#[trigger] grown[i]).name,
            (#[trigger] grown[j]).name,
        ) by {
            if j == cat.len() {
                assert(grown[i] == cat[i]);
                assert(!same_name(cat[i].name, trimmed(name)));
            } else {
                assert(grown[i] == cat[i] && grown[j] == cat[j]);
            }
        }
    }
}

/// After a remove the catalogue has no fruit of the trimmed name, so that
/// removing the same name again finds nothing and changes nothing.
pub proof fn lemma_remove_leaves_no_match(cat: Seq<FruitView>, name: Seq<char>)
    ensures
        trimmed(name).len() > 0 ==> !has_name(after_remove(cat, name), trimmed(name)),
        remove_outcome(after_remove(cat, name), name) != RemoveOutcome::Removed,
        after_remove(after_remove(cat, name), name) == after_remove(cat, name),
{
    let key = trimmed(name);
    if key.len() > 0 {
        let keep = |fruit: FruitView| !same_name(fruit.name, key);
        let rest = cat.filter(keep);
        assert forall|i: int| 0 <= i < rest.len() implies keep(#[trigger] rest[i]) by {
            cat.lemma_filter_pred(keep, i);
        }
        lemma_filter_keeps_all(rest, keep);
    }
}

/// A remove that reports anything but `Removed` leaves the catalogue as it
/// was; one that reports `Removed` leaves it shorter.
pub proof fn lemma_remove_changes_only_on_success(cat: Seq<FruitView>, name: Seq<char>)
    ensures
        remove_outcome(cat, name) != RemoveOutcome::Removed ==> after_remove(cat, name) == cat,
        remove_outcome(cat, name) == RemoveOutcome::Removed ==> after_remove(cat, name).len()
            < cat.len(),
{
    let key = trimmed(name);
    if key.len() > 0 {
        let keep = |fruit: FruitView| !same_name(fruit.name, key);
        if has_name(cat, key) {
            let i = choose|i: int| 0 <= i < cat.len() && same_name((#[trigger] cat[i]).name, key);
            lemma_filter_drops_one(cat, keep, i);
        } else {
            lemma_filter_keeps_all(cat, keep);
        }
    }
}

/// Where exactly one fruit has the name, a remove takes out that fruit and
/// no other.
pub proof fn lemma_remove_takes_the_match(cat: Seq<FruitView>, name: Seq<char>, at: int)
    requires
        trimmed(name).len() > 0,
        0 <= at < cat.len(),
        forall|i: int|
            0 <= i < cat.len() ==> (same_name((#[trigger] cat[i]).name, trimmed(name)) <==> i
                == at),
    ensures
        remove_outcome(cat, name) == RemoveOutcome::Removed,
        after_remove(cat, name) == cat.remove(at),
{
    let key = trimmed(name);
    let keep = |fruit: FruitView| !same_name(fruit.name, key);
    let before = cat.subrange(0, at);
    let hit = seq![cat[at]];
    let behind = cat.subrange(at + 1, cat.len() as int);
    assert(cat =~= before + hit + behind);
    assert(cat.remove(at) =~= before + behind);
    lemma_filter_keeps_all(before, keep);
    lemma_filter_keeps_all(behind, keep);
    assert(hit.filter(keep) =~= Seq::<FruitView>::empty()) by {
        reveal(Seq::filter);
        Seq::<FruitView>::empty().lemma_filter_push(cat[at], keep);
        assert(Seq::<FruitView>::empty().push(cat[at]) =~= hit);
    }
    assert((before + hit + behind).filter(keep) =~= before + behind);
}

/// Removing a name from a catalogue without repeated names leaves it without
/// repeated names.
pub proof fn lemma_remove_keeps_names_unique(cat: Seq<FruitView>, name: Seq<char>)
    requires
        unique_names(cat),
    ensures
        unique_names(after_remove(cat, name)),
{
    let key = trimmed(name);
    if key.len() > 0 {
        lemma_filter_keeps_names_unique(cat, |fruit: FruitView| !same_name(fruit.name, key));
    }
}

/// Whatever a filter keeps of a catalogue without repeated names has no
/// repeated names.
proof fn lemma_filter_keeps_names_unique(cat: Seq<FruitView>, pred: spec_fn(FruitView) -> bool)
    requires
        unique_names(cat),
    ensures
        unique_names(cat.filter(pred)),
    decreases cat.len(),
{
    reveal(Seq::filter);
    if cat.len() > 0 {
        let front = cat.drop_last();
        let kept = front.filter(pred);
        assert(unique_names(front)) by {
            assert forall|i: int, j: int| 0 <= i < j < front.len() implies !same_name(
                (#[trigger] front[i]).name,
                (#[trigger] front[j]).name,
            ) by {
                assert(front[i] == cat[i] && front[j] == cat[j]);
            }
        }
        lemma_filter_keeps_names_unique(front, pred);
        if pred(cat.last()) {
            let all = kept.push(cat.last());
            assert forall|i: int, j: int| 0 <= i < j < all.len() implies !same_name(
                (#[trigger] all[i]).name,
                (#[trigger] all[j]).name,
            ) by {
                if j == kept.len() {
                    // What was kept of the front stands in the front, before
                    // the last fruit.
                    assert(kept.contains(kept[i]));
                    front.lemma_filter_contains_rev(pred, kept[i]);
                    let k = choose|k: int| 0 <= k < front.len() && front[k] == kept[i];
                    assert(cat[k] == kept[i]);
                    assert(!same_name(cat[k].name, cat[cat.len() - 1].name));
                } else {
                    assert(all[i] == kept[i] && all[j] == kept[j]);
                }
            }
        }
    }
}

/// A command asks for the catalogue to be written back exactly when it has
/// changed the catalogue.
pub proof fn lemma_saves_exactly_what_changed(
    cat: Seq<FruitView>,
    command: Command,
    outcome: Outcome,
)
    requires
        answers(cat, command, outcome),
    ensures
        outcome.saves() <==> after(cat, command) != cat,
{
    match command {
        Command::List => {},
        Command::Get { name } => {},
        Command::Add { name, length, width, height } => {
            if outcome.saves() {
                assert(after(cat, command).len() == cat.len() + 1);
            }
        },
        Command::Remove { name } => {
            lemma_remove_changes_only_on_success(cat, name@);
        },
    }
}

} // verus!
