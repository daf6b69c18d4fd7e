//! The macros that are defined at some point of a file, in the order in
//! which they were defined, and their replacement in text.

use vstd::prelude::*;
use indexmap::IndexMap;

verus! {

/// The map from identifiers to replacements, which keeps the order of
/// insertion. Nothing is known of its inside.
#[verifier::external_type_specification]
#[verifier::external_body]
#[verifier::reject_recursive_types(K)]
#[verifier::reject_recursive_types(V)]
#[verifier::reject_recursive_types(S)]
pub struct ExIndexMap<K, V, S>(IndexMap<K, V, S>);

/// What a map of definitions holds: identifiers with their replacements, in
/// the map's order.
pub uninterp spec fn definitions_of(definitions: IndexMap<String, String>) -> Seq<
    (Seq<char>, Seq<char>),
>;

/// The position of the first entry with the identifier, if there is one.
pub open spec fn position_of(entries: Seq<(Seq<char>, Seq<char>)>, identifier: Seq<char>) -> Option<
    int,
>
    decreases entries.len(),
{
    if entries.len() == 0 {
        None
    } else {
        match position_of(entries.drop_last(), identifier) {
            Some(i) => Some(i),
            None => if entries.last().0 == identifier {
                Some(entries.len() - 1)
            } else {
                None
            },
        }
    }
}

/// The entries without those of the identifier, the others in their order.
pub open spec fn without(entries: Seq<(Seq<char>, Seq<char>)>, identifier: Seq<char>) -> Seq<
    (Seq<char>, Seq<char>),
>
    decreases entries.len(),
{
    if entries.len() == 0 {
        entries
    } else if entries.last().0 == identifier {
        without(entries.drop_last(), identifier)
    } else {
        without(entries.drop_last(), identifier).push(entries.last())
    }
}

/// The entries after a definition of the identifier: a replacement that was
/// there is overwritten in its place, a new one comes last.
pub open spec fn defined(
    entries: Seq<(Seq<char>, Seq<char>)>,
    identifier: Seq<char>,
    replacement: Seq<char>,
) -> Seq<(Seq<char>, Seq<char>)> {
    match position_of(entries, identifier) {
        Some(i) => entries.update(i, (entries[i].0, replacement)),
        None => entries.push((identifier, replacement)),
    }
}

/// The text with every occurrence of `from` replaced by `to`. Occurrences are
/// found from the left and do not overlap. An empty `from` occurs before
/// every character and at the end.
pub open spec fn replaced(text: Seq<char>, from: Seq<char>, to: Seq<char>) -> Seq<char>
    decreases text.len(),
{
    if from.len() == 0 {
        if text.len() == 0 {
            to
        } else {
            to + seq![text[0]] + replaced(text.skip(1), from, to)
        }
    } else if text.len() < from.len() {
        text
    } else if text.take(from.len() as int) == from {
        to + replaced(text.skip(from.len() as int), from, to)
    } else {
        seq![text[0]] + replaced(text.skip(1), from, to)
    }
}

/// `IndexMap::new`: a map that holds nothing.
#[verifier::external_body]
pub(crate) fn no_definitions() -> (r: IndexMap<String, String>)
    ensures
        definitions_of(r) == Seq::<(Seq<char>, Seq<char>)>::empty(),
{
    IndexMap::new()
}

/// `IndexMap::contains_key`: whether the map holds an entry with the
/// identifier.
#[verifier::external_body]
pub(crate) fn is_defined(definitions: &IndexMap<String, String>, identifier: &String) -> (r: bool)
    ensures
        r == (position_of(definitions_of(*definitions), identifier@) is Some),
{
    definitions.contains_key(identifier)
}

/// `IndexMap::shift_remove`: the entry with the identifier leaves the map,
/// and the entries behind it move up by one, in their order.
#[verifier::external_body]
pub(crate) fn undefine(definitions: &mut IndexMap<String, String>, identifier: &String)
    ensures
        definitions_of(*final(definitions)) == without(
            definitions_of(*old(definitions)),
            identifier@,
        ),
{
    definitions.shift_remove(identifier);
}

/// `IndexMap::insert`: where the identifier is in the map, its replacement
/// is overwritten and the entry keeps its place; where it is not, the new
/// entry comes last.
#[verifier::external_body]
pub(crate) fn define(
    definitions: &mut IndexMap<String, String>,
    identifier: String,
    replacement: String,
)
    ensures
        definitions_of(*final(definitions)) == defined(
            definitions_of(*old(definitions)),
            identifier@,
            replacement@,
        ),
{
    definitions.insert(identifier, replacement);
}

/// `IndexMap::iter`: the entries of the map in its order.
#[verifier::external_body]
pub(crate) fn in_order<'a>(definitions: &'a IndexMap<String, String>) -> (r: Vec<
    (&'a String, &'a String),
>)
    ensures
        r@.len() == definitions_of(*definitions).len(),
        forall|i: int|
            0 <= i < r@.len() ==> (#[trigger] r@[i]).0@ == definitions_of(*definitions)[i].0
                && r@[i].1@ == definitions_of(*definitions)[i].1,
{
    definitions.iter().collect()
}

/// `str::replace`: the text with every occurrence of `from` replaced by
/// `to`, the occurrences found from the left and not overlapping.
#[verifier::external_body]
pub(crate) fn replace_all(text: &str, from: &str, to: &str) -> (r: String)
    ensures
        r@ == replaced(text@, from@, to@),
{
    text.replace(from, to)
}

/// The text after the first `upto` definitions were applied to it, each to
/// what the one before it left.
pub open spec fn applied(entries: Seq<(Seq<char>, Seq<char>)>, input: Seq<char>, upto: int) -> Seq<
    char,
>
    decreases upto,
{
    if upto <= 0 || upto > entries.len() {
        input
    } else {
        replaced(applied(entries, input, upto - 1), entries[upto - 1].0, entries[upto - 1].1)
    }
}

/// Replaces the macros in a text: each definition, in the order of the
/// definitions, replaces every occurrence of its identifier in what the
/// definitions before it have left.
pub fn apply_definitions(definitions: &IndexMap<String, String>, input: &str) -> (r: String)
    ensures
        r@ == applied(
            definitions_of(*definitions),
            input@,
            definitions_of(*definitions).len() as int,
        ),
{
    let entries = in_order(definitions);
    let mut output = input.to_owned();
    let mut i: usize = 0;
    while i < entries.len()
        invariant
            i <= entries.len(),
            entries@.len() == definitions_of(*definitions).len(),
            forall|j: int|
                0 <= j < entries@.len() ==> (#[trigger] entries@[j]).0@ == definitions_of(
                    *definitions,
                )[j].0 && entries@[j].1@ == definitions_of(*definitions)[j].1,
            output@ == applied(definitions_of(*definitions), input@, i as int),
        decreases entries.len() - i,
    {
        output = replace_all(output.as_str(), entries[i].0.as_str(), entries[i].1.as_str());
        i += 1;
    }
    output
}

} // verus!
