//! Tables from names to values, kept as lists of bindings. A later binding of
//! a name hides an earlier one, as an insertion into a map replaces a value.

use vstd::prelude::*;

verus! {

/// The map that a list of bindings stands for.
pub open spec fn table_of<V: View>(entries: Seq<(String, V)>) -> Map<Seq<char>, V::V>
    decreases entries.len(),
{
    if entries.len() == 0 {
        Map::empty()
    } else {
        table_of(entries.drop_last()).insert(entries.last().0@, entries.last().1@)
    }
}

/// Binding one more name inserts it into the map.
pub proof fn lemma_table_push<V: View>(entries: Seq<(String, V)>, name: String, value: V)
    ensures
        table_of(entries.push((name, value))) == table_of(entries).insert(name@, value@),
{
    assert(entries.push((name, value)).drop_last() =~= entries);
}

/// A name that no binding after position `upto` carries is looked up among
/// the first `upto` bindings.
pub proof fn lemma_table_prefix<V: View>(entries: Seq<(String, V)>, name: Seq<char>, upto: int)
    requires
        0 <= upto <= entries.len(),
        forall|j: int| upto <= j < entries.len() ==> (#[trigger] entries[j]).0@ != name,
    ensures
        table_of(entries).contains_key(name) == table_of(entries.take(upto)).contains_key(name),
        table_of(entries).contains_key(name) ==> table_of(entries)[name] == table_of(
            entries.take(upto),
        )[name],
    decreases entries.len() - upto,
{
    if upto == entries.len() {
        assert(entries.take(upto) =~= entries);
    } else {
        let shorter = entries.drop_last();
        assert(entries.last() == entries[entries.len() - 1]);
        assert forall|j: int| upto <= j < shorter.len() implies (#[trigger] shorter[j]).0@
            != name by {
            assert(shorter[j] == entries[j]);
        }
        lemma_table_prefix(shorter, name, upto);
        assert(shorter.take(upto) =~= entries.take(upto));
    }
}

/// Looks a name up in a list of bindings.
pub fn find<'a, V: View>(entries: &'a Vec<(String, V)>, name: &String) -> (r: Option<&'a V>)
    ensures
        match r {
            Some(v) => table_of(entries@).contains_key(name@) && table_of(entries@)[name@] == v@,
            None => !table_of(entries@).contains_key(name@),
        },
{
    let mut i: usize = entries.len();
    while i > 0
        invariant
            i <= entries.len(),
            forall|j: int| i <= j < entries.len() ==> (#[trigger] entries@[j]).0@ != name@,
        decreases i,
    {
        i -= 1;
        if entries[i].0 == *name {
            proof {
                lemma_table_prefix(entries@, name@, i + 1);
                assert(entries@.take(i + 1).drop_last() =~= entries@.take(i as int));
                assert(entries@.take(i + 1).last() == entries@[i as int]);
            }
            return Some(&entries[i].1);
        }
    }
    proof {
        lemma_table_prefix(entries@, name@, 0);
    }
    None
}

} // verus!
