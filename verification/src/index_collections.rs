//! The insertion-ordered collections of the `indexmap` crate, as the coverage
//! report uses them: a set of category names and a map from function names
//! to their category index and coverage.

use core::cmp::Ordering;
use indexmap::{IndexMap, IndexSet};
use vstd::prelude::*;

verus! {

#[verifier::external_type_specification]
#[verifier::external_body]
#[verifier::reject_recursive_types(T)]
#[verifier::reject_recursive_types(S)]
pub struct ExIndexSet<T, S>(IndexSet<T, S>);

#[verifier::external_type_specification]
#[verifier::external_body]
#[verifier::reject_recursive_types(K)]
#[verifier::reject_recursive_types(V)]
#[verifier::reject_recursive_types(S)]
pub struct ExIndexMap<K, V, S>(IndexMap<K, V, S>);

/// The set of category names, in the order they were first inserted.
pub type CategorySet = IndexSet<String>;

/// Each function name with the index of its category and whether the
/// bindings cover it, in insertion order.
pub type FunctionMap = IndexMap<String, (usize, bool)>;

/// The items of a category set, in order.
pub uninterp spec fn category_items(set: CategorySet) -> Seq<Seq<char>>;

/// The entries of a function map, in order.
pub uninterp spec fn function_entries(map: FunctionMap) -> Seq<(Seq<char>, (usize, bool))>;

/// Whether no two entries have the same key.
pub open spec fn keys_distinct(entries: Seq<(Seq<char>, (usize, bool))>) -> bool {
    forall|i: int, j: int|
        0 <= i < entries.len() && 0 <= j < entries.len() && i != j ==> entries[i].0 != entries[j].0
}

/// Whether some entry has the key `key`.
pub open spec fn has_key(entries: Seq<(Seq<char>, (usize, bool))>, key: Seq<char>) -> bool {
    exists|i: int| 0 <= i < entries.len() && entries[i].0 == key
}

/// The index of an entry with the key `key` (meaningful where `has_key`).
pub open spec fn key_position(entries: Seq<(Seq<char>, (usize, bool))>, key: Seq<char>) -> int {
    choose|i: int| 0 <= i < entries.len() && entries[i].0 == key
}

/// Whether `after` is `before` sorted by category index, stably: the same
/// entries, categories never decreasing, and entries of one category in the
/// order they had.
pub open spec fn is_stable_sort_by_category(
    before: Seq<(Seq<char>, (usize, bool))>,
    after: Seq<(Seq<char>, (usize, bool))>,
) -> bool {
    &&& after.len() == before.len()
    &&& after.to_multiset() == before.to_multiset()
    &&& forall|i: int, j: int| 0 <= i < j < after.len() ==> after[i].1.0 <= after[j].1.0
    &&& forall|i: int, j: int|
        0 <= i < j < after.len() && after[i].1.0 == after[j].1.0 ==> key_position(before, after[i].0)
            < key_position(before, after[j].0)
}

/// `IndexSet::new`: an empty set.
#[verifier::external_body]
pub(crate) fn new_category_set() -> (res: CategorySet)
    ensures
        category_items(res) == Seq::<Seq<char>>::empty(),
{
    IndexSet::new()
}

/// `IndexSet::len`: the number of items.
#[verifier::external_body]
pub(crate) fn category_count(set: &CategorySet) -> (res: usize)
    ensures
        res == category_items(*set).len(),
{
    set.len()
}

/// `IndexSet::get_index`: the item at `index`, where there is one.
#[verifier::external_body]
pub(crate) fn category_at(set: &CategorySet, index: usize) -> (res: Option<&String>)
    ensures
        res is Some <==> index < category_items(*set).len(),
        res matches Some(s) ==> s@ == category_items(*set)[index as int],
{
    set.get_index(index)
}

/// `IndexSet::insert_full`: where an equal item is in the set, its index and
/// `false`, the set unchanged; otherwise the value goes last, and its index
/// and `true` come back. A set never holds two equal items.
#[verifier::external_body]
pub(crate) fn insert_category(set: &mut CategorySet, value: String) -> (res: (usize, bool))
    ensures
        category_items(*final(set)).no_duplicates(),
        category_items(*old(set)).contains(value@) ==> {
            &&& !res.1
            &&& res.0 < category_items(*old(set)).len()
            &&& category_items(*old(set))[res.0 as int] == value@
            &&& category_items(*final(set)) == category_items(*old(set))
        },
        !category_items(*old(set)).contains(value@) ==> {
            &&& res.0 == category_items(*old(set)).len()
            &&& res.1
            &&& category_items(*final(set)) == category_items(*old(set)).push(value@)
        },
{
    set.insert_full(value)
}

/// `IndexMap::new`: an empty map.
#[verifier::external_body]
pub(crate) fn new_function_map() -> (res: FunctionMap)
    ensures
        function_entries(res) == Seq::<(Seq<char>, (usize, bool))>::empty(),
{
    IndexMap::new()
}

/// `IndexMap::len`: the number of entries.
#[verifier::external_body]
pub(crate) fn function_count(map: &FunctionMap) -> (res: usize)
    ensures
        res == function_entries(*map).len(),
{
    map.len()
}

/// `IndexMap::get_index`: the entry at `index`, where there is one.
#[verifier::external_body]
pub(crate) fn function_at(map: &FunctionMap, index: usize) -> (res: Option<(&String, &(usize, bool))>)
    ensures
        res is Some <==> index < function_entries(*map).len(),
        res matches Some((k, v)) ==> k@ == function_entries(*map)[index as int].0 && *v
            == function_entries(*map)[index as int].1,
{
    map.get_index(index)
}

/// `IndexMap::contains_key`: whether an entry has the key.
#[verifier::external_body]
pub(crate) fn has_function(map: &FunctionMap, key: &str) -> (res: bool)
    ensures
        res == has_key(function_entries(*map), key@),
{
    map.contains_key(key)
}

/// `IndexMap::insert`: where an entry has the key, its value is replaced in
/// place and the old value comes back; otherwise the entry goes last and
/// `None` comes back. A map never holds two entries with one key.
#[verifier::external_body]
pub(crate) fn insert_function(map: &mut FunctionMap, key: String, value: (usize, bool)) -> (res: Option<
    (usize, bool),
>)
    ensures
        keys_distinct(function_entries(*final(map))),
        has_key(function_entries(*old(map)), key@) ==> {
            let i = key_position(function_entries(*old(map)), key@);
            &&& res == Some(function_entries(*old(map))[i].1)
            &&& function_entries(*final(map)) == function_entries(*old(map)).update(
                i,
                (key@, value),
            )
        },
        !has_key(function_entries(*old(map)), key@) ==> {
            &&& res is None
            &&& function_entries(*final(map)) == function_entries(*old(map)).push((key@, value))
        },
{
    map.insert(key, value)
}

/// Orders two entries' values by their category index.
pub fn compare_category(a: &(usize, bool), b: &(usize, bool)) -> (res: Ordering)
    ensures
        (res == Ordering::Less) == (a.0 < b.0),
        (res == Ordering::Equal) == (a.0 == b.0),
        (res == Ordering::Greater) == (a.0 > b.0),
{
    if a.0 < b.0 {
        Ordering::Less
    } else if a.0 == b.0 {
        Ordering::Equal
    } else {
        Ordering::Greater
    }
}

/// `IndexMap::sort_by`, comparing category indices: a stable sort.
#[verifier::external_body]
pub(crate) fn sort_by_category(map: &mut FunctionMap)
    ensures
        keys_distinct(function_entries(*final(map))),
        is_stable_sort_by_category(function_entries(*old(map)), function_entries(*final(map))),
{
    map.sort_by(|_, a, _, b| compare_category(a, b))
}

} // verus!
