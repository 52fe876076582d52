//! The concurrent maps that hold the metrics.
use dashmap::DashMap;
use vstd::prelude::*;

use crate::metrics::histogram::HistogramData;

verus! {

/// The concurrent hash map of the `dashmap` crate.
#[verifier::external_type_specification]
#[verifier::external_body]
#[verifier::reject_recursive_types(K)]
#[verifier::reject_recursive_types(V)]
#[verifier::reject_recursive_types(S)]
pub struct ExDashMap<K, V, S>(DashMap<K, V, S>);

/// The counters that a map holds, by name.
pub uninterp spec fn counters_of(map: DashMap<String, u64>) -> Map<Seq<char>, u64>;

/// The histograms that a map holds, by name.
pub uninterp spec fn histograms_of(map: DashMap<String, HistogramData>) -> Map<
    Seq<char>,
    HistogramData,
>;

/// Whether a list holds every entry of a map once, in any order.
pub open spec fn lists<V>(entries: Seq<(String, V)>, contents: Map<Seq<char>, V>) -> bool {
    &&& forall|i: int|
        0 <= i < entries.len() ==> contents.contains_key((#[trigger] entries[i]).0@)
            && contents[entries[i].0@] == entries[i].1
    &&& forall|i: int, j: int|
        0 <= i < j < entries.len() ==> (#[trigger] entries[i]).0@ != (#[trigger] entries[j]).0@
    &&& forall|name: Seq<char>| #[trigger]
        contents.contains_key(name) ==> exists|i: int|
            0 <= i < entries.len() && (#[trigger] entries[i]).0@ == name
}

/// The value under a name, or `first` where there is none.
pub open spec fn value_or<V>(contents: Map<Seq<char>, V>, name: Seq<char>, first: V) -> V {
    if contents.contains_key(name) {
        contents[name]
    } else {
        first
    }
}

/// `DashMap::new` makes a map that holds nothing.
#[verifier::external_body]
pub(crate) fn new_counters() -> (map: DashMap<String, u64>)
    ensures
        (counters_of(map) == Map::<Seq<char>, u64>::empty()),
{
    DashMap::new()
}

/// `DashMap::new` makes a map that holds nothing.
#[verifier::external_body]
pub(crate) fn new_histograms() -> (map: DashMap<String, HistogramData>)
    ensures
        (histograms_of(map) == Map::<Seq<char>, HistogramData>::empty()),
{
    DashMap::new()
}

/// `DashMap::get` finds the value under a name, and nothing where the map does not hold the
/// name.
#[verifier::external_body]
pub(crate) fn get_counter(map: &DashMap<String, u64>, name: &str) -> (value: Option<u64>)
    ensures
        value == (if counters_of(*map).contains_key(name@) {
            Some(counters_of(*map)[name@])
        } else {
            None
        }),
{
    map.get(name).map(|entry| *entry.value())
}

/// `DashMap::get` finds the value under a name, and nothing where the map does not hold the
/// name.
#[verifier::external_body]
pub(crate) fn get_histogram(map: &DashMap<String, HistogramData>, name: &str) -> (value: Option<
    HistogramData,
>)
    ensures
        value == (if histograms_of(*map).contains_key(name@) {
            Some(histograms_of(*map)[name@])
        } else {
            None
        }),
{
    map.get(name).map(|entry| *entry.value())
}

/// `DashMap::entry`, followed by `Entry::or_insert`, locks the value under a name, after putting
/// `first` there where the map does not hold the name. `step` then makes the new value from the
/// value found, under the same lock. No other name changes.
#[verifier::external_body]
pub(crate) fn update_counter<F: FnOnce(u64) -> u64>(
    map: &mut DashMap<String, u64>,
    name: String,
    first: u64,
    step: F,
)
    requires
        forall|value: u64| call_requires(step, (value,)),
    ensures
        exists|value: u64|
            {
                &&& call_ensures(step, (value_or(counters_of(*old(map)), name@, first),), value)
                &&& counters_of(*final(map)) == #[trigger] counters_of(*old(map)).insert(
                    name@,
                    value,
                )
            },
{
    let mut slot = map.entry(name).or_insert(first);
    *slot = step(*slot);
}

/// `DashMap::entry`, followed by `Entry::or_insert`, locks the value under a name, after putting
/// `first` there where the map does not hold the name. `step` then makes the new value from the
/// value found, under the same lock. No other name changes.
#[verifier::external_body]
pub(crate) fn update_histogram<F: FnOnce(HistogramData) -> HistogramData>(
    map: &mut DashMap<String, HistogramData>,
    name: String,
    first: HistogramData,
    step: F,
)
    requires
        forall|value: HistogramData| call_requires(step, (value,)),
    ensures
        exists|value: HistogramData|
            {
                &&& call_ensures(step, (value_or(histograms_of(*old(map)), name@, first),), value)
                &&& histograms_of(*final(map)) == #[trigger] histograms_of(*old(map)).insert(
                    name@,
                    value,
                )
            },
{
    let mut slot = map.entry(name).or_insert(first);
    *slot = step(*slot);
}

/// `DashMap::iter` hands out every entry once, in an order that is not known.
#[verifier::external_body]
pub(crate) fn counter_entries(map: &DashMap<String, u64>) -> (entries: Vec<(String, u64)>)
    ensures
        lists(entries@, counters_of(*map)),
{
    map.iter().map(|entry| (entry.key().clone(), *entry.value())).collect()
}

/// `DashMap::iter` hands out every entry once, in an order that is not known.
#[verifier::external_body]
pub(crate) fn histogram_entries(map: &DashMap<String, HistogramData>) -> (entries: Vec<
    (String, HistogramData),
>)
    ensures
        lists(entries@, histograms_of(*map)),
{
    map.iter().map(|entry| (entry.key().clone(), *entry.value())).collect()
}

} // verus!
