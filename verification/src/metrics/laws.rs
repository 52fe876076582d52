//! What holds of the metrics over many operations.
use std::time::Duration;
use vstd::prelude::*;
use vstd::seq_lib::commutative_foldl;
use vstd::seq_lib::lemma_fold_left_permutation;

use crate::metrics::clock::duration_nanos;
use crate::metrics::clock::elapsed_by;
use crate::metrics::clock::whole_secs;
use crate::metrics::histogram::wrapping_sum;
use crate::metrics::histogram::HistogramData;
use crate::metrics::histogram::HistogramStats;
use crate::metrics::json::Json;
use crate::metrics::model::stats_json;
use crate::metrics::model::Metrics;
use crate::metrics::registry::MetricsRegistry;
use crate::metrics::store::value_or;

verus! {

/// One operation that adds to the metrics.
pub enum Event {
    Increment { name: Seq<char>, amount: u64 },
    Observation { name: Seq<char>, millis: u64 },
}

/// The metrics after one event.
pub open spec fn after(metrics: Metrics, event: Event) -> Metrics {
    match event {
        Event::Increment { name, amount } => metrics.increment(name, amount),
        Event::Observation { name, millis } => metrics.observe(name, millis),
    }
}

/// The metrics after a series of events.
pub open spec fn after_all(metrics: Metrics, events: Seq<Event>) -> Metrics {
    events.fold_left(metrics, |m: Metrics, event: Event| after(m, event))
}

/// The sum of what a series of events adds to a counter.
pub open spec fn total(events: Seq<Event>, name: Seq<char>) -> nat
    decreases events.len(),
{
    if events.len() == 0 {
        0
    } else {
        total(events.drop_last(), name) + match events.last() {
            Event::Increment { name: of, amount } => if of == name {
                amount as nat
            } else {
                0
            },
            Event::Observation { .. } => 0,
        }
    }
}

/// Whether an event increments a counter.
pub open spec fn increments(event: Event, name: Seq<char>) -> bool {
    event matches Event::Increment { name: of, .. } && of == name
}

/// The durations that a series of events records under a name.
pub open spec fn observations(events: Seq<Event>, name: Seq<char>) -> Seq<u64>
    decreases events.len(),
{
    if events.len() == 0 {
        Seq::empty()
    } else {
        let earlier = observations(events.drop_last(), name);
        match events.last() {
            Event::Observation { name: of, millis } => if of == name {
                earlier.push(millis)
            } else {
                earlier
            },
            Event::Increment { .. } => earlier,
        }
    }
}

/// The totals of a histogram after a series of observations.
pub open spec fn recorded(data: HistogramData, observed: Seq<u64>) -> HistogramData
    decreases observed.len(),
{
    if observed.len() == 0 {
        data
    } else {
        recorded(data, observed.drop_last()).with(observed.last())
    }
}

/// The sum of a series of durations.
pub open spec fn sum(observed: Seq<u64>) -> nat
    decreases observed.len(),
{
    if observed.len() == 0 {
        0
    } else {
        sum(observed.drop_last()) + observed.last() as nat
    }
}

proof fn sums_commute(n: u64, a: u64, b: u64)
    ensures
        wrapping_sum(wrapping_sum(n, a), b) == wrapping_sum(wrapping_sum(n, b), a),
{
}

proof fn observations_commute(data: HistogramData, a: u64, b: u64)
    ensures
        data.with(a).with(b) == data.with(b).with(a),
{
    sums_commute(data.sum_ms, a, b);
}

/// The order of two events does not matter.
pub proof fn events_commute(metrics: Metrics, a: Event, b: Event)
    ensures
        after(after(metrics, a), b) == after(after(metrics, b), a),
{
    let one = after(after(metrics, a), b);
    let other = after(after(metrics, b), a);
    match (a, b) {
        (
            Event::Increment { name: m, amount: x },
            Event::Increment { name: n, amount: y },
        ) => {
            if m == n {
                sums_commute(metrics.counter(m), x, y);
            }
            assert(one.counters =~= other.counters);
        },
        (
            Event::Observation { name: m, millis: x },
            Event::Observation { name: n, millis: y },
        ) => {
            if m == n {
                observations_commute(
                    value_or(metrics.histograms, m, HistogramData::unobserved()),
                    x,
                    y,
                );
            }
            assert(one.histograms =~= other.histograms);
        },
        _ => {},
    }
}

/// The order of the events does not matter: whichever way the operations of several threads
/// interleave, the metrics come out the same, and no operation is lost.
pub proof fn every_interleaving_gives_the_same_metrics(
    metrics: Metrics,
    events: Seq<Event>,
    interleaved: Seq<Event>,
)
    requires
        events.to_multiset() == interleaved.to_multiset(),
    ensures
        after_all(metrics, events) == after_all(metrics, interleaved),
{
    let step = |m: Metrics, event: Event| after(m, event);
    assert forall|a: Event, b: Event, m: Metrics| #[trigger]
        step(step(m, a), b) == step(step(m, b), a) by {
        events_commute(m, a, b);
    }
    assert(commutative_foldl(step));
    lemma_fold_left_permutation(events, interleaved, step, metrics);
}

/// A counter holds the sum of all increments, as far as 64 bits hold it, and its name is there
/// once there is one.
pub proof fn counter_is_the_total_of_its_increments(
    metrics: Metrics,
    events: Seq<Event>,
    name: Seq<char>,
)
    ensures
        after_all(metrics, events).counter(name) == (metrics.counter(name) + total(events, name))
            % 0x1_0000_0000_0000_0000,
        after_all(metrics, events).counters.contains_key(name) <==> (metrics.counters.contains_key(
            name,
        ) || exists|i: int| 0 <= i < events.len() && increments(#[trigger] events[i], name)),
    decreases events.len(),
{
    if events.len() > 0 {
        let earlier = events.drop_last();
        counter_is_the_total_of_its_increments(metrics, earlier, name);
        let last = events.len() - 1;
        assert(events[last] == events.last());
        if exists|i: int| 0 <= i < earlier.len() && increments(#[trigger] earlier[i], name) {
            let i = choose|i: int| 0 <= i < earlier.len() && increments(#[trigger] earlier[i], name);
            assert(increments(events[i], name));
        }
        if exists|i: int| 0 <= i < events.len() && increments(#[trigger] events[i], name) {
            let i = choose|i: int| 0 <= i < events.len() && increments(#[trigger] events[i], name);
            if i < last {
                assert(increments(earlier[i], name));
            }
        }
    }
}

/// A histogram holds what its observations make of it, and exists once there is one.
pub proof fn histogram_is_made_of_its_observations(
    metrics: Metrics,
    events: Seq<Event>,
    name: Seq<char>,
)
    ensures
        value_or(after_all(metrics, events).histograms, name, HistogramData::unobserved())
            == recorded(
            value_or(metrics.histograms, name, HistogramData::unobserved()),
            observations(events, name),
        ),
        after_all(metrics, events).histograms.contains_key(name) <==> (
        metrics.histograms.contains_key(name) || observations(events, name).len() > 0),
    decreases events.len(),
{
    if events.len() > 0 {
        let earlier = events.drop_last();
        histogram_is_made_of_its_observations(metrics, earlier, name);
        match events.last() {
            Event::Observation { name: of, millis } => {
                if of == name {
                    assert(observations(events, name).drop_last() =~= observations(earlier, name));
                }
            },
            Event::Increment { .. } => {},
        }
    }
}

/// The totals of a series of observations: their number and their sum, as far as 64 bits hold
/// them, and the least and the greatest of them.
pub proof fn totals_of_observations(observed: Seq<u64>)
    ensures
        ({
            let data = recorded(HistogramData::unobserved(), observed);
            &&& data.count == observed.len() % 0x1_0000_0000_0000_0000
            &&& data.sum_ms == sum(observed) % 0x1_0000_0000_0000_0000
            &&& forall|i: int|
                0 <= i < observed.len() ==> data.min_ms <= #[trigger] observed[i] <= data.max_ms
            &&& observed.len() > 0 ==> observed.contains(data.min_ms) && observed.contains(
                data.max_ms,
            )
        }),
    decreases observed.len(),
{
    if observed.len() > 0 {
        let earlier = observed.drop_last();
        totals_of_observations(earlier);
        let before = recorded(HistogramData::unobserved(), earlier);
        let data = recorded(HistogramData::unobserved(), observed);
        assert forall|i: int| 0 <= i < observed.len() implies data.min_ms <= #[trigger] observed[i]
            <= data.max_ms by {
            if i < earlier.len() {
                assert(observed[i] == earlier[i]);
            }
        }
        assert(observed[observed.len() - 1] == observed.last());
        if earlier.len() > 0 {
            let low = choose|i: int| 0 <= i < earlier.len() && earlier[i] == before.min_ms;
            assert(observed[low] == before.min_ms);
            let high = choose|i: int| 0 <= i < earlier.len() && earlier[i] == before.max_ms;
            assert(observed[high] == before.max_ms);
        }
    }
}

proof fn sum_is_between(observed: Seq<u64>, low: u64, high: u64)
    requires
        forall|i: int| 0 <= i < observed.len() ==> low <= #[trigger] observed[i] <= high,
    ensures
        observed.len() * low <= sum(observed) <= observed.len() * high,
    decreases observed.len(),
{
    if observed.len() > 0 {
        let earlier = observed.drop_last();
        assert forall|i: int| 0 <= i < earlier.len() implies low <= #[trigger] earlier[i]
            <= high by {
            assert(earlier[i] == observed[i]);
        }
        sum_is_between(earlier, low, high);
        assert(low <= observed[observed.len() - 1] <= high);
        let n = earlier.len();
        assert((n + 1) * low == n * low + low) by (nonlinear_arith);
        assert((n + 1) * high == n * high + high) by (nonlinear_arith);
    } else {
        assert(observed.len() * low == 0 && observed.len() * high == 0) by (nonlinear_arith)
            requires
                observed.len() == 0,
        ;
    }
}

/// As long as 64 bits hold the number and the sum of the observations, the average is their
/// mean, rounded down, and lies between the least and the greatest of them.
pub proof fn average_lies_between_the_extremes(observed: Seq<u64>)
    requires
        observed.len() > 0,
        observed.len() < 0x1_0000_0000_0000_0000,
        sum(observed) < 0x1_0000_0000_0000_0000,
    ensures
        ({
            let stats = recorded(HistogramData::unobserved(), observed).summary();
            &&& stats.avg_ms == sum(observed) / observed.len()
            &&& stats.min_ms <= stats.avg_ms <= stats.max_ms
        }),
{
    let data = recorded(HistogramData::unobserved(), observed);
    totals_of_observations(observed);
    sum_is_between(observed, data.min_ms, data.max_ms);
    let n = observed.len() as int;
    let low = data.min_ms as int;
    let high = data.max_ms as int;
    let whole = sum(observed) as int;
    assert(low <= whole / n <= high) by (nonlinear_arith)
        requires
            n > 0,
            n * low <= whole <= n * high,
    ;
}

/// Incrementing a counter leaves every other counter and every histogram alone.
pub proof fn increments_are_independent(
    metrics: Metrics,
    name: Seq<char>,
    amount: u64,
    other: Seq<char>,
)
    ensures
        metrics.increment(name, amount).counter(name) == wrapping_sum(metrics.counter(name), amount),
        other != name ==> metrics.increment(name, amount).counter(other) == metrics.counter(other),
        metrics.increment(name, amount).stats(other) == metrics.stats(other),
{
}

/// An observation leaves every counter and every other histogram alone.
pub proof fn observations_are_independent(
    metrics: Metrics,
    name: Seq<char>,
    millis: u64,
    other: Seq<char>,
)
    ensures
        metrics.observe(name, millis).counter(other) == metrics.counter(other),
        metrics.observe(name, millis).stats(name) is Some,
        other != name ==> metrics.observe(name, millis).stats(other) == metrics.stats(other),
{
}

/// After a reset every counter reads 0, and every histogram is still there with nothing
/// observed.
pub proof fn reset_clears_every_metric(metrics: Metrics, name: Seq<char>)
    ensures
        metrics.reset().counter(name) == 0,
        metrics.reset().stats(name) == (if metrics.stats(name) is Some {
            Some(HistogramStats { count: 0, sum_ms: 0, avg_ms: 0, min_ms: u64::MAX, max_ms: 0 })
        } else {
            None
        }),
        metrics.reset().counters.dom() == metrics.counters.dom(),
        metrics.reset().histograms.dom() == metrics.histograms.dom(),
        metrics.reset().reset() == metrics.reset(),
{
    assert(metrics.reset().counters.dom() =~= metrics.counters.dom());
    assert(metrics.reset().histograms.dom() =~= metrics.histograms.dom());
    assert(metrics.reset().reset() =~= metrics.reset());
}

/// After a reset the metrics count and observe as those of a registry that was just made.
pub proof fn metrics_start_over_after_reset(metrics: Metrics, events: Seq<Event>, name: Seq<char>)
    ensures
        after_all(metrics.reset(), events).counter(name) == after_all(
            Metrics::none(),
            events,
        ).counter(name),
        observations(events, name).len() > 0 ==> after_all(metrics.reset(), events).stats(name)
            == after_all(Metrics::none(), events).stats(name),
{
    counter_is_the_total_of_its_increments(metrics.reset(), events, name);
    counter_is_the_total_of_its_increments(Metrics::none(), events, name);
    histogram_is_made_of_its_observations(metrics.reset(), events, name);
    histogram_is_made_of_its_observations(Metrics::none(), events, name);
}

/// The export holds the uptime, every counter with the value that it reads, and every histogram
/// with its statistics, and no other names.
pub proof fn export_agrees_with_the_readings(metrics: Metrics, uptime_seconds: u64)
    ensures
        metrics.json(uptime_seconds) matches Json::Object(members) && {
            &&& members.dom() == set!["uptime_seconds"@, "counters"@, "histograms"@]
            &&& members["uptime_seconds"@] == Json::Number(uptime_seconds)
            &&& members["counters"@] matches Json::Object(counters) && {
                &&& counters.dom() == metrics.counters.dom()
                &&& forall|name: Seq<char>| #[trigger]
                    counters.contains_key(name) ==> counters[name] == Json::Number(
                        metrics.counter(name),
                    )
            }
            &&& members["histograms"@] matches Json::Object(histograms) && {
                &&& histograms.dom() == metrics.histograms.dom()
                &&& forall|name: Seq<char>| #[trigger]
                    histograms.contains_key(name) ==> metrics.stats(name) is Some
                        && histograms[name] == stats_json(metrics.stats(name)->0)
            }
        },
{
    reveal_strlit("uptime_seconds");
    reveal_strlit("counters");
    reveal_strlit("histograms");
    let members = metrics.json(uptime_seconds)->Object_0;
    assert(members.dom() =~= set!["uptime_seconds"@, "counters"@, "histograms"@]);
    assert("uptime_seconds"@.len() == 14 && "counters"@.len() == 8 && "histograms"@.len() == 10);
    let counters = members["counters"@]->Object_0;
    assert(counters.dom() =~= metrics.counters.dom());
    let histograms = members["histograms"@]->Object_0;
    assert(histograms.dom() =~= metrics.histograms.dom());
}

/// The exported object of a histogram holds its five statistics under their names.
pub proof fn exported_statistics(stats: HistogramStats)
    ensures
        stats_json(stats) matches Json::Object(members) && {
            &&& members.dom() == set!["count"@, "sum_ms"@, "avg_ms"@, "min_ms"@, "max_ms"@]
            &&& members["count"@] == Json::Number(stats.count)
            &&& members["sum_ms"@] == Json::Number(stats.sum_ms)
            &&& members["avg_ms"@] == Json::Number(stats.avg_ms)
            &&& members["min_ms"@] == Json::Number(stats.min_ms)
            &&& members["max_ms"@] == Json::Number(stats.max_ms)
        },
{
    reveal_strlit("count");
    reveal_strlit("sum_ms");
    reveal_strlit("avg_ms");
    reveal_strlit("min_ms");
    reveal_strlit("max_ms");
    let members = stats_json(stats)->Object_0;
    assert(members.dom() =~= set!["count"@, "sum_ms"@, "avg_ms"@, "min_ms"@, "max_ms"@]);
    assert("count"@[0] == 'c' && "sum_ms"@[0] == 's' && "avg_ms"@[0] == 'a');
    assert("min_ms"@[1] == 'i' && "max_ms"@[1] == 'a');
    assert("min_ms"@[0] == 'm' && "max_ms"@[0] == 'm');
}

/// Along the readings of the clock the uptime never decreases: of two uptimes that count from
/// the same moment, the one at a later reading is not less. Every operation keeps that moment, a
/// reset too. The same holds of the whole seconds, which the export shows. The law speaks of
/// given clock readings, not of two calls: which reading a call gets, no contract says.
pub proof fn uptime_never_decreases(
    before: MetricsRegistry,
    after: MetricsRegistry,
    earlier: nat,
    later: nat,
    first: Duration,
    second: Duration,
)
    requires
        after.started() == before.started(),
        elapsed_by(before.started(), earlier, first),
        elapsed_by(after.started(), later, second),
        earlier <= later,
    ensures
        duration_nanos(first) <= duration_nanos(second),
        duration_nanos(second) / 1_000_000_000 <= u64::MAX ==> whole_secs(first) <= whole_secs(
            second,
        ),
{
}

/// The part of an exported document under a name.
pub open spec fn exported(document: Json, part: Seq<char>) -> Json {
    document->Object_0[part]
}

/// Two exports of the same metrics agree on the counters and the histograms, whatever the
/// uptimes are.
pub proof fn exports_differ_in_the_uptime_only(metrics: Metrics, first: u64, second: u64)
    ensures
        exported(metrics.json(second), "counters"@) == exported(metrics.json(first), "counters"@),
        exported(metrics.json(second), "histograms"@) == exported(
            metrics.json(first),
            "histograms"@,
        ),
        exported(metrics.json(first), "uptime_seconds"@) == Json::Number(first),
        exported(metrics.json(second), "uptime_seconds"@) == Json::Number(second),
{
    export_agrees_with_the_readings(metrics, first);
    export_agrees_with_the_readings(metrics, second);
    reveal_strlit("uptime_seconds");
    reveal_strlit("counters");
    reveal_strlit("histograms");
    assert("uptime_seconds"@.len() == 14 && "counters"@.len() == 8 && "histograms"@.len() == 10);
}

/// A reset keeps every name in the export: the counters are all 0, and the histograms have
/// observed nothing.
pub proof fn export_keeps_the_names_over_a_reset(metrics: Metrics, before: u64, after: u64)
    ensures
        exported(metrics.json(before), "counters"@) matches Json::Object(old_counters) && exported(
            metrics.reset().json(after),
            "counters"@,
        ) matches Json::Object(counters) && {
            &&& counters.dom() == old_counters.dom()
            &&& forall|name: Seq<char>| #[trigger]
                counters.contains_key(name) ==> counters[name] == Json::Number(0)
        },
        exported(metrics.json(before), "histograms"@) matches Json::Object(old_histograms)
            && exported(metrics.reset().json(after), "histograms"@) matches Json::Object(histograms)
            && {
            &&& histograms.dom() == old_histograms.dom()
            &&& forall|name: Seq<char>| #[trigger]
                histograms.contains_key(name) ==> histograms[name] == stats_json(
                    HistogramData::unobserved().summary(),
                )
        },
{
    export_agrees_with_the_readings(metrics, before);
    export_agrees_with_the_readings(metrics.reset(), after);
    assert(metrics.reset().counters.dom() =~= metrics.counters.dom());
    assert(metrics.reset().histograms.dom() =~= metrics.histograms.dom());
}

} // verus!
