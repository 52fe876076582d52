//! The registry of all metrics.
use dashmap::DashMap;
use serde_json::Value;
use std::time::{Duration, Instant};
use vstd::prelude::*;

use crate::metrics::clock::duration_nanos;
use crate::metrics::clock::elapsed_by;
use crate::metrics::clock::elapsed_since;
use crate::metrics::clock::millis_of;
use crate::metrics::clock::whole_millis;
use crate::metrics::clock::whole_secs;
use crate::metrics::histogram::add_wrapping;
use crate::metrics::histogram::wrapping_sum;
use crate::metrics::histogram::HistogramData;
use crate::metrics::histogram::HistogramStats;
use crate::metrics::json;
use crate::metrics::json::json_of;
use crate::metrics::json::members_of;
use crate::metrics::json::Json;
use crate::metrics::model::stats_json;
use crate::metrics::model::Metrics;
use crate::metrics::store;
use crate::metrics::store::counters_of;
use crate::metrics::store::histograms_of;
use crate::metrics::store::lists;

verus! {

/// Registry for all metrics.
pub struct MetricsRegistry {
    counters: DashMap<String, u64>,
    histograms: DashMap<String, HistogramData>,
    start_time: Instant,
}

impl View for MetricsRegistry {
    type V = Metrics;

    closed spec fn view(&self) -> Metrics {
        Metrics {
            counters: counters_of(self.counters),
            histograms: histograms_of(self.histograms),
        }
    }
}

impl Default for MetricsRegistry {
    fn default() -> (registry: Self)
        ensures
            registry@ == Metrics::none(),
            call_ensures(Instant::now, (), registry.started()),
    {
        Self::new()
    }
}

impl MetricsRegistry {
    /// The moment from which the uptime counts.
    pub closed spec fn started(&self) -> Instant {
        self.start_time
    }

    /// A registry without metrics, whose uptime starts now.
    pub fn new() -> (registry: Self)
        ensures
            registry@ == Metrics::none(),
            call_ensures(Instant::now, (), registry.started()),
    {
        MetricsRegistry {
            counters: store::new_counters(),
            histograms: store::new_histograms(),
            start_time: Instant::now(),
        }
    }

    /// Increments a counter by 1.
    pub fn inc(&mut self, name: &str)
        ensures
            final(self)@ == old(self)@.increment(name@, 1),
            final(self).started() == old(self).started(),
    {
        self.inc_by(name, 1);
    }

    /// Increments a counter by a specific amount. The counter starts over at zero when 64 bits
    /// do not hold it.
    pub fn inc_by(&mut self, name: &str, amount: u64)
        ensures
            final(self)@ == old(self)@.increment(name@, amount),
            final(self).started() == old(self).started(),
    {
        store::update_counter(
            &mut self.counters,
            name.to_string(),
            0,
            |value: u64| -> (next: u64)
                ensures
                    next == wrapping_sum(value, amount)
            { add_wrapping(value, amount) },
        );
    }

    /// Records a duration observation, in whole milliseconds.
    pub fn observe(&mut self, name: &str, duration: Duration)
        ensures
            final(self)@ == old(self)@.observe(name@, whole_millis(duration)),
            duration_nanos(duration) < 1_000_000 * 0x1_0000_0000_0000_0000 ==> exists|millis: u64|
                {
                    &&& millis * 1_000_000 <= duration_nanos(duration) < (millis + 1) * 1_000_000
                    &&& final(self)@ == #[trigger] old(self)@.observe(name@, millis)
                },
            final(self).started() == old(self).started(),
    {
        let millis: u64 = millis_of(&duration);
        self.observe_millis(name, millis);
    }

    /// Records an observation of so many milliseconds.
    pub fn observe_millis(&mut self, name: &str, millis: u64)
        ensures
            final(self)@ == old(self)@.observe(name@, millis),
            final(self).started() == old(self).started(),
    {
        store::update_histogram(
            &mut self.histograms,
            name.to_string(),
            HistogramData::new(),
            |data: HistogramData| -> (next: HistogramData)
                ensures
                    next == data.with(millis)
            { data.record(millis) },
        );
    }

    /// Records the time since `start`.
    pub fn record_since(&mut self, name: &str, start: &Instant)
        ensures
            exists|reading: nat, duration: Duration|
                {
                    &&& #[trigger] elapsed_by(*start, reading, duration)
                    &&& final(self)@ == old(self)@.observe(name@, whole_millis(duration))
                },
            final(self).started() == old(self).started(),
    {
        let duration = elapsed_since(start);
        self.observe(name, duration);
    }

    /// Times a closure and records the duration, counted from a moment that is read for this
    /// call. How long the duration is, and that the moment is read before the closure runs, the
    /// contract does not say.
    pub fn time<F, T>(&mut self, name: &str, f: F) -> (result: T) where F: FnOnce() -> T
        requires
            call_requires(f, ()),
        ensures
            call_ensures(f, (), result),
            exists|start: Instant, reading: nat, duration: Duration|
                {
                    &&& call_ensures(Instant::now, (), start)
                    &&& #[trigger] elapsed_by(start, reading, duration)
                    &&& final(self)@ == old(self)@.observe(name@, whole_millis(duration))
                },
            final(self).started() == old(self).started(),
    {
        let start = Instant::now();
        let result = f();
        self.record_since(name, &start);
        result
    }

    /// Gets the current value of a counter, 0 where it was never incremented.
    pub fn get_counter(&self, name: &str) -> (value: u64)
        ensures
            value == self@.counter(name@),
    {
        match store::get_counter(&self.counters, name) {
            Some(value) => value,
            None => 0,
        }
    }

    /// Gets histogram statistics, if anything was ever observed under the name.
    pub fn get_histogram_stats(&self, name: &str) -> (stats: Option<HistogramStats>)
        ensures
            stats == self@.stats(name@),
    {
        match store::get_histogram(&self.histograms, name) {
            Some(data) => Some(data.stats()),
            None => None,
        }
    }

    /// Gets the time since the registry was made. What the clock shows, and so how long that is,
    /// the contract does not say. No operation moves the moment that the uptime counts from.
    pub fn uptime(&self) -> (duration: Duration)
        ensures
            exists|reading: nat| elapsed_by(self.started(), reading, duration),
    {
        assert(self.started() == self.start_time);
        elapsed_since(&self.start_time)
    }

    /// Exports all metrics as JSON, with the uptime that the clock gives.
    pub fn export_json(&self) -> (value: Value)
        ensures
            exists|reading: nat, uptime: Duration|
                {
                    &&& #[trigger] elapsed_by(self.started(), reading, uptime)
                    &&& json_of(value) == self@.json(whole_secs(uptime))
                },
            exists|reading: nat, uptime: Duration, seconds: u64|
                {
                    &&& #[trigger] elapsed_by(self.started(), reading, uptime)
                    &&& seconds * 1_000_000_000 <= duration_nanos(uptime) < (seconds + 1)
                        * 1_000_000_000
                    &&& json_of(value) == #[trigger] self@.json(seconds)
                },
    {
        let uptime = self.uptime();
        self.export_json_at(uptime.as_secs())
    }

    /// Exports all metrics as JSON, with the given uptime.
    pub fn export_json_at(&self, uptime_seconds: u64) -> (value: Value)
        ensures
            json_of(value) == self@.json(uptime_seconds),
    {
        let mut members: serde_json::Map<String, Value> = serde_json::Map::new();
        members.insert("uptime_seconds".to_string(), json::number(uptime_seconds));
        members.insert("counters".to_string(), self.counters_value());
        members.insert("histograms".to_string(), self.histograms_value());
        json::object(members)
    }

    fn counters_value(&self) -> (value: Value)
        ensures
            json_of(value) == self@.counters_json(),
    {
        let entries = store::counter_entries(&self.counters);
        let ghost listed = entries@;
        let mut members: serde_json::Map<String, Value> = serde_json::Map::new();
        for entry in it: entries
            invariant
                it.seq() == listed,
                lists(listed, self@.counters),
                forall|i: int|
                    0 <= i < it.index() ==> members_of(members).contains_key(
                        (#[trigger] listed[i]).0@,
                    ),
                forall|name: Seq<char>| #[trigger]
                    members_of(members).contains_key(name) ==> {
                        &&& self@.counters.contains_key(name)
                        &&& members_of(members)[name] == Json::Number(self@.counters[name])
                    },
        {
            members.insert(entry.0, json::number(entry.1));
        }
        assert(members_of(members) =~= self@.counters.map_values(|value: u64| Json::Number(value)));
        json::object(members)
    }

    fn histograms_value(&self) -> (value: Value)
        ensures
            json_of(value) == self@.histograms_json(),
    {
        let entries = store::histogram_entries(&self.histograms);
        let ghost listed = entries@;
        let mut members: serde_json::Map<String, Value> = serde_json::Map::new();
        for entry in it: entries
            invariant
                it.seq() == listed,
                lists(listed, self@.histograms),
                forall|i: int|
                    0 <= i < it.index() ==> members_of(members).contains_key(
                        (#[trigger] listed[i]).0@,
                    ),
                forall|name: Seq<char>| #[trigger]
                    members_of(members).contains_key(name) ==> {
                        &&& self@.histograms.contains_key(name)
                        &&& members_of(members)[name] == stats_json(
                            self@.histograms[name].summary(),
                        )
                    },
        {
            members.insert(entry.0, stats_value(entry.1.stats()));
        }
        assert(members_of(members) =~= self@.histograms.map_values(
            |data: HistogramData| stats_json(data.summary()),
        ));
        json::object(members)
    }

    /// Resets all metrics. Every name stays, with nothing counted or observed.
    pub fn reset(&mut self)
        ensures
            final(self)@ == old(self)@.reset(),
            final(self).started() == old(self).started(),
    {
        let ghost before = self@;
        let ghost started = self.started();
        let counters = store::counter_entries(&self.counters);
        let ghost listed = counters@;
        for entry in it: counters
            invariant
                it.seq() == listed,
                lists(listed, before.counters),
                self.started() == started,
                self@.histograms == before.histograms,
                self@.counters.dom() == before.counters.dom(),
                forall|i: int|
                    0 <= i < it.index() ==> self@.counters[(#[trigger] listed[i]).0@] == 0,
        {
            store::update_counter(
                &mut self.counters,
                entry.0,
                0,
                |value: u64| -> (next: u64)
                    ensures
                        next == 0
                { 0 },
            );
        }
        let histograms = store::histogram_entries(&self.histograms);
        let ghost observed = histograms@;
        for entry in it: histograms
            invariant
                it.seq() == observed,
                lists(observed, before.histograms),
                self.started() == started,
                self@.counters == before.reset().counters,
                self@.histograms.dom() == before.histograms.dom(),
                forall|i: int|
                    0 <= i < it.index() ==> self@.histograms[(#[trigger] observed[i]).0@]
                        == HistogramData::unobserved(),
        {
            store::update_histogram(
                &mut self.histograms,
                entry.0,
                HistogramData::new(),
                |data: HistogramData| -> (next: HistogramData)
                    ensures
                        next == HistogramData::unobserved()
                { HistogramData::new() },
            );
        }
        assert(self@.histograms =~= before.reset().histograms);
    }
}

fn stats_value(stats: HistogramStats) -> (value: Value)
    ensures
        json_of(value) == stats_json(stats),
{
    let mut members: serde_json::Map<String, Value> = serde_json::Map::new();
    members.insert("count".to_string(), json::number(stats.count));
    members.insert("sum_ms".to_string(), json::number(stats.sum_ms));
    members.insert("avg_ms".to_string(), json::number(stats.avg_ms));
    members.insert("min_ms".to_string(), json::number(stats.min_ms));
    members.insert("max_ms".to_string(), json::number(stats.max_ms));
    json::object(members)
}

} // verus!
