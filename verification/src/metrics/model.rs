//! What a registry holds, and what each operation makes of it.
use vstd::prelude::*;

use crate::metrics::histogram::wrapping_sum;
use crate::metrics::histogram::HistogramData;
use crate::metrics::histogram::HistogramStats;
use crate::metrics::json::Json;
use crate::metrics::store::value_or;

verus! {

/// The metrics that a registry holds, by name.
#[verifier::ext_equal]
pub struct Metrics {
    pub counters: Map<Seq<char>, u64>,
    pub histograms: Map<Seq<char>, HistogramData>,
}

/// The JSON object of a histogram's statistics.
pub open spec fn stats_json(stats: HistogramStats) -> Json {
    Json::Object(
        map![
            "count"@ => Json::Number(stats.count),
            "sum_ms"@ => Json::Number(stats.sum_ms),
            "avg_ms"@ => Json::Number(stats.avg_ms),
            "min_ms"@ => Json::Number(stats.min_ms),
            "max_ms"@ => Json::Number(stats.max_ms),
        ],
    )
}

impl Metrics {
    /// No metrics.
    pub open spec fn none() -> Self {
        Metrics { counters: Map::empty(), histograms: Map::empty() }
    }

    /// The value of a counter, 0 where it was never incremented.
    pub open spec fn counter(self, name: Seq<char>) -> u64 {
        value_or(self.counters, name, 0)
    }

    /// The statistics of a histogram, if anything was ever observed under its name.
    pub open spec fn stats(self, name: Seq<char>) -> Option<HistogramStats> {
        if self.histograms.contains_key(name) {
            Some(self.histograms[name].summary())
        } else {
            None
        }
    }

    /// The metrics after adding to a counter.
    pub open spec fn increment(self, name: Seq<char>, amount: u64) -> Self {
        Metrics {
            counters: self.counters.insert(name, wrapping_sum(self.counter(name), amount)),
            ..self
        }
    }

    /// The metrics after an observation.
    pub open spec fn observe(self, name: Seq<char>, millis: u64) -> Self {
        Metrics {
            histograms: self.histograms.insert(
                name,
                value_or(self.histograms, name, HistogramData::unobserved()).with(millis),
            ),
            ..self
        }
    }

    /// The metrics after a reset: every name stays, with nothing counted or observed.
    pub open spec fn reset(self) -> Self {
        Metrics {
            counters: self.counters.map_values(|value: u64| 0u64),
            histograms: self.histograms.map_values(
                |data: HistogramData| HistogramData::unobserved(),
            ),
        }
    }

    /// The JSON object of the counters.
    pub open spec fn counters_json(self) -> Json {
        Json::Object(self.counters.map_values(|value: u64| Json::Number(value)))
    }

    /// The JSON object of the histograms.
    pub open spec fn histograms_json(self) -> Json {
        Json::Object(self.histograms.map_values(|data: HistogramData| stats_json(data.summary())))
    }

    /// The JSON document that exports the metrics.
    pub open spec fn json(self, uptime_seconds: u64) -> Json {
        Json::Object(
            map![
                "uptime_seconds"@ => Json::Number(uptime_seconds),
                "counters"@ => self.counters_json(),
                "histograms"@ => self.histograms_json(),
            ],
        )
    }
}

} // verus!
