//! What the result of each operation satisfies, in terms of the numbers that go in.
use std::time::Duration;
use vstd::arithmetic::div_mod::lemma_fundamental_div_mod;
use vstd::prelude::*;

use crate::metrics::clock::can_elapse;
use crate::metrics::clock::duration_nanos;
use crate::metrics::clock::elapsed_by;
use crate::metrics::clock::whole_millis;
use crate::metrics::clock::whole_secs;
use crate::metrics::histogram::wrapping_sum;
use crate::metrics::histogram::HistogramData;
use crate::metrics::histogram::HistogramStats;
use crate::metrics::json::Json;
use crate::metrics::laws::after_all;
use crate::metrics::laws::exported_statistics;
use crate::metrics::laws::histogram_is_made_of_its_observations;
use crate::metrics::laws::observations;
use crate::metrics::laws::recorded;
use crate::metrics::laws::sum;
use crate::metrics::laws::totals_of_observations;
use crate::metrics::laws::Event;
use crate::metrics::metric_names;
use crate::metrics::model::stats_json;
use crate::metrics::model::Metrics;

verus! {

/// Whether so many nanoseconds contain so many whole units of the given length, and not one
/// more.
pub open spec fn contains_whole(nanos: nat, unit: nat, number: nat) -> bool {
    number * unit <= nanos < (number + 1) * unit
}

/// The milliseconds of a duration that are recorded: the number that the duration contains and
/// not one more, as long as 64 bits hold it, and else the low 64 bits of that number.
pub proof fn recorded_millis_of_a_duration(duration: Duration)
    ensures
        duration_nanos(duration) < 1_000_000 * 0x1_0000_0000_0000_0000 ==> whole_millis(duration)
            * 1_000_000 <= duration_nanos(duration) < (whole_millis(duration) + 1) * 1_000_000,
        exists|number: nat| #[trigger]
            contains_whole(duration_nanos(duration), 1_000_000, number) && number
                % 0x1_0000_0000_0000_0000 == whole_millis(duration),
{
    assert(contains_whole(
        duration_nanos(duration),
        1_000_000,
        duration_nanos(duration) / 1_000_000,
    ));
}

/// The seconds of an uptime that are exported: the number that the uptime contains and not one
/// more. No duration contains more seconds than 64 bits hold.
pub proof fn exported_seconds_of_an_uptime(uptime: Duration)
    requires
        duration_nanos(uptime) < 1_000_000_000 * 0x1_0000_0000_0000_0000,
    ensures
        whole_secs(uptime) * 1_000_000_000 <= duration_nanos(uptime) < (whole_secs(uptime) + 1)
            * 1_000_000_000,
{
}

/// An elapsed time is an answer that the clock can give for the moment it counts from, and the
/// clock gives no shorter one from then on.
pub proof fn elapsed_times_are_answers_of_the_clock(
    start: std::time::Instant,
    reading: nat,
    duration: Duration,
    later: nat,
    answer: Duration,
)
    requires
        elapsed_by(start, reading, duration),
    ensures
        can_elapse(start, reading, duration),
        reading <= later && can_elapse(start, later, answer) ==> duration_nanos(duration)
            <= duration_nanos(answer),
{
}

/// A sum that 64 bits hold is the sum; one that they do not hold has 2^64 taken off.
pub proof fn sums_start_over(a: u64, b: u64)
    ensures
        a + b <= u64::MAX ==> wrapping_sum(a, b) == a + b,
        a + b > u64::MAX ==> wrapping_sum(a, b) == a + b - u64::MAX - 1,
{
}

/// One more observation raises the count by one and the sum by the duration, each starting over
/// where 64 bits do not hold it, and keeps the lesser minimum and the greater maximum.
pub proof fn one_more_observation(data: HistogramData, millis: u64)
    ensures
        ({
            let next = data.with(millis);
            &&& data.count < u64::MAX ==> next.count == data.count + 1
            &&& data.count == u64::MAX ==> next.count == 0
            &&& data.sum_ms + millis <= u64::MAX ==> next.sum_ms == data.sum_ms + millis
            &&& data.sum_ms + millis > u64::MAX ==> next.sum_ms == data.sum_ms + millis - u64::MAX
                - 1
            &&& next.min_ms <= data.min_ms && next.min_ms <= millis
            &&& next.min_ms == data.min_ms || next.min_ms == millis
            &&& next.max_ms >= data.max_ms && next.max_ms >= millis
            &&& next.max_ms == data.max_ms || next.max_ms == millis
        }),
{
}

/// The statistics of a histogram are its count, its sum and its extremes, and the average: so
/// many times the count as fits into the sum, and 0 without observations.
pub proof fn statistics_tell_the_totals(data: HistogramData)
    ensures
        data.summary().count == data.count,
        data.summary().sum_ms == data.sum_ms,
        data.summary().min_ms == data.min_ms,
        data.summary().max_ms == data.max_ms,
        data.count == 0 ==> data.summary().avg_ms == 0,
        data.count > 0 ==> data.summary().avg_ms * data.count <= data.sum_ms < (
        data.summary().avg_ms + 1) * data.count,
{
    if data.count > 0 {
        let n = data.count as int;
        let whole = data.sum_ms as int;
        let avg = data.summary().avg_ms as int;
        lemma_fundamental_div_mod(whole, n);
        assert(avg * n <= whole < (avg + 1) * n) by (nonlinear_arith)
            requires
                whole == n * avg + whole % n,
                0 <= whole % n < n,
        ;
    }
}

/// The statistics after a series of observations: their number and their sum, as far as 64 bits
/// hold them, and the least and the greatest of them.
pub proof fn statistics_of_observations(observed: Seq<u64>)
    ensures
        ({
            let stats = recorded(HistogramData::unobserved(), observed).summary();
            &&& stats.count == observed.len() % 0x1_0000_0000_0000_0000
            &&& stats.sum_ms == sum(observed) % 0x1_0000_0000_0000_0000
            &&& forall|i: int|
                0 <= i < observed.len() ==> stats.min_ms <= #[trigger] observed[i] <= stats.max_ms
            &&& observed.len() > 0 ==> observed.contains(stats.min_ms) && observed.contains(
                stats.max_ms,
            )
        }),
{
    totals_of_observations(observed);
}

/// What a new registry reports of a name after a series of events: nothing where nothing was
/// observed under it, and else the statistics of the observations.
pub proof fn statistics_after_events(events: Seq<Event>, name: Seq<char>)
    ensures
        ({
            let observed = observations(events, name);
            let reported = after_all(Metrics::none(), events).stats(name);
            &&& reported is None <==> observed.len() == 0
            &&& reported matches Some(stats) ==> {
                &&& stats.count == observed.len() % 0x1_0000_0000_0000_0000
                &&& stats.sum_ms == sum(observed) % 0x1_0000_0000_0000_0000
                &&& stats.count > 0 ==> stats.avg_ms * stats.count <= stats.sum_ms < (stats.avg_ms
                    + 1) * stats.count
                &&& forall|i: int|
                    0 <= i < observed.len() ==> stats.min_ms <= #[trigger] observed[i]
                        <= stats.max_ms
                &&& observed.contains(stats.min_ms)
                &&& observed.contains(stats.max_ms)
            }
        }),
{
    let observed = observations(events, name);
    histogram_is_made_of_its_observations(Metrics::none(), events, name);
    statistics_of_observations(observed);
    statistics_tell_the_totals(recorded(HistogramData::unobserved(), observed));
}

/// A registry without metrics reads 0 for every counter and reports no histogram.
pub proof fn no_metrics_no_readings(name: Seq<char>)
    ensures
        !Metrics::none().counters.contains_key(name),
        !Metrics::none().histograms.contains_key(name),
        Metrics::none().counter(name) == 0,
        Metrics::none().stats(name) is None,
{
}

/// A reading is the value that is held under the name itself: 0 for a counter, and nothing for a
/// histogram, where none is.
pub proof fn readings_are_what_is_held(metrics: Metrics, name: Seq<char>)
    ensures
        metrics.counters.contains_key(name) ==> metrics.counter(name) == metrics.counters[name],
        !metrics.counters.contains_key(name) ==> metrics.counter(name) == 0,
        metrics.histograms.contains_key(name) ==> metrics.stats(name) is Some,
        metrics.histograms.contains_key(name) ==> {
            let data = metrics.histograms[name];
            let stats = metrics.stats(name)->0;
            &&& stats.count == data.count
            &&& stats.sum_ms == data.sum_ms
            &&& stats.min_ms == data.min_ms
            &&& stats.max_ms == data.max_ms
            &&& data.count == 0 ==> stats.avg_ms == 0
            &&& data.count > 0 ==> stats.avg_ms * data.count <= data.sum_ms < (stats.avg_ms + 1)
                * data.count
        },
        !metrics.histograms.contains_key(name) ==> metrics.stats(name) is None,
{
    if metrics.histograms.contains_key(name) {
        statistics_tell_the_totals(metrics.histograms[name]);
    }
}

/// An increment raises the counter under the name by the amount, from 0 where there was none,
/// and changes nothing else.
pub proof fn an_increment_changes_one_counter(metrics: Metrics, name: Seq<char>, amount: u64)
    ensures
        ({
            let after = metrics.increment(name, amount);
            let before = if metrics.counters.contains_key(name) {
                metrics.counters[name] as int
            } else {
                0
            };
            &&& after.counters.contains_key(name)
            &&& before + amount <= u64::MAX ==> after.counters[name] == before + amount
            &&& before + amount > u64::MAX ==> after.counters[name] == before + amount - u64::MAX
                - 1
            &&& forall|other: Seq<char>|
                other != name ==> (#[trigger] after.counters.contains_key(other)
                    <==> metrics.counters.contains_key(other))
            &&& forall|other: Seq<char>|
                other != name ==> #[trigger] after.counters[other] == metrics.counters[other]
            &&& after.histograms == metrics.histograms
        }),
{
}

/// An observation adds to the histogram under the name, which starts with the duration where
/// there was none, and changes nothing else.
pub proof fn an_observation_changes_one_histogram(
    metrics: Metrics,
    name: Seq<char>,
    millis: u64,
)
    ensures
        ({
            let after = metrics.observe(name, millis);
            let next = after.histograms[name];
            &&& after.histograms.contains_key(name)
            &&& !metrics.histograms.contains_key(name) ==> {
                &&& next.count == 1
                &&& next.sum_ms == millis
                &&& next.min_ms == millis
                &&& next.max_ms == millis
            }
            &&& metrics.histograms.contains_key(name) ==> {
                let data = metrics.histograms[name];
                &&& data.count < u64::MAX ==> next.count == data.count + 1
                &&& data.count == u64::MAX ==> next.count == 0
                &&& data.sum_ms + millis <= u64::MAX ==> next.sum_ms == data.sum_ms + millis
                &&& data.sum_ms + millis > u64::MAX ==> next.sum_ms == data.sum_ms + millis
                    - u64::MAX - 1
                &&& next.min_ms <= data.min_ms && next.min_ms <= millis
                &&& next.min_ms == data.min_ms || next.min_ms == millis
                &&& next.max_ms >= data.max_ms && next.max_ms >= millis
                &&& next.max_ms == data.max_ms || next.max_ms == millis
            }
            &&& forall|other: Seq<char>|
                other != name ==> (#[trigger] after.histograms.contains_key(other)
                    <==> metrics.histograms.contains_key(other))
            &&& forall|other: Seq<char>|
                other != name ==> #[trigger] after.histograms[other] == metrics.histograms[other]
            &&& after.counters == metrics.counters
        }),
{
}

/// A reset keeps every name and no other, with 0 in every counter and nothing observed in every
/// histogram.
pub proof fn a_reset_leaves_the_names_alone(metrics: Metrics, name: Seq<char>)
    ensures
        ({
            let after = metrics.reset();
            &&& after.counters.contains_key(name) <==> metrics.counters.contains_key(name)
            &&& after.histograms.contains_key(name) <==> metrics.histograms.contains_key(name)
            &&& after.counters.contains_key(name) ==> after.counters[name] == 0
            &&& after.histograms.contains_key(name) ==> {
                &&& after.histograms[name].count == 0
                &&& after.histograms[name].sum_ms == 0
                &&& after.histograms[name].min_ms == u64::MAX
                &&& after.histograms[name].max_ms == 0
            }
        }),
{
}

/// The export shows, under every name and no other, the number in the counter, and of a
/// histogram the count, the sum, the extremes and the average; and the uptime as it is given.
pub proof fn the_export_shows_what_is_held(metrics: Metrics, uptime_seconds: u64, name: Seq<char>)
    ensures
        metrics.json(uptime_seconds) matches Json::Object(members) && {
            &&& members.contains_key("uptime_seconds"@)
            &&& members.contains_key("counters"@)
            &&& members.contains_key("histograms"@)
            &&& members["uptime_seconds"@] == Json::Number(uptime_seconds)
            &&& members["counters"@] matches Json::Object(counters) && {
                &&& counters.contains_key(name) <==> metrics.counters.contains_key(name)
                &&& counters.contains_key(name) ==> counters[name] == Json::Number(
                    metrics.counters[name],
                )
            }
            &&& members["histograms"@] matches Json::Object(histograms) && {
                &&& histograms.contains_key(name) <==> metrics.histograms.contains_key(name)
                &&& histograms.contains_key(name) ==> {
                    let data = metrics.histograms[name];
                    histograms[name] matches Json::Object(shown) && {
                        &&& shown["count"@] == Json::Number(data.count)
                        &&& shown["sum_ms"@] == Json::Number(data.sum_ms)
                        &&& shown["min_ms"@] == Json::Number(data.min_ms)
                        &&& shown["max_ms"@] == Json::Number(data.max_ms)
                        &&& shown["avg_ms"@] matches Json::Number(avg) && {
                            &&& data.count == 0 ==> avg == 0
                            &&& data.count > 0 ==> avg * data.count <= data.sum_ms < (avg + 1)
                                * data.count
                        }
                        &&& shown.dom() == set![
                            "count"@,
                            "sum_ms"@,
                            "avg_ms"@,
                            "min_ms"@,
                            "max_ms"@,
                        ]
                    }
                }
            }
        },
{
    crate::metrics::laws::export_agrees_with_the_readings(metrics, uptime_seconds);
    let members = metrics.json(uptime_seconds)->Object_0;
    let counters = members["counters"@]->Object_0;
    let histograms = members["histograms"@]->Object_0;
    assert(members.dom().contains("uptime_seconds"@) && members.dom().contains("counters"@)
        && members.dom().contains("histograms"@));
    assert(counters.contains_key(name) <==> metrics.counters.contains_key(name)) by {
        assert(counters.dom().contains(name) <==> metrics.counters.dom().contains(name));
    }
    assert(histograms.contains_key(name) <==> metrics.histograms.contains_key(name)) by {
        assert(histograms.dom().contains(name) <==> metrics.histograms.dom().contains(name));
    }
    if metrics.histograms.contains_key(name) {
        let stats = metrics.histograms[name].summary();
        statistics_tell_the_totals(metrics.histograms[name]);
        exported_statistics(stats);
        assert(histograms[name] == stats_json(stats));
    }
}

/// The metric names as dashboards know them.
pub proof fn names_of_the_metrics()
    ensures
        metric_names::FILES_ANALYZED@ == "files_analyzed_total"@,
        metric_names::FINDINGS_DETECTED@ == "findings_detected_total"@,
        metric_names::PARSE_ERRORS@ == "parse_errors_total"@,
        metric_names::ANALYSIS_DURATION@ == "analysis_duration_ms"@,
        metric_names::PATTERN_CHECKS@ == "pattern_checks_total"@,
        metric_names::LLM_CALLS@ == "llm_api_calls_total"@,
        metric_names::LLM_TOKENS@ == "llm_tokens_used_total"@,
{
}

} // verus!
