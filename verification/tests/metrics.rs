use std::time::{Duration, Instant};

use program_analyzer::metrics::clock::millis_of;
use program_analyzer::metrics::metric_names;
use program_analyzer::metrics::{HistogramData, MetricsRegistry};

#[test]
fn test_counter_increment() {
    let mut registry = MetricsRegistry::new();
    registry.inc("test_counter");
    registry.inc("test_counter");
    registry.inc_by("test_counter", 5);

    assert_eq!(registry.get_counter("test_counter"), 7);
}

#[test]
fn test_histogram_observation() {
    let mut registry = MetricsRegistry::new();
    registry.observe("test_latency", Duration::from_millis(100));
    registry.observe("test_latency", Duration::from_millis(200));
    registry.observe("test_latency", Duration::from_millis(150));

    let stats = registry.get_histogram_stats("test_latency").unwrap();
    assert_eq!(stats.count, 3);
    assert_eq!(stats.sum_ms, 450);
    assert_eq!(stats.avg_ms, 150);
    assert_eq!(stats.min_ms, 100);
    assert_eq!(stats.max_ms, 200);
}

#[test]
fn test_time_function() {
    let mut registry = MetricsRegistry::new();

    let result = registry.time("test_op", || {
        let start = Instant::now();
        while start.elapsed() < Duration::from_millis(10) {}
        42
    });

    assert_eq!(result, 42);

    let stats = registry.get_histogram_stats("test_op").unwrap();
    assert_eq!(stats.count, 1);
    assert!(stats.sum_ms >= 10);
}

#[test]
fn test_export_json() {
    let mut registry = MetricsRegistry::new();
    registry.inc("counter1");
    registry.observe("hist1", Duration::from_millis(100));

    let json = registry.export_json();
    assert!(json["counters"]["counter1"].as_u64().unwrap() >= 1);
    assert!(json["histograms"]["hist1"]["count"].as_u64().unwrap() >= 1);
}

/// Fifty writers, each incrementing one counter a hundred times, a step of each in turn.
#[test]
fn interleaved_increments_all_count() {
    let mut registry = MetricsRegistry::new();
    for _ in 0..100 {
        for _writer in 0..50 {
            registry.inc("race_counter");
        }
    }
    assert_eq!(registry.get_counter("race_counter"), 5000);
}

#[test]
fn the_order_of_operations_does_not_matter() {
    let mut one = MetricsRegistry::new();
    one.inc_by("a", 2);
    one.observe_millis("h", 7);
    one.inc_by("b", 3);
    one.observe_millis("h", 3);
    one.inc_by("a", 5);

    let mut other = MetricsRegistry::new();
    other.observe_millis("h", 3);
    other.inc_by("a", 5);
    other.inc_by("a", 2);
    other.observe_millis("h", 7);
    other.inc_by("b", 3);

    assert_eq!(one.export_json_at(1), other.export_json_at(1));
    assert_eq!(one.get_counter("a"), 7);
    assert_eq!(one.get_counter("b"), 3);
}

#[test]
fn a_new_registry_is_empty() {
    let registry = MetricsRegistry::new();
    assert_eq!(registry.get_counter("anything"), 0);
    assert!(registry.get_histogram_stats("anything").is_none());
    let json = MetricsRegistry::default().export_json_at(9);
    assert_eq!(json.to_string(), "{\"counters\":{},\"histograms\":{},\"uptime_seconds\":9}");
}

#[test]
fn a_counter_wraps_around() {
    let mut registry = MetricsRegistry::new();
    registry.inc_by("big", u64::MAX);
    registry.inc_by("big", 3);
    assert_eq!(registry.get_counter("big"), 2);
}

#[test]
fn increments_and_observations_are_independent() {
    let mut registry = MetricsRegistry::new();
    registry.inc_by("shared", 4);
    registry.observe_millis("shared", 11);
    registry.inc("other");
    assert_eq!(registry.get_counter("shared"), 4);
    assert_eq!(registry.get_counter("other"), 1);
    assert_eq!(registry.get_histogram_stats("shared").unwrap().count, 1);
    assert!(registry.get_histogram_stats("other").is_none());
}

#[test]
fn the_average_is_rounded_down() {
    let mut registry = MetricsRegistry::new();
    registry.observe_millis("h", 1);
    registry.observe_millis("h", 2);
    registry.observe_millis("h", 2);
    let stats = registry.get_histogram_stats("h").unwrap();
    assert_eq!(stats.avg_ms, 1);
    assert_eq!(stats.min_ms, 1);
    assert_eq!(stats.max_ms, 2);
}

#[test]
fn a_sum_wraps_around() {
    let data = HistogramData::new().record(u64::MAX).record(2);
    assert_eq!(data.count, 2);
    assert_eq!(data.sum_ms, 1);
    assert_eq!(data.min_ms, 2);
    assert_eq!(data.max_ms, u64::MAX);
}

#[test]
fn durations_count_in_whole_milliseconds() {
    assert_eq!(millis_of(&Duration::from_micros(1999)), 1);
    assert_eq!(millis_of(&Duration::new(2, 500_000_000)), 2500);
    // The longest duration takes 74 bits of milliseconds: the low 64 of them remain.
    let longest = Duration::new(u64::MAX, 999_999_999);
    assert_eq!(millis_of(&longest), u64::MAX);
}

#[test]
fn a_default_histogram_is_all_zero() {
    let data = HistogramData::default();
    assert_eq!(data.count, 0);
    assert_eq!(data.sum_ms, 0);
    assert_eq!(data.min_ms, 0);
    assert_eq!(data.max_ms, 0);
    assert_eq!(data.stats().avg_ms, 0);
    assert_eq!(HistogramData::new().min_ms, u64::MAX);
}

#[test]
fn reset_keeps_the_names() {
    let mut registry = MetricsRegistry::new();
    registry.inc_by("a", 5);
    registry.inc_by("b", 6);
    registry.observe_millis("h", 40);
    registry.observe_millis("k", 41);
    registry.reset();
    assert_eq!(registry.get_counter("a"), 0);
    assert_eq!(registry.get_counter("b"), 0);
    let stats = registry.get_histogram_stats("h").unwrap();
    assert_eq!(stats.count, 0);
    assert_eq!(stats.sum_ms, 0);
    assert_eq!(stats.avg_ms, 0);
    assert_eq!(stats.min_ms, u64::MAX);
    assert_eq!(stats.max_ms, 0);
    assert!(registry.get_histogram_stats("k").is_some());
    assert!(registry.get_histogram_stats("a").is_none());
    let json = registry.export_json_at(0);
    assert_eq!(json["counters"].as_object().unwrap().len(), 2);
    assert_eq!(json["histograms"].as_object().unwrap().len(), 2);

    registry.observe_millis("h", 12);
    registry.inc("a");
    assert_eq!(registry.get_counter("a"), 1);
    let again = registry.get_histogram_stats("h").unwrap();
    assert_eq!(again.count, 1);
    assert_eq!(again.min_ms, 12);
    assert_eq!(again.max_ms, 12);
}

#[test]
fn the_export_holds_every_reading() {
    let mut registry = MetricsRegistry::new();
    registry.inc_by("b", 2);
    registry.inc_by("a", 7);
    registry.observe_millis("h", 10);
    registry.observe_millis("h", 25);
    let json = registry.export_json_at(61);
    assert_eq!(
        json.to_string(),
        "{\"counters\":{\"a\":7,\"b\":2},\"histograms\":{\"h\":{\"avg_ms\":17,\"count\":2,\"max_ms\":25,\"min_ms\":10,\"sum_ms\":35}},\"uptime_seconds\":61}"
    );
}

#[test]
fn the_uptime_does_not_run_backwards() {
    let mut registry = MetricsRegistry::new();
    let wait = Instant::now();
    while wait.elapsed() < Duration::from_millis(5) {}
    let first = registry.uptime();
    assert!(first >= Duration::from_millis(5));
    registry.inc("counter");
    registry.reset();
    let second = registry.uptime();
    assert!(first <= second);
    assert!(registry.export_json()["uptime_seconds"].as_u64().unwrap() < 3600);
}

#[test]
fn the_time_since_a_moment_is_recorded() {
    let wait = Instant::now();
    while wait.elapsed() < Duration::from_millis(20) {}
    // The registry is younger than the moment that the time counts from.
    let mut registry = MetricsRegistry::new();
    registry.record_since("waited", &wait);
    let stats = registry.get_histogram_stats("waited").unwrap();
    assert_eq!(stats.count, 1);
    assert!(stats.sum_ms >= 20);
    assert!(registry.uptime() < wait.elapsed());
}

#[test]
fn timing_does_not_count_from_the_start_of_the_registry() {
    let mut registry = MetricsRegistry::new();
    let wait = Instant::now();
    while wait.elapsed() < Duration::from_millis(200) {}
    registry.time("quick", || ());
    assert!(registry.get_histogram_stats("quick").unwrap().sum_ms < 200);
}

#[test]
fn reads_do_not_change_the_export() {
    let mut registry = MetricsRegistry::new();
    registry.inc("a");
    registry.observe_millis("h", 3);
    let first = registry.export_json();
    assert_eq!(registry.get_counter("unknown"), 0);
    assert!(registry.get_histogram_stats("unknown").is_none());
    registry.uptime();
    let second = registry.export_json();
    assert_eq!(first["counters"], second["counters"]);
    assert_eq!(first["histograms"], second["histograms"]);
    assert!(first["uptime_seconds"].as_u64().unwrap() <= second["uptime_seconds"].as_u64().unwrap());
}

#[test]
fn metric_names_are_distinct() {
    let names = vec![
        metric_names::FILES_ANALYZED,
        metric_names::FINDINGS_DETECTED,
        metric_names::PARSE_ERRORS,
        metric_names::ANALYSIS_DURATION,
        metric_names::PATTERN_CHECKS,
        metric_names::LLM_CALLS,
        metric_names::LLM_TOKENS,
    ];
    assert_eq!(names[0], "files_analyzed_total");
    assert_eq!(names[6], "llm_tokens_used_total");
    for i in 0..names.len() {
        for j in 0..i {
            assert_ne!(names[i], names[j]);
        }
    }
}
