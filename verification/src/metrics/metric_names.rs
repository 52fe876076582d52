//! Metric names used throughout the codebase.
use vstd::prelude::*;

verus! {

pub const FILES_ANALYZED: &'static str = "files_analyzed_total";

pub const FINDINGS_DETECTED: &'static str = "findings_detected_total";

pub const PARSE_ERRORS: &'static str = "parse_errors_total";

pub const ANALYSIS_DURATION: &'static str = "analysis_duration_ms";

pub const PATTERN_CHECKS: &'static str = "pattern_checks_total";

pub const LLM_CALLS: &'static str = "llm_api_calls_total";

pub const LLM_TOKENS: &'static str = "llm_tokens_used_total";

} // verus!
