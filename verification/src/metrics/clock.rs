//! Reading the clock and measuring durations.
use std::time::{Duration, Instant};
use vstd::prelude::*;

verus! {

/// A moment of the monotonic clock of `std`.
#[verifier::external_type_specification]
#[verifier::external_body]
pub struct ExInstant(Instant);

/// The length of a duration in nanoseconds.
pub uninterp spec fn duration_nanos(duration: Duration) -> nat;

/// Whether `Instant::elapsed`, asked of `start` while the clock shows `reading`, can return
/// `duration`.
pub uninterp spec fn can_elapse(start: Instant, reading: nat, duration: Duration) -> bool;

/// Whether no answer of `Instant::elapsed` for `start`, from `reading` of the clock on, is
/// shorter than `duration`.
pub open spec fn not_shorter_after(start: Instant, reading: nat, duration: Duration) -> bool {
    forall|later: nat, answer: Duration|
        reading <= later && #[trigger] can_elapse(start, later, answer) ==> duration_nanos(duration)
            <= duration_nanos(answer)
}

/// Whether `duration` is an answer of `Instant::elapsed` for `start` while the clock shows
/// `reading`, and none is shorter from then on.
pub open spec fn elapsed_by(start: Instant, reading: nat, duration: Duration) -> bool {
    &&& can_elapse(start, reading, duration)
    &&& not_shorter_after(start, reading, duration)
}

/// `Instant::now` reads the clock. Nothing is said of what it returns.
pub assume_specification[ Instant::now ]() -> Instant;

/// `Instant::elapsed` reads the clock and returns the time since `start`, zero where the clock
/// shows an earlier moment than `start`. What the clock shows, and so how long the time is, is
/// not said: only that it was `start` that was asked, and that the time since `start` does not
/// get shorter as the clock moves on.
pub assume_specification[ Instant::elapsed ](start: &Instant) -> (duration: Duration)
    ensures
        exists|reading: nat| #[trigger]
            can_elapse(*start, reading, duration) && not_shorter_after(*start, reading, duration),
;

/// `Duration::as_millis` returns the number of whole milliseconds that the duration contains.
pub assume_specification[ Duration::as_millis ](duration: &Duration) -> (millis: u128)
    ensures
        millis == duration_nanos(*duration) / 1_000_000,
;

/// `Duration::as_secs` returns the number of whole seconds that the duration contains.
pub assume_specification[ Duration::as_secs ](duration: &Duration) -> (secs: u64)
    ensures
        secs == duration_nanos(*duration) / 1_000_000_000,
;

/// The time since `start`.
pub fn elapsed_since(start: &Instant) -> (duration: Duration)
    ensures
        exists|reading: nat| elapsed_by(*start, reading, duration),
{
    let duration = start.elapsed();
    proof {
        let reading = choose|reading: nat| #[trigger]
            can_elapse(*start, reading, duration) && not_shorter_after(*start, reading, duration);
        assert(elapsed_by(*start, reading, duration));
    }
    duration
}

/// The whole seconds of a duration.
pub open spec fn whole_secs(duration: Duration) -> u64 {
    (duration_nanos(duration) / 1_000_000_000) as u64
}

/// The whole milliseconds of a duration, as far as 64 bits hold them.
pub open spec fn whole_millis(duration: Duration) -> u64 {
    ((duration_nanos(duration) / 1_000_000) % 0x1_0000_0000_0000_0000) as u64
}

/// The whole milliseconds of a duration; the low 64 bits of a number that takes more.
pub fn millis_of(duration: &Duration) -> (millis: u64)
    ensures
        millis == whole_millis(*duration),
        duration_nanos(*duration) < 1_000_000 * 0x1_0000_0000_0000_0000 ==> millis * 1_000_000
            <= duration_nanos(*duration) < (millis + 1) * 1_000_000,
{
    let wide: u128 = duration.as_millis();
    assert(wide as u64 == wide % 0x1_0000_0000_0000_0000) by (bit_vector);
    wide as u64
}

} // verus!
