//! The wall clock that caption events are stamped with.
use vstd::prelude::*;

verus! {

#[verifier::external_type_specification]
#[verifier::external_body]
pub struct ExSystemTime(std::time::SystemTime);

/// std's `SystemTime::now`: the current wall-clock time. Nothing is stated
/// of it; it is the clock.
#[verifier::external_body]
fn system_time_now() -> std::time::SystemTime {
    std::time::SystemTime::now()
}

/// std's `SystemTime::duration_since` the Unix epoch; `None` where the time
/// lies before the epoch. Nothing is stated of the result.
#[verifier::external_body]
fn since_unix_epoch(t: &std::time::SystemTime) -> Option<std::time::Duration> {
    t.duration_since(std::time::UNIX_EPOCH).ok()
}

/// std's `Duration::as_secs`: the whole seconds. Nothing is stated of the
/// result.
#[verifier::external_body]
fn duration_secs(d: &std::time::Duration) -> u64 {
    d.as_secs()
}

/// std's `Duration::subsec_nanos`: the fractional part in nanoseconds,
/// always less than one billion.
#[verifier::external_body]
fn duration_subsec_nanos(d: &std::time::Duration) -> (r: u32)
    ensures
        r < 1_000_000_000,
{
    d.subsec_nanos()
}

/// Whole milliseconds in a duration of `secs` seconds and `nanos`
/// nanoseconds, as `Duration::as_millis` counts them.
pub open spec fn spec_millis(secs: u64, nanos: u32) -> int {
    secs * 1000 + nanos / 1_000_000
}

/// Whole milliseconds in a duration of `secs` seconds and `nanos`
/// nanoseconds (`nanos` below one billion).
pub fn millis_from_parts(secs: u64, nanos: u32) -> (r: u128)
    requires
        nanos < 1_000_000_000,
    ensures
        r == spec_millis(secs, nanos),
{
    secs as u128 * 1000 + (nanos / 1_000_000) as u128
}

/// Milliseconds since the Unix epoch, or 0 when the clock reads earlier.
pub fn now_ms() -> (r: u128)
    ensures
        r == 0 || exists|secs: u64, nanos: u32|
            nanos < 1_000_000_000 && r == #[trigger] spec_millis(secs, nanos),
{
    match since_unix_epoch(&system_time_now()) {
        Some(d) => {
            let secs = duration_secs(&d);
            let nanos = duration_subsec_nanos(&d);
            let r = millis_from_parts(secs, nanos);
            assert(r == spec_millis(secs, nanos));
            r
        },
        None => 0,
    }
}

} // verus!
