use rand::rngs::ThreadRng;
use rand::Rng;
use std::time::{Duration, SystemTime, SystemTimeError};
use vstd::prelude::*;

verus! {

#[verifier::external_type_specification]
#[verifier::external_body]
pub struct ExSystemTime(SystemTime);

#[verifier::external_type_specification]
#[verifier::external_body]
pub struct ExSystemTimeError(SystemTimeError);

/// Relies on `SystemTime::now`: reads the wall clock; nothing is promised of it.
pub assume_specification[ SystemTime::now ]() -> SystemTime;

/// Relies on `Duration::as_millis`: the whole milliseconds of a duration.
pub assume_specification[ Duration::as_millis ](d: &Duration) -> u128;

/// Relies on `SystemTime::duration_since` against `UNIX_EPOCH`: the time elapsed
/// since the epoch, or an error for a clock set before it.
#[verifier::external_body]
fn since_unix_epoch(t: &SystemTime) -> Result<Duration, SystemTimeError> {
    t.duration_since(std::time::UNIX_EPOCH)
}

#[verifier::external_type_specification]
#[verifier::external_body]
pub struct ExThreadRng(ThreadRng);

/// Relies on `rand::thread_rng`: a handle to the thread's random generator;
/// nothing is promised of it.
pub assume_specification[ rand::thread_rng ]() -> ThreadRng;

/// Relies on `Rng::gen_range` on an exclusive range: a value drawn uniformly
/// from `[low, high)`. `gen_range` panics on an empty range, which `requires`
/// leaves out.
#[verifier::external_body]
pub(crate) fn draw_in_range(rng: &mut ThreadRng, low: i64, high: i64) -> (r: i64)
    requires
        low < high,
    ensures
        low <= r < high,
{
    rng.gen_range(low..high)
}

/// The timestamp for a reading of the wall clock: the whole milliseconds
/// elapsed since the Unix epoch, `0` for a clock set before it (`None`), and
/// `i64::MAX` past the range of an `i64`.
pub open spec fn timestamp_spec(elapsed_ms: Option<u128>) -> int {
    match elapsed_ms {
        None => 0,
        Some(m) => if m > i64::MAX as u128 { i64::MAX as int } else { m as int },
    }
}

/// Turns the milliseconds elapsed since the epoch into a timestamp.
pub fn timestamp_from_elapsed(elapsed_ms: Option<u128>) -> (r: i64)
    ensures
        r as int == timestamp_spec(elapsed_ms),
        r >= 0,
{
    match elapsed_ms {
        None => 0,
        Some(m) => if m > i64::MAX as u128 { i64::MAX } else { m as i64 },
    }
}

/// Milliseconds since the Unix epoch on the wall clock, as
/// `timestamp_from_elapsed` converts them.
pub fn current_timestamp_ms() -> (r: i64)
    ensures
        r >= 0,
{
    let now = SystemTime::now();
    let elapsed_ms = match since_unix_epoch(&now) {
        Ok(elapsed) => Some(elapsed.as_millis()),
        Err(_) => None,
    };
    timestamp_from_elapsed(elapsed_ms)
}

} // verus!
