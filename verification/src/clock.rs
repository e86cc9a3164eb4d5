//! The time of day.
use vstd::prelude::*;

verus! {

/// Declares `std::time::SystemTimeError`.
#[verifier::external_type_specification]
#[verifier::external_body]
pub struct ExSystemTimeError(std::time::SystemTimeError);

/// The whole seconds that a duration contains.
pub uninterp spec fn whole_seconds(d: std::time::Duration) -> u64;

/// `std::time::Duration::as_secs`. Claimed: the number is that of the whole seconds that the
/// duration contains, a function of the duration.
pub assume_specification[ std::time::Duration::as_secs ](d: &std::time::Duration) -> (r: u64)
    ensures
        r == whole_seconds(*d),
;

/// Calls `std::time::SystemTime::elapsed` on the Unix epoch. Nothing is claimed of the outcome:
/// it is what the machine's clock says.
#[verifier::external_body]
fn since_epoch() -> (r: Result<std::time::Duration, std::time::SystemTimeError>) {
    std::time::UNIX_EPOCH.elapsed()
}

/// The time that a reading of the clock gives: its whole seconds, or zero where the clock is set
/// before the Unix epoch.
pub open spec fn reading_secs_spec(
    reading: Result<std::time::Duration, std::time::SystemTimeError>,
) -> u64 {
    match reading {
        Ok(d) => whole_seconds(d),
        Err(_) => 0,
    }
}

/// The time that a reading of the clock gives.
pub fn reading_secs(reading: Result<std::time::Duration, std::time::SystemTimeError>) -> (r: u64)
    ensures
        r == reading_secs_spec(reading),
{
    match reading {
        Ok(d) => d.as_secs(),
        Err(_) => 0,
    }
}

/// Seconds since the Unix epoch; zero on a clock that is set before it. It is the time that some
/// reading of the clock gives; which one is the machine's to say.
pub fn now() -> (r: u64)
    ensures
        exists|reading: Result<std::time::Duration, std::time::SystemTimeError>|
            r == #[trigger] reading_secs_spec(reading),
{
    reading_secs(since_epoch())
}

} // verus!
