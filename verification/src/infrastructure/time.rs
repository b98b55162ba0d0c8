//! Instants and durations as the service keeps them: a payment's instant is
//! whole nanoseconds since the Unix epoch (the form in which it is
//! persisted), a summary window's ends are whole milliseconds (the resolution
//! at which payments are scored), durations are std's `Duration`.
use std::time::Duration;
use vstd::prelude::*;

verus! {

/// What `std::time::Duration::from_secs` gives for a whole number of seconds.
pub uninterp spec fn duration_of_secs(secs: u64) -> Duration;

/// Calls `std::time::Duration::from_secs`. The contract claims only that the
/// duration is the one std makes from these seconds: equal seconds give equal
/// durations.
#[verifier::external_body]
pub(crate) fn duration_from_secs(secs: u64) -> (duration: Duration)
    ensures
        duration == duration_of_secs(secs),
{
    Duration::from_secs(secs)
}

/// What `std::time::Duration::from_millis` gives for a whole number of
/// milliseconds.
pub uninterp spec fn duration_of_millis(millis: u64) -> Duration;

/// Calls `std::time::Duration::from_millis`. The contract claims only that
/// the duration is the one std makes from these milliseconds.
#[verifier::external_body]
pub(crate) fn duration_from_millis(millis: u64) -> (duration: Duration)
    ensures
        duration == duration_of_millis(millis),
{
    Duration::from_millis(millis)
}

/// The instant chrono reads from an RFC 3339 text, in whole milliseconds
/// since the Unix epoch (rounded towards the past); none when chrono rejects
/// the text.
pub uninterp spec fn rfc3339_millis(text: Seq<char>) -> Option<i64>;

/// Calls `chrono::DateTime::parse_from_rfc3339` and reads the instant with
/// `timestamp_millis`, which is defined on every instant chrono holds. The
/// contract claims only that the result is a function of the text; which
/// texts chrono accepts is left to chrono.
#[verifier::external_body]
pub(crate) fn parse_rfc3339_millis(text: &str) -> (millis: Option<i64>)
    ensures
        millis == rfc3339_millis(text@),
{
    match chrono::DateTime::parse_from_rfc3339(text) {
        Ok(instant) => Some(instant.timestamp_millis()),
        Err(_) => None,
    }
}

/// Reads the system clock with `std::time::SystemTime::now`, turns the
/// reading into chrono's `DateTime<Utc>` with chrono's `From<SystemTime>`
/// (which takes a reading before the Unix epoch as a negative instant rather
/// than failing) and reads the instant with `timestamp_nanos_opt`. The clock
/// decides the value, so the contract states nothing of it; it is none when
/// the reading lies outside what i64 nanoseconds hold (before 1677 or after
/// 2262). chrono's conversion itself only fails for a reading some 262,000
/// years away from the epoch, which `SystemTime::now` does not give on the
/// platforms the service runs on; nothing here states that.
#[verifier::external_body]
pub(crate) fn utc_now_nanos() -> (nanos: Option<i64>) {
    chrono::DateTime::<chrono::Utc>::from(std::time::SystemTime::now()).timestamp_nanos_opt()
}

/// The whole milliseconds since the epoch of an instant given in nanoseconds,
/// rounded towards the past (chrono's `timestamp_millis` of that instant).
pub open spec fn millis_of(nanos: i64) -> int {
    nanos as int / 1_000_000
}

/// chrono's `DateTime::from_timestamp_nanos(nanos).timestamp_millis()`: the
/// instant is split into whole seconds and the nanoseconds past them, and the
/// milliseconds are the seconds times a thousand plus the whole milliseconds
/// of the remainder, which is the floor of nanos / 10^6.
pub fn millis_from_nanos(nanos: i64) -> (millis: i64)
    ensures
        millis == millis_of(nanos),
{
    match nanos.checked_div_euclid(1_000_000) {
        Some(millis) => millis,
        None => {
            proof {
                assert(i64::MIN <= nanos as int / 1_000_000 <= i64::MAX) by (nonlinear_arith)
                    requires
                        i64::MIN <= nanos <= i64::MAX,
                ;
            }
            0
        },
    }
}

/// Later instants never have fewer milliseconds.
pub proof fn lemma_millis_monotonic(earlier: i64, later: i64)
    requires
        earlier <= later,
    ensures
        millis_of(earlier) <= millis_of(later),
{
    assert(earlier as int / 1_000_000 <= later as int / 1_000_000) by (nonlinear_arith)
        requires
            earlier <= later,
    ;
}

} // verus!
