//! Report timestamps.
use vstd::prelude::*;
use std::time::{Duration, SystemTime};

verus! {

#[verifier::external_type_specification]
#[verifier::external_body]
pub struct ExSystemTime(std::time::SystemTime);

/// What `SystemTime::duration_since(UNIX_EPOCH)` gives for `time`: the time
/// elapsed since the Unix epoch, `None` where `time` lies before it.
pub uninterp spec fn epoch_offset(time: SystemTime) -> Option<Duration>;

/// What `Duration::as_secs` gives for `d`: its whole seconds.
pub uninterp spec fn duration_secs(d: Duration) -> u64;

/// `SystemTime::duration_since(UNIX_EPOCH)`, its error turned into `None`.
/// The result depends on `time` alone, so it is named by [`epoch_offset`];
/// what that offset is for a given time is not stated.
#[verifier::external_body]
fn since_unix_epoch(time: SystemTime) -> (r: Option<Duration>)
    ensures
        r == epoch_offset(time),
{
    match time.duration_since(std::time::UNIX_EPOCH) {
        Ok(d) => Some(d),
        Err(_) => None,
    }
}

/// `Duration::as_secs`: the whole seconds of `d`, named by [`duration_secs`].
#[verifier::external_body]
fn whole_seconds(d: Duration) -> (r: u64)
    ensures
        r == duration_secs(d),
{
    d.as_secs()
}

/// The whole seconds since the epoch, zero when the time lies before it.
pub fn seconds_or_zero(secs: Option<u64>) -> (r: u64)
    ensures
        r == (match secs {
            Some(s) => s,
            None => 0,
        }),
{
    match secs {
        Some(s) => s,
        None => 0,
    }
}

/// Seconds since the Unix epoch, or zero for a time before it.
pub fn unix_timestamp_secs(time: SystemTime) -> (r: u64)
    ensures
        r == (match epoch_offset(time) {
            Some(d) => duration_secs(d),
            None => 0,
        }),
{
    let secs = match since_unix_epoch(time) {
        Some(d) => Some(whole_seconds(d)),
        None => None,
    };
    seconds_or_zero(secs)
}

} // verus!
