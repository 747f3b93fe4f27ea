//! The performance record. Memory and CPU use are not measured; the record
//! carries the time at which it was taken.

use vstd::prelude::*;

verus! {

/// The text reported for a figure that is not measured.
pub const UNKNOWN: &'static str = "Unknown";

/// Memory use, CPU use, and the time of the record in seconds since the Unix epoch.
#[derive(Debug)]
pub struct PerformanceInfo {
    pub memory_usage: String,
    pub cpu_usage: String,
    pub timestamp: i64,
}

/// The record taken at `timestamp`, with both figures unknown.
pub fn performance_info(timestamp: i64) -> (r: PerformanceInfo)
    ensures
        r.memory_usage@ == UNKNOWN@,
        r.cpu_usage@ == UNKNOWN@,
        r.timestamp == timestamp,
{
    PerformanceInfo {
        memory_usage: String::from_str(UNKNOWN),
        cpu_usage: String::from_str(UNKNOWN),
        timestamp,
    }
}

/// Relies on chrono's `From<std::time::SystemTime>` for `DateTime<Utc>` and on
/// `DateTime::timestamp`: the current system time as whole seconds since the
/// Unix epoch, negative for a clock set before 1970. The conversion fails only
/// for a time outside chrono's range, some 262,000 years either side of year
/// zero, beyond any date a system clock can be set to. The value depends on
/// the clock, so nothing is promised of it.
#[verifier::external_body]
fn utc_now_timestamp() -> (r: i64) {
    chrono::DateTime::<chrono::Utc>::from(std::time::SystemTime::now()).timestamp()
}

/// The record taken now: both figures unknown, stamped with the current time.
pub fn get_performance_info() -> (r: PerformanceInfo)
    ensures
        r.memory_usage@ == UNKNOWN@,
        r.cpu_usage@ == UNKNOWN@,
{
    performance_info(utc_now_timestamp())
}

} // verus!
