//! Allocator statistics: snapshots of the process allocator's counters and
//! the one reported artifact of a run, the per-batch delta.
//!
//! The counters come from jemalloc's introspection interface. jemalloc caches
//! its statistics, so a measurement is always "advance the epoch, then read":
//! the two reads after one advance form one logically atomic snapshot.

use vstd::prelude::*;

verus! {

/// A point-in-time view of the process allocator's counters, immutable once
/// taken.
#[derive(Clone, Copy, Debug, PartialEq, Eq, Structural)]
pub struct StatsSnapshot {
    /// Bytes currently allocated by the application and not yet freed.
    pub allocated: u64,
    /// Bytes of physical memory currently backing the process.
    pub resident: u64,
}

/// One emitted report: the spawn index at which the sample was taken and the
/// growth of both counters since the previous sample.
#[derive(Clone, Copy, Debug, PartialEq, Eq, Structural)]
pub struct SampleReport {
    /// The spawn index at which this sample was taken.
    pub index: usize,
    /// Bytes allocated since the previous sample (negative if memory was
    /// freed in the meantime).
    pub delta_allocated: i64,
    /// Resident bytes gained since the previous sample.
    pub delta_resident: i64,
}

/// Why a measurement failed. Both conditions are fatal to a run: the whole
/// point of the program is an accurate measurement, so nothing is retried.
#[derive(Clone, Copy, Debug, PartialEq, Eq, Structural)]
pub enum StatsError {
    /// The allocator's statistics subsystem refused the request, for example
    /// because it is disabled in this build of the allocator.
    Unavailable,
    /// A counter is too large for the signed deltas of a report.
    CounterOutOfRange,
}

/// A counter fits the signed 64-bit deltas of a report.
pub open spec fn counter_in_range(c: u64) -> bool {
    c <= i64::MAX as u64
}

#[verifier::external_type_specification]
#[verifier::external_body]
pub struct ExError(jemalloc_ctl::Error);

/// Relies on jemalloc_ctl::epoch::advance: asks jemalloc to refresh its
/// cached statistics, returning the previous epoch, or an error if the
/// statistics subsystem refuses.
#[verifier::external_body]
fn advance_epoch() -> (r: Result<u64, jemalloc_ctl::Error>) {
    jemalloc_ctl::epoch::advance()
}

/// Relies on jemalloc_ctl::stats::allocated::read: the total number of bytes
/// allocated by the application, as published at the last epoch advance.
#[verifier::external_body]
fn read_allocated() -> (r: Result<usize, jemalloc_ctl::Error>) {
    jemalloc_ctl::stats::allocated::read()
}

/// Relies on jemalloc_ctl::stats::resident::read: the total number of bytes
/// in physically resident pages mapped by the allocator, as published at the
/// last epoch advance.
#[verifier::external_body]
fn read_resident() -> (r: Result<usize, jemalloc_ctl::Error>) {
    jemalloc_ctl::stats::resident::read()
}

/// Takes one measurement: advances the statistics epoch, then reads both
/// counters. The counters depend on the state of the process, so nothing can
/// be promised of their values; any refusal by the allocator maps to
/// `StatsError::Unavailable`.
pub fn measure() -> (r: Result<StatsSnapshot, StatsError>)
    ensures
        r matches Err(e) ==> e == StatsError::Unavailable,
{
    match advance_epoch() {
        Ok(_) => {},
        Err(_) => {
            return Err(StatsError::Unavailable);
        },
    }
    let allocated: usize = match read_allocated() {
        Ok(a) => a,
        Err(_) => {
            return Err(StatsError::Unavailable);
        },
    };
    let resident: usize = match read_resident() {
        Ok(s) => s,
        Err(_) => {
            return Err(StatsError::Unavailable);
        },
    };
    Ok(StatsSnapshot { allocated: allocated as u64, resident: resident as u64 })
}

} // verus!
