//! Reading the system clock, and the time since the Unix epoch in milliseconds.

use vstd::prelude::*;
use vstd::arithmetic::div_mod::lemma_fundamental_div_mod_converse;

verus! {

#[verifier::external_type_specification]
#[verifier::external_body]
pub struct ExSystemTime(std::time::SystemTime);

/// A reading of the system clock: how far it stands from the Unix epoch, in whole seconds
/// and the nanoseconds beyond them, after the epoch or before it.
pub enum ClockReading {
    After { secs: u64, nanos: u32 },
    Before { secs: u64, nanos: u32 },
}

impl ClockReading {
    /// The nanoseconds part is below one second.
    pub open spec fn wf(self) -> bool {
        match self {
            ClockReading::After { nanos, .. } => nanos < 1_000_000_000,
            ClockReading::Before { nanos, .. } => nanos < 1_000_000_000,
        }
    }

    /// The reading in nanoseconds since the epoch, negative before it.
    pub open spec fn nanos_since_epoch(self) -> int {
        match self {
            ClockReading::After { secs, nanos } => secs * 1_000_000_000 + nanos,
            ClockReading::Before { secs, nanos } => -(secs * 1_000_000_000 + nanos),
        }
    }

    /// The whole seconds since the epoch, rounded down.
    pub open spec fn seconds(self) -> int {
        self.nanos_since_epoch() / 1_000_000_000
    }

    /// The nanoseconds beyond `seconds`.
    pub open spec fn subsec_nanos(self) -> int {
        self.nanos_since_epoch() % 1_000_000_000
    }
}

/// The current time of the system clock (std `SystemTime::now`).
/// Trusted: the time is read from the machine, so nothing is said of it.
#[verifier::external_body]
fn system_now() -> (r: std::time::SystemTime) {
    std::time::SystemTime::now()
}

/// How far `t` lies from the Unix epoch (std `SystemTime::duration_since(UNIX_EPOCH)`):
/// after it by the returned duration, or before it by the duration of the error.
/// Trusted: std documents that `subsec_nanos` is below one billion. A `SystemTime` is
/// opaque to Verus, so the contract says nothing of how the numbers follow from `t`.
#[verifier::external_body]
fn offset_from_epoch(t: &std::time::SystemTime) -> (r: ClockReading)
    ensures
        r.wf(),
{
    match t.duration_since(std::time::UNIX_EPOCH) {
        Ok(d) => ClockReading::After { secs: d.as_secs(), nanos: d.subsec_nanos() },
        Err(e) => ClockReading::Before { secs: e.duration().as_secs(), nanos: e.duration().subsec_nanos() },
    }
}

/// Reads the system clock, before the epoch as well as after it.
pub fn read_clock() -> (r: ClockReading)
    ensures
        r.wf(),
{
    let now = system_now();
    offset_from_epoch(&now)
}

/// The milliseconds since the epoch of a reading, rounded down as chrono's
/// `timestamp_millis` counts them, when they fit in an `i64`.
pub open spec fn epoch_millis(reading: ClockReading) -> Option<i64> {
    let m = reading.nanos_since_epoch() / 1_000_000;
    if i64::MIN <= m <= i64::MAX {
        Some(m as i64)
    } else {
        None
    }
}

/// The milliseconds since the epoch of a reading, or `None` when they do not fit in an `i64`.
pub fn millis_since_epoch(reading: &ClockReading) -> (r: Option<i64>)
    requires
        reading.wf(),
    ensures
        r == epoch_millis(*reading),
{
    match reading {
        ClockReading::After { secs, nanos } => {
            let q: u32 = *nanos / 1_000_000;
            let m: u128 = (*secs as u128) * 1000 + q as u128;
            proof {
                let total: int = *secs * 1_000_000_000 + *nanos;
                lemma_fundamental_div_mod_converse(
                    total,
                    1_000_000,
                    m as int,
                    (*nanos % 1_000_000) as int,
                );
            }
            if m <= 9_223_372_036_854_775_807u128 {
                Some(m as i64)
            } else {
                None
            }
        },
        ClockReading::Before { secs, nanos } => {
            let c: u32 = (*nanos + 999_999) / 1_000_000;
            let m: u128 = (*secs as u128) * 1000 + c as u128;
            proof {
                let total: int = *secs * 1_000_000_000 + *nanos;
                assert(c * 1_000_000 <= *nanos + 999_999 < c * 1_000_000 + 1_000_000);
                lemma_fundamental_div_mod_converse(
                    -total,
                    1_000_000,
                    -(m as int),
                    c * 1_000_000 - *nanos,
                );
            }
            if m <= 9_223_372_036_854_775_808u128 {
                let v: i128 = 0i128 - (m as i128);
                Some(v as i64)
            } else {
                None
            }
        },
    }
}

/// The milliseconds of a reading are the whole milliseconds up to it, rounded down also
/// before the epoch: the reading lies in the millisecond they start.
pub proof fn lemma_millis_round_down(reading: ClockReading)
    ensures
        epoch_millis(reading) matches Some(m) ==> m * 1_000_000 <= reading.nanos_since_epoch()
            < m * 1_000_000 + 1_000_000,
{
    let t = reading.nanos_since_epoch();
    vstd::arithmetic::div_mod::lemma_fundamental_div_mod(t, 1_000_000);
}

/// A reading splits into whole seconds, rounded down, and the nanoseconds beyond them, which
/// lie within the second.
pub proof fn lemma_reading_splits_into_seconds(reading: ClockReading)
    ensures
        reading.seconds() * 1_000_000_000 + reading.subsec_nanos() == reading.nanos_since_epoch(),
        0 <= reading.subsec_nanos() < 1_000_000_000,
{
    vstd::arithmetic::div_mod::lemma_fundamental_div_mod(reading.nanos_since_epoch(), 1_000_000_000);
}

} // verus!
