use vstd::prelude::*;
use crate::counters::Counters;

verus! {

/// Nanoseconds in one second.
pub const NANOS_PER_SECOND: u128 = 1_000_000_000;

/// Network totals observed at one moment, the moment given in nanoseconds
/// from an origin that the caller keeps fixed.
#[derive(Clone, Copy, Debug, PartialEq, Eq, Structural)]
pub struct Snapshot {
    pub at: u128,
    pub totals: Counters,
}

/// A throughput: `bytes` moved over `nanos` nanoseconds.
///
/// A window of zero nanoseconds stands for "no measurable interval"; such a
/// rate carries no bytes and reads as zero bytes per second.
#[derive(Clone, Copy, Debug, PartialEq, Eq, Structural)]
pub struct Rate {
    pub bytes: u64,
    pub nanos: u128,
}

/// Download and upload rates reported by one observation.
#[derive(Clone, Copy, Debug, PartialEq, Eq, Structural)]
pub struct Throughput {
    pub download: Rate,
    pub upload: Rate,
}

/// The rate of zero bytes over no interval.
pub open spec fn zero_rate() -> Rate {
    Rate { bytes: 0, nanos: 0 }
}

/// Zero in both directions.
pub open spec fn idle() -> Throughput {
    Throughput { download: zero_rate(), upload: zero_rate() }
}

/// Difference of two cumulative counters, clamped at zero when the counter
/// went down (a reset or a change of the interface set).
pub open spec fn saturating_delta(new: u64, prior: u64) -> u64 {
    if new >= prior {
        (new - prior) as u64
    } else {
        0
    }
}

/// What an observation `now` reports, given the previous observation.
///
/// Without a previous observation, or when the clock did not advance, both
/// rates are zero. Otherwise each direction reports its clamped byte delta
/// over the elapsed time.
pub open spec fn throughput_after(last: Option<Snapshot>, now: Snapshot) -> Throughput {
    match last {
        None => idle(),
        Some(p) => if now.at > p.at {
            Throughput {
                download: Rate {
                    bytes: saturating_delta(now.totals.received, p.totals.received),
                    nanos: (now.at - p.at) as u128,
                },
                upload: Rate {
                    bytes: saturating_delta(now.totals.transmitted, p.totals.transmitted),
                    nanos: (now.at - p.at) as u128,
                },
            }
        } else {
            idle()
        },
    }
}

impl Rate {
    /// Whole bytes per second, rounded down; zero over an empty window.
    pub open spec fn per_second(self) -> int {
        if self.nanos == 0 {
            0
        } else {
            (self.bytes * NANOS_PER_SECOND) as int / self.nanos as int
        }
    }

    /// The rate in whole bytes per second, rounded down.
    pub fn bytes_per_second(&self) -> (r: u128)
        ensures
            r == self.per_second(),
    {
        if self.nanos == 0 {
            0
        } else {
            let b = self.bytes as u128;
            assert(b * NANOS_PER_SECOND <= u64::MAX * NANOS_PER_SECOND) by (nonlinear_arith)
                requires
                    b <= u64::MAX,
            ;
            b * NANOS_PER_SECOND / self.nanos
        }
    }
}

impl Throughput {
    /// Zero bytes over no interval, in both directions.
    pub fn zero() -> (r: Throughput)
        ensures
            r == idle(),
    {
        Throughput { download: Rate { bytes: 0, nanos: 0 }, upload: Rate { bytes: 0, nanos: 0 } }
    }
}

/// The previous network observation, from which the next one derives its
/// rates. Starts empty.
pub struct RateTracker {
    last: Option<Snapshot>,
}

impl View for RateTracker {
    type V = Option<Snapshot>;

    closed spec fn view(&self) -> Option<Snapshot> {
        self.last
    }
}

impl RateTracker {
    /// A tracker that has seen nothing yet.
    pub fn new() -> (r: RateTracker)
        ensures
            r@ is None,
    {
        RateTracker { last: None }
    }

    /// The observation that the next one is measured against.
    pub fn last(&self) -> (r: Option<Snapshot>)
        ensures
            r == self@,
    {
        self.last
    }

    /// Reports the rates since the previous observation and makes `now` the
    /// new baseline, whatever was reported.
    pub fn observe(&mut self, now: Snapshot) -> (r: Throughput)
        ensures
            r == throughput_after(old(self)@, now),
            final(self)@ == Some(now),
    {
        let r = match self.last {
            None => Throughput::zero(),
            Some(p) => {
                if now.at > p.at {
                    let elapsed = now.at - p.at;
                    Throughput {
                        download: Rate {
                            bytes: now.totals.received.saturating_sub(p.totals.received),
                            nanos: elapsed,
                        },
                        upload: Rate {
                            bytes: now.totals.transmitted.saturating_sub(p.totals.transmitted),
                            nanos: elapsed,
                        },
                    }
                } else {
                    Throughput::zero()
                }
            },
        };
        self.last = Some(now);
        r
    }
}

} // verus!
