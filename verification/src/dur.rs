//! A span of time with nanosecond resolution, held as whole seconds plus a
//! sub-second nanosecond count. Generators measure timestamps as such spans
//! elapsed since their epoch; flakes keep the span they were minted at.

use vstd::prelude::*;

verus! {

pub const NANOS_PER_SEC: u32 = 1_000_000_000;
pub const NANOS_PER_MILLI: u32 = 1_000_000;
pub const MILLIS_PER_SEC: u64 = 1_000;

/// A non-negative span of time: `secs` whole seconds plus `nanos`
/// sub-second nanoseconds (`nanos < 1_000_000_000` when well formed).
#[derive(Clone, Copy, Debug, PartialEq, Eq, Structural)]
pub struct Dur {
    pub secs: u64,
    pub nanos: u32,
}

impl Dur {
    /// A well-formed span keeps its nanosecond part below one second.
    pub open spec fn wf(self) -> bool {
        self.nanos < NANOS_PER_SEC
    }

    /// The whole number of milliseconds in the span.
    pub open spec fn spec_millis(self) -> int {
        self.secs * MILLIS_PER_SEC + self.nanos / NANOS_PER_MILLI
    }

    /// The span as a total nanosecond count.
    pub open spec fn spec_nanos(self) -> int {
        self.secs as int * NANOS_PER_SEC as int + self.nanos as int
    }

    /// Builds the span that holds exactly `millis` milliseconds.
    pub fn from_millis(millis: u64) -> (r: Dur)
        ensures
            r.wf(),
            r.spec_millis() == millis as int,
            r.nanos % NANOS_PER_MILLI == 0,
    {
        let secs: u64 = millis / MILLIS_PER_SEC;
        let rem: u64 = millis % MILLIS_PER_SEC;
        let nanos: u32 = (rem as u32) * NANOS_PER_MILLI;
        Dur { secs, nanos }
    }

    /// Builds the span that holds exactly `nanos` nanoseconds.
    pub fn from_nanos(nanos: u64) -> (r: Dur)
        ensures
            r.wf(),
            r.spec_nanos() == nanos as int,
    {
        let secs: u64 = nanos / (NANOS_PER_SEC as u64);
        let sub: u32 = (nanos % (NANOS_PER_SEC as u64)) as u32;
        proof {
            vstd::arithmetic::div_mod::lemma_fundamental_div_mod(
                nanos as int,
                NANOS_PER_SEC as int,
            );
        }
        Dur { secs, nanos: sub }
    }

    /// Whole seconds in the span.
    pub fn as_secs(&self) -> (r: u64)
        ensures
            r == self.secs,
    {
        self.secs
    }

    /// Sub-second part of the span, in nanoseconds.
    pub fn subsec_nanos(&self) -> (r: u32)
        ensures
            r == self.nanos,
    {
        self.nanos
    }

    /// Whole milliseconds in the span.
    pub fn as_millis(&self) -> (r: u128)
        ensures
            r == self.spec_millis(),
    {
        proof {
            assert(self.secs as int * MILLIS_PER_SEC as int
                <= u64::MAX as int * MILLIS_PER_SEC as int) by (nonlinear_arith);
        }
        self.secs as u128 * MILLIS_PER_SEC as u128 + (self.nanos / NANOS_PER_MILLI) as u128
    }

    /// Whether the spans land on the same whole millisecond.
    pub fn same_millis(&self, other: &Dur) -> (r: bool)
        ensures
            r == (self.spec_millis() == other.spec_millis()),
    {
        self.as_millis() == other.as_millis()
    }

    /// The difference `self - other`, or `None` when `other` is longer.
    pub fn checked_sub(&self, other: &Dur) -> (r: Option<Dur>)
        requires
            self.wf(),
            other.wf(),
        ensures
            match r {
                Some(d) => d.wf() && d.spec_nanos() == self.spec_nanos() - other.spec_nanos(),
                None => self.spec_nanos() < other.spec_nanos(),
            },
    {
        if self.secs > other.secs {
            if self.nanos >= other.nanos {
                Some(Dur { secs: self.secs - other.secs, nanos: self.nanos - other.nanos })
            } else {
                let secs: u64 = self.secs - other.secs - 1;
                let nanos: u32 = self.nanos + NANOS_PER_SEC - other.nanos;
                proof {
                    assert((self.secs - other.secs - 1) as int * NANOS_PER_SEC as int
                        == self.secs as int * NANOS_PER_SEC as int
                            - other.secs as int * NANOS_PER_SEC as int - NANOS_PER_SEC as int)
                        by (nonlinear_arith);
                }
                Some(Dur { secs, nanos })
            }
        } else if self.secs == other.secs && self.nanos >= other.nanos {
            Some(Dur { secs: 0, nanos: self.nanos - other.nanos })
        } else {
            proof {
                if self.secs < other.secs {
                    assert(self.secs as int * NANOS_PER_SEC as int + NANOS_PER_SEC as int
                        <= other.secs as int * NANOS_PER_SEC as int) by (nonlinear_arith)
                        requires
                            self.secs < other.secs,
                    ;
                }
            }
            None
        }
    }

    /// The span as a total nanosecond count, in a machine word.
    pub fn total_nanos(&self) -> (r: u128)
        ensures
            r == self.spec_nanos(),
    {
        proof {
            assert(self.secs as int * NANOS_PER_SEC as int
                <= u64::MAX as int * NANOS_PER_SEC as int) by (nonlinear_arith);
        }
        self.secs as u128 * NANOS_PER_SEC as u128 + self.nanos as u128
    }

    /// Whether `self` is strictly shorter than `other`.
    pub fn lt(&self, other: &Dur) -> (r: bool)
        requires
            self.wf(),
            other.wf(),
        ensures
            r == (self.spec_nanos() < other.spec_nanos()),
    {
        proof {
            if self.secs < other.secs {
                assert((self.secs as int * NANOS_PER_SEC as int + self.nanos as int)
                    < (other.secs as int * NANOS_PER_SEC as int + other.nanos as int))
                    by (nonlinear_arith)
                    requires
                        self.secs < other.secs,
                        self.nanos < NANOS_PER_SEC,
                ;
            } else if self.secs > other.secs {
                assert((self.secs as int * NANOS_PER_SEC as int + self.nanos as int)
                    >= (other.secs as int * NANOS_PER_SEC as int + other.nanos as int))
                    by (nonlinear_arith)
                    requires
                        self.secs > other.secs,
                        other.nanos < NANOS_PER_SEC,
                ;
            }
        }
        if self.secs != other.secs {
            self.secs < other.secs
        } else {
            self.nanos < other.nanos
        }
    }
}

} // verus!
