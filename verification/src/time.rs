//! Frame time: the elapsed-time value a host reports, and the two ways of
//! reading it as a movement.

use vstd::prelude::*;

verus! {

/// Nanoseconds in one second.
pub const NANOS_PER_SEC: u128 = 1_000_000_000;

/// The time that passed between two frames, in whole nanoseconds.
#[derive(Clone, Copy, Debug, PartialEq, Eq, Structural)]
pub struct FrameDelta {
    pub nanos: u128,
}

impl FrameDelta {
    /// No time at all.
    pub fn zero() -> (d: FrameDelta)
        ensures
            d.nanos == 0,
    {
        FrameDelta { nanos: 0 }
    }

    /// A delta of `nanos` nanoseconds.
    pub fn from_nanos(nanos: u128) -> (d: FrameDelta)
        ensures
            d.nanos == nanos,
    {
        FrameDelta { nanos }
    }

    /// A delta of `secs` whole seconds and `nanos` further nanoseconds.
    /// `nanos` may itself exceed one second; the total is what counts.
    pub fn new(secs: u64, nanos: u32) -> (d: FrameDelta)
        ensures
            d.nanos == secs * NANOS_PER_SEC + nanos,
    {
        let whole: u128 = secs as u128 * NANOS_PER_SEC;
        FrameDelta { nanos: whole + nanos as u128 }
    }

    /// The part of the delta below one second, in nanoseconds.
    pub open spec fn subsec(self) -> nat {
        (self.nanos % NANOS_PER_SEC) as nat
    }

    /// The total length in nanoseconds.
    pub fn as_nanos(&self) -> (n: u128)
        ensures
            n == self.nanos,
    {
        self.nanos
    }

    /// The part of the delta below one second, in nanoseconds: the total
    /// modulo one second. Whole seconds do not show in it.
    pub fn subsec_nanos(&self) -> (n: u32)
        ensures
            n == self.subsec(),
            n < NANOS_PER_SEC,
    {
        (self.nanos % NANOS_PER_SEC) as u32
    }
}

/// How a frame delta is read as a movement of the circle.
///
/// One nanosecond of counted time moves the circle by one tick, which is
/// about a tenth of a pixel per millisecond.
#[derive(Clone, Copy, Debug, PartialEq, Eq, Structural)]
pub enum Timing {
    /// Only the part of the delta below one second counts. This is the
    /// default. The movement is discontinuous at whole seconds: a frame that
    /// took 1.5 s moves the circle as far as one that took 0.5 s, and a frame
    /// of exactly one second does not move it at all.
    Subsecond,
    /// The whole delta counts, seconds included.
    Whole,
}

impl Timing {
    /// The number of ticks by which a frame of length `elapsed` moves the
    /// circle.
    pub open spec fn ticks_for(self, elapsed: FrameDelta) -> nat {
        match self {
            Timing::Subsecond => elapsed.subsec(),
            Timing::Whole => elapsed.nanos as nat,
        }
    }

    /// Computes the number of ticks by which a frame of length `elapsed`
    /// moves the circle.
    pub fn ticks(&self, elapsed: FrameDelta) -> (t: u128)
        ensures
            t == self.ticks_for(elapsed),
    {
        match self {
            Timing::Subsecond => elapsed.subsec_nanos() as u128,
            Timing::Whole => elapsed.as_nanos(),
        }
    }
}

} // verus!
