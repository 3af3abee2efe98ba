//! The frame clock: per-frame elapsed time and frame delta, measured in
//! integer nanoseconds from a monotonic source. The caller samples its
//! monotonic clock and hands the reading in; the clock turns readings
//! into per-frame timing values whose monotonicity is proved here.

use vstd::prelude::*;

verus! {

/// The scalar inputs of one frame: time since startup and time since
/// the previous frame, both in nanoseconds.
#[derive(Clone, Copy, PartialEq, Eq, Structural, Debug)]
pub struct FrameTiming {
    pub time_nanos: u64,
    pub delta_nanos: u64,
}

/// Tracks the startup instant and the instant of the most recent frame,
/// as nanosecond readings of one monotonic clock.
#[derive(Clone, Copy, PartialEq, Eq, Structural, Debug)]
pub struct FrameClock {
    pub start: u64,
    pub last: u64,
}

impl FrameClock {
    /// The most recent frame is never earlier than startup.
    pub open spec fn wf(self) -> bool {
        self.start <= self.last
    }

    /// Time of the most recently produced frame, relative to startup.
    pub open spec fn elapsed(self) -> int {
        self.last - self.start
    }

    /// The clock after a frame at reading `now`, and that frame's timing.
    pub open spec fn advance_spec(self, now: u64) -> (FrameClock, FrameTiming) {
        (
            FrameClock { start: self.start, last: now },
            FrameTiming {
                time_nanos: (now - self.start) as u64,
                delta_nanos: (now - self.last) as u64,
            },
        )
    }

    /// A fresh clock whose first frame will report time zero.
    pub fn new(start: u64) -> (c: Self)
        ensures
            c == (FrameClock { start, last: start }),
            c.wf(),
            c.elapsed() == 0,
    {
        FrameClock { start, last: start }
    }

    /// Produces the timing of the frame at reading `now` and records
    /// `now` as the most recent frame.
    ///
    /// `time_nanos` never decreases across consecutive frames, and
    /// `delta_nanos` is exactly the increase of `time_nanos` since the
    /// previous frame.
    pub fn advance(&mut self, now: u64) -> (t: FrameTiming)
        requires
            old(self).wf(),
            now >= old(self).last,
        ensures
            (*final(self), t) == old(self).advance_spec(now),
            final(self).wf(),
            t.time_nanos == now - old(self).start,
            t.delta_nanos == now - old(self).last,
            t.time_nanos == old(self).elapsed() + t.delta_nanos,
            t.time_nanos >= old(self).elapsed(),
            final(self).elapsed() == t.time_nanos,
            final(self).start == old(self).start,
    {
        let time_nanos = now - self.start;
        let delta_nanos = now - self.last;
        self.last = now;
        FrameTiming { time_nanos, delta_nanos }
    }
}

/// For any two consecutive frames produced by one clock — the first at
/// reading `n1`, the next at a reading `n2` that is not earlier — the
/// reported time never decreases, and the second frame's delta is
/// exactly the difference of the two reported times.
pub proof fn lemma_consecutive_frames(c: FrameClock, n1: u64, n2: u64)
    requires
        c.wf(),
        n1 >= c.last,
        n2 >= n1,
    ensures
        ({
            let (c1, t1) = c.advance_spec(n1);
            let (c2, t2) = c1.advance_spec(n2);
            &&& t2.time_nanos >= t1.time_nanos
            &&& t2.delta_nanos == t2.time_nanos - t1.time_nanos
        }),
{
}

} // verus!
