//! Where the readings of a record come from: a clock and the identity of the
//! process and thread that record.

use vstd::prelude::*;

verus! {

/// Calls `time::precise_time_ns`: the current value of a high-resolution
/// counter, in nanoseconds since an epoch that is not specified. The value
/// depends on the moment of the call, so nothing is claimed of it. (On a
/// target for which the `time` crate has no counter, the call panics.)
#[verifier::external_body]
fn precise_time_ns() -> u64 {
    time::precise_time_ns()
}

/// Whole microseconds in `ns` nanoseconds.
pub fn nanos_to_micros(ns: u64) -> (t: u64)
    ensures
        t == ns / 1000,
{
    ns / 1000
}

/// The current value of the system's high-resolution counter, in whole
/// microseconds. Two calls may differ in any way: of the value only its range
/// is known.
pub fn precise_time_microsec() -> (t: u64)
    ensures
        t <= u64::MAX / 1000,
{
    nanos_to_micros(precise_time_ns())
}

/// What a source reads the time from.
#[derive(Clone, Copy, Debug, PartialEq, Eq, Structural)]
pub enum Clock {
    /// The system's high-resolution counter.
    System,
    /// A clock that stands still at the given number of microseconds until
    /// it is set again.
    Manual(u64),
}

/// The largest of a raw reading, the reading before it and a floor.
pub open spec fn corrected_reading(raw: u64, last: u64, floor: u64) -> u64 {
    if raw >= last && raw >= floor {
        raw
    } else if last >= floor {
        last
    } else {
        floor
    }
}

/// The mathematical value of a `Source`.
pub struct SourceView {
    /// The identifier of the process.
    pub pid: u32,
    /// The identifier of the thread.
    pub tid: u64,
    /// The clock that is read.
    pub clock: Clock,
    /// The latest timestamp handed out, `0` before the first.
    pub last: u64,
    /// How many times the clock has been read through this source.
    pub samples: nat,
}

impl SourceView {
    /// The source after one more reading that handed out `t`.
    pub open spec fn sampled(self, t: u64) -> SourceView {
        SourceView { last: t, samples: self.samples + 1, ..self }
    }

    /// The source after its clock was set to stand at `raw`.
    pub open spec fn set_to(self, raw: u64) -> SourceView {
        SourceView { clock: Clock::Manual(raw), ..self }
    }

    /// Whether one reading of this source may hand out `t` when nothing
    /// earlier than `floor` is wanted: `t` is neither earlier than the
    /// timestamp before it nor than `floor`, and on a clock that stands
    /// still it is the largest of the three.
    pub open spec fn hands_out(self, t: u64, floor: u64) -> bool {
        &&& self.last <= t
        &&& floor <= t
        &&& self.clock matches Clock::Manual(raw) ==> t == corrected_reading(raw, self.last, floor)
    }

    /// Whether `next` is this source after one reading that was not to be
    /// earlier than `floor`: only the timestamp and the count of readings
    /// have changed.
    pub open spec fn reads_after(self, floor: u64, next: SourceView) -> bool {
        next == self.sampled(next.last) && self.hands_out(next.last, floor)
    }

    /// Whether `next` is this source after one reading.
    pub open spec fn reads_to(self, next: SourceView) -> bool {
        self.reads_after(0, next)
    }
}

/// A clock together with the identity of one thread of one process.
///
/// The timestamps it hands out are in microseconds and never decrease,
/// whatever the clock underneath does.
pub struct Source {
    pid: u32,
    tid: u64,
    clock: Clock,
    last: u64,
    samples: Ghost<nat>,
}

impl View for Source {
    type V = SourceView;

    closed spec fn view(&self) -> SourceView {
        SourceView {
            pid: self.pid,
            tid: self.tid,
            clock: self.clock,
            last: self.last,
            samples: self.samples@,
        }
    }
}

impl Source {
    /// A source on the system clock for the given process and thread.
    pub fn new(pid: u32, tid: u64) -> (s: Source)
        ensures
            s@ == (SourceView { pid, tid, clock: Clock::System, last: 0, samples: 0 }),
    {
        Source { pid, tid, clock: Clock::System, last: 0, samples: Ghost(0) }
    }

    /// A source on a clock that stands at `raw` microseconds.
    pub fn manual(pid: u32, tid: u64, raw: u64) -> (s: Source)
        ensures
            s@ == (SourceView { pid, tid, clock: Clock::Manual(raw), last: 0, samples: 0 }),
    {
        Source { pid, tid, clock: Clock::Manual(raw), last: 0, samples: Ghost(0) }
    }

    /// Replaces the clock by one that stands at `raw` microseconds.
    pub fn set_reading(&mut self, raw: u64)
        ensures
            final(self)@ == old(self)@.set_to(raw),
    {
        self.clock = Clock::Manual(raw);
    }

    /// The identifier of the process.
    pub fn process_id(&self) -> (pid: u32)
        ensures
            pid == self@.pid,
    {
        self.pid
    }

    /// The identifier of the thread.
    pub fn thread_id(&self) -> (tid: u64)
        ensures
            tid == self@.tid,
    {
        self.tid
    }

    /// The latest timestamp handed out, `0` before the first.
    pub fn last_reading(&self) -> (t: u64)
        ensures
            t == self@.last,
    {
        self.last
    }

    /// Reads the clock once and hands out a timestamp that is neither
    /// earlier than the one before nor earlier than `floor`.
    pub fn now_after(&mut self, floor: u64) -> (t: u64)
        ensures
            t == final(self)@.last,
            old(self)@.reads_after(floor, final(self)@),
    {
        let raw: u64 = match self.clock {
            Clock::System => precise_time_microsec(),
            Clock::Manual(raw) => raw,
        };
        let t: u64 = if raw >= self.last && raw >= floor {
            raw
        } else if self.last >= floor {
            self.last
        } else {
            floor
        };
        self.last = t;
        proof {
            self.samples@ = self.samples@ + 1;
        }
        t
    }

    /// Reads the clock once and hands out a timestamp that is not earlier
    /// than the one before.
    pub fn now(&mut self) -> (t: u64)
        ensures
            t == final(self)@.last,
            old(self)@.reads_to(final(self)@),
    {
        self.now_after(0)
    }
}

} // verus!
