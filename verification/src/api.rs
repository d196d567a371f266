//! The marks that application code sets: begin and end markers, scoped
//! intervals and timed operations.
//!
//! Every mark asks the activation switch first. Where the switch is inactive
//! nothing is done: the clock is not read and the sink is not touched.

use crate::event::{is_one_line, EventType, EventView, TraceError, TraceEvent};
use crate::source::{Source, SourceView};
use crate::tracer::{is_trace_active, trace, Tracer, TracerView};
use vstd::prelude::*;

verus! {

/// The line of an instant marker that was read from a source: `after` is
/// the source once the clock was read.
pub open spec fn instant_line(
    name: Seq<char>,
    ph: EventType,
    after: SourceView,
    args: Option<serde_json::Value>,
) -> Seq<char> {
    EventView::begun(name, ph, after.last, after.pid, after.tid, args).line()
}

/// What handing a record to the sink leaves behind, given the line the
/// record came to: the call succeeds, the line stands at the end of what the
/// sink holds, and where a sink is open it is one line.
pub open spec fn recorded(
    before: TracerView,
    after: TracerView,
    line: Seq<char>,
    r: Result<(), TraceError>,
) -> bool {
    &&& r is Ok
    &&& after == before.appended(line)
    &&& before.sink is Some ==> is_one_line(line)
}

/// Builds an instant marker of the given kind and hands it to the sink,
/// where the switch is active.
fn trace_instant(
    tracer: &mut Tracer,
    source: &mut Source,
    name: &str,
    event_type: EventType,
    args: Option<serde_json::Value>,
) -> (r: Result<(), TraceError>)
    ensures
        r is Ok,
        !old(tracer)@.active() ==> final(tracer)@ == old(tracer)@ && final(source)@ == old(source)@,
        old(tracer)@.active() ==> old(source)@.reads_to(final(source)@) && recorded(
            old(tracer)@,
            final(tracer)@,
            instant_line(name@, event_type, final(source)@, args),
            r,
        ),
        final(tracer)@ == old(tracer)@.marked(
            instant_line(name@, event_type, final(source)@, args),
        ),
{
    if is_trace_active(tracer) {
        let event = TraceEvent::new(name, event_type, source, args);
        trace(tracer, &event)
    } else {
        Ok(())
    }
}

/// Marks the beginning of an interval named `name`. The matching end is
/// set by `trace_end` with the same name, on the same thread; nothing checks
/// that it follows.
pub fn trace_begin(
    tracer: &mut Tracer,
    source: &mut Source,
    name: &str,
    args: Option<serde_json::Value>,
) -> (r: Result<(), TraceError>)
    ensures
        r is Ok,
        !old(tracer)@.active() ==> final(tracer)@ == old(tracer)@ && final(source)@ == old(source)@,
        old(tracer)@.active() ==> old(source)@.reads_to(final(source)@) && recorded(
            old(tracer)@,
            final(tracer)@,
            instant_line(name@, EventType::DurationBegin, final(source)@, args),
            r,
        ),
        final(tracer)@ == old(tracer)@.marked(
            instant_line(name@, EventType::DurationBegin, final(source)@, args),
        ),
{
    trace_instant(tracer, source, name, EventType::DurationBegin, args)
}

/// Marks the end of an interval named `name`. Nothing checks that a
/// beginning went before it.
pub fn trace_end(
    tracer: &mut Tracer,
    source: &mut Source,
    name: &str,
    args: Option<serde_json::Value>,
) -> (r: Result<(), TraceError>)
    ensures
        r is Ok,
        !old(tracer)@.active() ==> final(tracer)@ == old(tracer)@ && final(source)@ == old(source)@,
        old(tracer)@.active() ==> old(source)@.reads_to(final(source)@) && recorded(
            old(tracer)@,
            final(tracer)@,
            instant_line(name@, EventType::DurationEnd, final(source)@, args),
            r,
        ),
        final(tracer)@ == old(tracer)@.marked(
            instant_line(name@, EventType::DurationEnd, final(source)@, args),
        ),
{
    trace_instant(tracer, source, name, EventType::DurationEnd, args)
}

/// An interval that has begun and has not ended: a whole-interval record
/// without its duration.
pub struct EventGuard<'a> {
    event: TraceEvent<'a>,
}

impl<'a> View for EventGuard<'a> {
    type V = EventView;

    closed spec fn view(&self) -> EventView {
        self.event@
    }
}

impl<'a> EventGuard<'a> {
    #[verifier::type_invariant]
    spec fn is_open(self) -> bool {
        self.event@.ph == EventType::Complete && self.event@.dur is None
    }

    /// Begins an interval now. The switch is not asked: see `trace_scoped`.
    pub fn new(name: &'a str, source: &mut Source, args: Option<serde_json::Value>) -> (guard:
        EventGuard<'a>)
        ensures
            old(source)@.reads_to(final(source)@),
            guard@ == EventView::begun(
                name@,
                EventType::Complete,
                final(source)@.last,
                old(source)@.pid,
                old(source)@.tid,
                args,
            ),
    {
        EventGuard { event: TraceEvent::new(name, EventType::Complete, source, args) }
    }

    /// The record of the interval as it stands, without a duration.
    pub fn event(&self) -> (event: &TraceEvent<'a>)
        ensures
            event@ == self@,
            self@.ph == EventType::Complete,
            self@.dur is None,
    {
        proof {
            use_type_invariant(self);
        }
        &self.event
    }

    /// Ends the interval at `end` and gives the finished record.
    pub fn finalize(self, end: u64) -> (event: TraceEvent<'a>)
        requires
            self@.ts <= end,
        ensures
            self@.ph == EventType::Complete,
            self@.dur is None,
            event@ == self@.finalized(end),
            event@.dur == Some((end - self@.ts) as u64),
            event@.finished(),
    {
        proof {
            use_type_invariant(&self);
        }
        self.event.finalize(end)
    }

    /// Ends the interval now and hands the finished record to the sink. The
    /// end is read from `source` and is not earlier than the beginning. The
    /// switch is not asked: an interval that began is recorded.
    pub fn finish(self, tracer: &mut Tracer, source: &mut Source) -> (r: Result<(), TraceError>)
        ensures
            old(source)@.reads_after(self@.ts, final(source)@),
            recorded(
                old(tracer)@,
                final(tracer)@,
                self@.finalized(final(source)@.last).line(),
                r,
            ),
    {
        proof {
            use_type_invariant(&self);
        }
        let end: u64 = source.now_after(self.event.timestamp());
        let event = self.event.finalize(end);
        trace(tracer, &event)
    }
}

/// Begins an interval that lasts until the guard is finished. Where the
/// switch is inactive there is no guard, and nothing has been read.
pub fn trace_scoped<'a>(
    tracer: &Tracer,
    source: &mut Source,
    name: &'a str,
    args: Option<serde_json::Value>,
) -> (guard: Option<EventGuard<'a>>)
    ensures
        guard is Some <==> tracer@.active(),
        !tracer@.active() ==> final(source)@ == old(source)@,
        guard matches Some(g) ==> old(source)@.reads_to(final(source)@) && g@ == EventView::begun(
            name@,
            EventType::Complete,
            final(source)@.last,
            old(source)@.pid,
            old(source)@.tid,
            args,
        ),
{
    if is_trace_active(tracer) {
        Some(EventGuard::new(name, source, args))
    } else {
        None
    }
}

/// Ends what `trace_scoped` began: finishes the guard where there is one,
/// and does nothing where there is none.
pub fn end_scoped(tracer: &mut Tracer, source: &mut Source, guard: Option<EventGuard>) -> (r:
    Result<(), TraceError>)
    ensures
        r is Ok,
        guard is None ==> final(tracer)@ == old(tracer)@ && final(source)@ == old(source)@,
        guard matches Some(g) ==> old(source)@.reads_after(g@.ts, final(source)@) && recorded(
            old(tracer)@,
            final(tracer)@,
            g@.finalized(final(source)@.last).line(),
            r,
        ),
{
    match guard {
        Some(g) => g.finish(tracer, source),
        None => Ok(()),
    }
}

/// The line of a timed operation: `begun` is the source once the clock was
/// read before the operation, `ended` once it was read after it.
pub open spec fn timed_line(
    name: Seq<char>,
    begun: SourceView,
    ended: SourceView,
    args: Option<serde_json::Value>,
) -> Seq<char> {
    EventView::begun(name, EventType::Complete, begun.last, begun.pid, begun.tid, args).finalized(
        ended.last,
    ).line()
}

/// Runs `op` once and records how long it took as one whole interval. The
/// result of `op` is handed back whatever it is; where the switch is
/// inactive `op` runs all the same and nothing is recorded. Where `op`
/// unwinds, nothing is recorded either.
pub fn trace_expr<R, F: FnOnce() -> R>(
    tracer: &mut Tracer,
    source: &mut Source,
    name: &str,
    op: F,
    args: Option<serde_json::Value>,
) -> (r: (R, Result<(), TraceError>))
    requires
        op.requires(()),
    ensures
        op.ensures((), r.0),
        r.1 is Ok,
        !old(tracer)@.active() ==> final(tracer)@ == old(tracer)@ && final(source)@ == old(source)@,
        old(tracer)@.active() ==> exists|begun: SourceView|
            old(source)@.reads_to(begun) && #[trigger] begun.reads_after(
                begun.last,
                final(source)@,
            ) && recorded(
                old(tracer)@,
                final(tracer)@,
                timed_line(name@, begun, final(source)@, args),
                r.1,
            ),
{
    if is_trace_active(tracer) {
        let guard = EventGuard::new(name, source, args);
        let ghost begun = source@;
        let value = op();
        let outcome = guard.finish(tracer, source);
        assert(begun.reads_after(begun.last, source@));
        (value, outcome)
    } else {
        (op(), Ok(()))
    }
}

} // verus!
