//! What holds of the tracer as a whole, stated over the mathematical values
//! of the tracer, the source and the record, and proved from their
//! definitions.

use crate::api::instant_line;
use crate::event::{event_text, line_end, EventType, EventView};
use crate::source::{Clock, SourceView};
use crate::tracer::{SinkKind, TraceState, TracerView};
use vstd::prelude::*;

verus! {

/// The texts of `lines` one after the other.
pub open spec fn joined(lines: Seq<Seq<char>>) -> Seq<char>
    decreases lines.len(),
{
    if lines.len() == 0 {
        Seq::empty()
    } else {
        joined(lines.drop_last()) + lines.last()
    }
}

/// The tracer after each of `lines` was handed to its sink, in order.
pub open spec fn appended_all(tracer: TracerView, lines: Seq<Seq<char>>) -> TracerView
    decreases lines.len(),
{
    if lines.len() == 0 {
        tracer
    } else {
        appended_all(tracer, lines.drop_last()).appended(lines.last())
    }
}

/// The tracer after a mark for each of `lines`, in order.
pub open spec fn marked_all(tracer: TracerView, lines: Seq<Seq<char>>) -> TracerView
    decreases lines.len(),
{
    if lines.len() == 0 {
        tracer
    } else {
        marked_all(tracer, lines.drop_last()).marked(lines.last())
    }
}

/// While the switch is inactive, marks leave the tracer exactly as it was,
/// however many they are: nothing reaches the sink.
pub proof fn law_inactive_marks_leave_no_trace(tracer: TracerView, lines: Seq<Seq<char>>)
    requires
        !tracer.active(),
    ensures
        marked_all(tracer, lines) == tracer,
    decreases lines.len(),
{
    if lines.len() > 0 {
        law_inactive_marks_leave_no_trace(tracer, lines.drop_last());
    }
}

/// An interval that is ended at `end` lasts exactly from its timestamp to
/// `end`, and is then ready for a sink; a begin or end marker is ready as it
/// is begun, without a duration.
pub proof fn law_duration_is_end_minus_start(event: EventView, end: u64)
    requires
        event.dur is None,
        event.ts <= end,
    ensures
        event.finalized(end).dur == Some((end - event.ts) as u64),
        event.finalized(end).ts == event.ts,
        event.ph == EventType::Complete ==> event.finalized(end).finished() && !event.finished(),
        event.ph != EventType::Complete ==> event.finished(),
{
}

/// On a clock that stands at `raw`, an interval that began at or before
/// `raw` and is ended by a reading of a source whose latest timestamp is not
/// later than `raw` ends at `raw` itself, and lasts exactly from its
/// beginning to `raw`: nothing is rounded and nothing is cut off.
pub proof fn law_interval_on_steady_clock(
    source: SourceView,
    after: SourceView,
    event: EventView,
    raw: u64,
)
    requires
        source.clock == Clock::Manual(raw),
        source.last <= raw,
        event.ph == EventType::Complete,
        event.dur is None,
        event.ts <= raw,
        source.reads_after(event.ts, after),
    ensures
        after.last == raw,
        event.finalized(after.last).dur == Some((raw - event.ts) as u64),
        event.finalized(after.last).ts == event.ts,
        event.finalized(after.last).ph == EventType::Complete,
        event.finalized(after.last).finished(),
{
}

/// The three kinds have three different codes on the wire.
pub proof fn law_codes_are_distinct(a: EventType, b: EventType)
    ensures
        a.code() == b.code() <==> a == b,
        a.code() == 'B' || a.code() == 'E' || a.code() == 'X',
{
}

/// A record in a sink is one JSON object on a line of its own: it begins
/// with an opening brace and ends with a closing brace, a comma and a line
/// feed.
pub proof fn law_record_is_framed(
    name_json: Seq<char>,
    ph: EventType,
    ts: u64,
    pid: u32,
    tid: u64,
    dur: Option<u64>,
    args_json: Option<Seq<char>>,
)
    ensures
        ({
            let text = event_text(name_json, ph, ts, pid, tid, dur, args_json);
            let line = text + line_end();
            &&& text.len() >= 2
            &&& text.first() == '{'
            &&& text.last() == '}'
            &&& line.len() == text.len() + 2
            &&& line.subrange(0, text.len() as int) == text
            &&& line[line.len() - 2] == ','
            &&& line.last() == '\n'
        }),
{
    reveal_strlit("{\"name\":");
    reveal_strlit("}");
    reveal_strlit(",\n");
    let text = event_text(name_json, ph, ts, pid, tid, dur, args_json);
    let line = text + line_end();
    assert(line.subrange(0, text.len() as int) =~= text);
}

/// Handing lines to an open sink adds them at its end, whole and in order:
/// what the sink has accepted afterwards is what it had accepted before,
/// followed by the lines one after the other.
pub proof fn law_lines_are_kept_in_order(tracer: TracerView, lines: Seq<Seq<char>>)
    requires
        tracer.sink is Some,
    ensures
        appended_all(tracer, lines).sink is Some,
        appended_all(tracer, lines).state == tracer.state,
        appended_all(tracer, lines).sink->0.kind == tracer.sink->0.kind,
        appended_all(tracer, lines).sink->0.written == tracer.sink->0.written,
        appended_all(tracer, lines).contents() == tracer.contents() + joined(lines),
    decreases lines.len(),
{
    if lines.len() > 0 {
        law_lines_are_kept_in_order(tracer, lines.drop_last());
        let before = appended_all(tracer, lines.drop_last());
        assert(before.appended(lines.last()).contents() =~= before.contents() + lines.last());
        assert(appended_all(tracer, lines).contents() =~= tracer.contents() + joined(lines));
    } else {
        assert(tracer.contents() + joined(lines) =~= tracer.contents());
    }
}

/// A trace file holds an opening bracket and then the lines that were handed
/// to it, whole and in order, whatever sink was open before; a stream holds
/// the lines alone. As long as nothing was taken from the sink, all of it is
/// still owed, so that closing the sink hands back the whole text.
pub proof fn law_file_is_bracket_then_lines(tracer: TracerView, lines: Seq<Seq<char>>)
    ensures
        appended_all(tracer.opened(SinkKind::File), lines).contents() == "["@ + joined(lines),
        appended_all(tracer.opened(SinkKind::File), lines).owed() == "["@ + joined(lines),
        appended_all(tracer.opened(SinkKind::Stream), lines).contents() == joined(lines),
        appended_all(tracer.opened(SinkKind::Stream), lines).owed() == joined(lines),
{
    let file = tracer.opened(SinkKind::File);
    let stream = tracer.opened(SinkKind::Stream);
    law_lines_are_kept_in_order(file, lines);
    law_lines_are_kept_in_order(stream, lines);
    assert(file.contents() =~= "["@);
    assert(stream.contents() =~= Seq::<char>::empty());
    assert(Seq::<char>::empty() + joined(lines) =~= joined(lines));
    assert(appended_all(file, lines).owed() =~= appended_all(file, lines).contents());
    assert(appended_all(stream, lines).owed() =~= appended_all(stream, lines).contents());
}

/// Taking the pending text changes nothing of what the sink has accepted:
/// the text moves from what is pending to what is written, and the texts
/// that are taken, one after the other, are what the sink has accepted.
pub proof fn law_taking_keeps_contents(tracer: TracerView)
    ensures
        tracer.drained().contents() == tracer.contents(),
        tracer.drained().owed() == Seq::<char>::empty(),
        tracer.drained().state == tracer.state,
        tracer.sink matches Some(sink) ==> tracer.drained().sink->0.written == sink.written
            + tracer.owed(),
        tracer.closed().contents() == Seq::<char>::empty(),
        tracer.closed().appended(tracer.owed()) == tracer.closed(),
{
    assert(tracer.drained().contents() =~= tracer.contents());
}

/// A begin marker and then an end marker, read from one source while the
/// switch is active and a sink is open, leave two whole lines at the end of
/// the sink, the beginning first, and the timestamp of the end is not earlier
/// than that of the beginning.
pub proof fn law_begin_then_end(
    tracer: TracerView,
    source: SourceView,
    at_begin: SourceView,
    at_end: SourceView,
    name: Seq<char>,
    begin_args: Option<serde_json::Value>,
    end_args: Option<serde_json::Value>,
)
    requires
        tracer.active(),
        tracer.sink is Some,
        source.reads_to(at_begin),
        at_begin.reads_to(at_end),
    ensures
        ({
            let begin = EventView::begun(
                name,
                EventType::DurationBegin,
                at_begin.last,
                source.pid,
                source.tid,
                begin_args,
            );
            let end = EventView::begun(
                name,
                EventType::DurationEnd,
                at_end.last,
                source.pid,
                source.tid,
                end_args,
            );
            &&& instant_line(name, EventType::DurationBegin, at_begin, begin_args) == begin.line()
            &&& instant_line(name, EventType::DurationEnd, at_end, end_args) == end.line()
            &&& tracer.marked(begin.line()).marked(end.line()).contents() == tracer.contents()
                + begin.line() + end.line()
            &&& begin.ts <= end.ts
            &&& begin.pid == end.pid && begin.tid == end.tid && begin.name == end.name
            &&& begin.finished() && end.finished()
        }),
{
    let begin = EventView::begun(
        name,
        EventType::DurationBegin,
        at_begin.last,
        source.pid,
        source.tid,
        begin_args,
    );
    let end = EventView::begun(
        name,
        EventType::DurationEnd,
        at_end.last,
        source.pid,
        source.tid,
        end_args,
    );
    assert(tracer.marked(begin.line()).marked(end.line()).contents() =~= tracer.contents()
        + begin.line() + end.line());
}

/// Setting the switch leaves what the sink has accepted as it is. A mark set
/// before the switch is made inactive stays recorded, a mark set while it is
/// inactive is not recorded, and a mark set after it is made active again is
/// recorded behind the first.
pub proof fn law_toggle(tracer: TracerView, before: Seq<char>, during: Seq<char>, after: Seq<char>)
    requires
        tracer.active(),
    ensures
        ({
            let first = tracer.marked(before);
            let off = first.with_state(TraceState::InActive);
            let silent = off.marked(during);
            let on = silent.with_state(TraceState::Active);
            let last = on.marked(after);
            &&& first == tracer.appended(before)
            &&& off.sink == first.sink
            &&& silent == off
            &&& on == first
            &&& last == tracer.appended(before).appended(after)
            &&& tracer.sink is Some ==> last.contents() == tracer.contents() + before + after
        }),
{
    let first = tracer.marked(before);
    let last = first.with_state(TraceState::InActive).marked(during).with_state(
        TraceState::Active,
    ).marked(after);
    if tracer.sink is Some {
        assert(last.contents() =~= tracer.contents() + before + after);
    }
}

} // verus!
