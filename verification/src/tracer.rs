//! The activation switch and the output sink, held together in one `Tracer`.
//!
//! A sink is a text that only grows: what it has accepted stays, in the order
//! in which it came. The tracer keeps the part that has not been written out
//! yet; whoever owns the file or the stream takes that part and writes it.

use crate::decimal::{decimal_text, push_decimal};
use crate::event::{is_one_line, TraceError, TraceEvent};
use vstd::prelude::*;
use vstd::string::StringExecFns;

verus! {

/// Whether tracing does any work.
#[derive(Clone, Copy, Debug, PartialEq, Eq, Structural)]
pub enum TraceState {
    /// Marks are dropped.
    InActive,
    /// Marks are recorded.
    Active,
}

/// Where the records of a sink go.
#[derive(Clone, Copy, Debug, PartialEq, Eq, Structural)]
pub enum SinkKind {
    /// The standard output stream: the records and nothing else.
    Stream,
    /// A trace file: an opening bracket, then the records.
    File,
}

impl SinkKind {
    /// What a sink of this kind holds before its first record.
    pub open spec fn preamble(self) -> Seq<char> {
        match self {
            SinkKind::Stream => Seq::empty(),
            SinkKind::File => "["@,
        }
    }

    /// What a sink of this kind holds before its first record, as text.
    pub fn preamble_str(&self) -> (s: &'static str)
        ensures
            s@ == self.preamble(),
    {
        proof {
            reveal_strlit("");
        }
        match self {
            SinkKind::Stream => {
                assert(""@ =~= Seq::<char>::empty());
                ""
            },
            SinkKind::File => "[",
        }
    }
}

/// The mathematical value of an open sink.
pub struct SinkView {
    /// Where the text goes.
    pub kind: SinkKind,
    /// The text that has been taken to be written out.
    pub written: Seq<char>,
    /// The text that is waiting to be taken.
    pub pending: Seq<char>,
}

impl SinkView {
    /// A sink that was just opened.
    pub open spec fn fresh(kind: SinkKind) -> SinkView {
        SinkView { kind, written: Seq::empty(), pending: kind.preamble() }
    }

    /// Everything the sink has accepted since it was opened.
    pub open spec fn contents(self) -> Seq<char> {
        self.written + self.pending
    }
}

/// The mathematical value of a `Tracer`.
pub struct TracerView {
    /// The activation switch.
    pub state: TraceState,
    /// The sink, where one is open.
    pub sink: Option<SinkView>,
}

impl TracerView {
    /// A tracer as it starts: active, with no sink.
    pub open spec fn initial() -> TracerView {
        TracerView { state: TraceState::Active, sink: None }
    }

    /// Whether marks are recorded.
    pub open spec fn active(self) -> bool {
        self.state == TraceState::Active
    }

    /// Everything the open sink has accepted; nothing where none is open.
    pub open spec fn contents(self) -> Seq<char> {
        match self.sink {
            Some(sink) => sink.contents(),
            None => Seq::empty(),
        }
    }

    /// The text that is waiting to be written out.
    pub open spec fn owed(self) -> Seq<char> {
        match self.sink {
            Some(sink) => sink.pending,
            None => Seq::empty(),
        }
    }

    /// The tracer with its switch set to `state`.
    pub open spec fn with_state(self, state: TraceState) -> TracerView {
        TracerView { state, ..self }
    }

    /// The tracer with a fresh sink of the given kind in place of whatever
    /// sink it had.
    pub open spec fn opened(self, kind: SinkKind) -> TracerView {
        TracerView { sink: Some(SinkView::fresh(kind)), ..self }
    }

    /// The tracer without a sink.
    pub open spec fn closed(self) -> TracerView {
        TracerView { sink: None, ..self }
    }

    /// The tracer after `text` was handed to its sink: the text is added at
    /// the end of what is pending, and dropped where no sink is open. The
    /// switch is not asked.
    pub open spec fn appended(self, text: Seq<char>) -> TracerView {
        match self.sink {
            Some(sink) => TracerView {
                sink: Some(SinkView { pending: sink.pending + text, ..sink }),
                ..self
            },
            None => self,
        }
    }

    /// The tracer after a mark that came to `text`: recorded where the switch
    /// is active, dropped where it is not.
    pub open spec fn marked(self, text: Seq<char>) -> TracerView {
        if self.active() {
            self.appended(text)
        } else {
            self
        }
    }

    /// The tracer after the pending text was taken to be written out.
    pub open spec fn drained(self) -> TracerView {
        match self.sink {
            Some(sink) => TracerView {
                sink: Some(
                    SinkView { written: sink.written + sink.pending, pending: Seq::empty(), ..sink },
                ),
                ..self
            },
            None => self,
        }
    }
}

/// An open sink: the text that waits to be written out, and a record of
/// what went before it.
struct TraceSink {
    kind: SinkKind,
    pending: String,
    written: Ghost<Seq<char>>,
}

impl TraceSink {
    spec fn model(self) -> SinkView {
        SinkView { kind: self.kind, written: self.written@, pending: self.pending@ }
    }
}

/// The state of tracing: the activation switch and the sink.
pub struct Tracer {
    state: TraceState,
    sink: Option<TraceSink>,
}

impl View for Tracer {
    type V = TracerView;

    closed spec fn view(&self) -> TracerView {
        TracerView {
            state: self.state,
            sink: match self.sink {
                Some(sink) => Some(sink.model()),
                None => None,
            },
        }
    }
}

impl Tracer {
    /// A tracer that is active and has no sink.
    pub fn new() -> (tracer: Tracer)
        ensures
            tracer@ == TracerView::initial(),
    {
        Tracer { state: TraceState::Active, sink: None }
    }

    /// The kind of the open sink, if one is open.
    pub fn sink_kind(&self) -> (kind: Option<SinkKind>)
        ensures
            kind == match self@.sink {
                Some(sink) => Some(sink.kind),
                None => None,
            },
    {
        match &self.sink {
            Some(sink) => Some(sink.kind),
            None => None,
        }
    }
}

/// Sets the activation switch. The sink and what it holds are left as they
/// are.
pub fn set_trace_state(tracer: &mut Tracer, state: TraceState)
    ensures
        final(tracer)@ == old(tracer)@.with_state(state),
{
    tracer.state = state;
}

/// Whether the activation switch is active.
pub fn is_trace_active(tracer: &Tracer) -> (active: bool)
    ensures
        active == tracer@.active(),
{
    match tracer.state {
        TraceState::Active => true,
        TraceState::InActive => false,
    }
}

/// The name of the trace file of the process `pid`: its identifier in
/// decimal, with the extension `trace`.
pub open spec fn trace_file_name_text(pid: u32) -> Seq<char> {
    decimal_text(pid as nat) + ".trace"@
}

/// The name of the trace file of the process `pid`.
pub fn trace_file_name(pid: u32) -> (name: String)
    ensures
        name@ == trace_file_name_text(pid),
{
    let mut name = String::new();
    push_decimal(&mut name, pid as u64);
    name.append(".trace");
    name
}

/// Puts a fresh sink of the given kind in the tracer and hands back the text
/// that the sink before it still owed, which is empty where there was none.
fn open_sink(tracer: &mut Tracer, kind: SinkKind) -> (owed: String)
    ensures
        final(tracer)@ == old(tracer)@.opened(kind),
        owed@ == old(tracer)@.owed(),
{
    let owed = match tracer.sink.take() {
        Some(sink) => sink.pending,
        None => String::new(),
    };
    let mut pending = String::new();
    pending.append(kind.preamble_str());
    tracer.sink = Some(TraceSink { kind, pending, written: Ghost(Seq::empty()) });
    owed
}

/// Opens a file sink: from here on records are kept for a trace file, which
/// begins with an opening bracket. The text that an earlier sink still owed
/// is handed back, to be written where that sink's text went.
pub fn init_trace_to_file(tracer: &mut Tracer) -> (owed: String)
    ensures
        final(tracer)@ == old(tracer)@.opened(SinkKind::File),
        owed@ == old(tracer)@.owed(),
{
    open_sink(tracer, SinkKind::File)
}

/// Opens a stream sink: from here on records are kept for the standard
/// output stream. The text that an earlier sink still owed is handed back.
pub fn init_trace_to_stream(tracer: &mut Tracer) -> (owed: String)
    ensures
        final(tracer)@ == old(tracer)@.opened(SinkKind::Stream),
        owed@ == old(tracer)@.owed(),
{
    open_sink(tracer, SinkKind::Stream)
}

/// Takes the text that waits to be written out. The sink stays open and
/// what it has accepted stays the same.
pub fn take_pending(tracer: &mut Tracer) -> (text: String)
    ensures
        final(tracer)@ == old(tracer)@.drained(),
        text@ == old(tracer)@.owed(),
{
    match tracer.sink.take() {
        Some(sink) => {
            let ghost written = sink.written@ + sink.pending@;
            tracer.sink = Some(
                TraceSink { kind: sink.kind, pending: String::new(), written: Ghost(written) },
            );
            sink.pending
        },
        None => String::new(),
    }
}

/// Closes the sink and hands back the text that it still owed. Without a
/// sink there is nothing to close and nothing is owed.
pub fn close_trace_file_fn(tracer: &mut Tracer) -> (owed: String)
    ensures
        final(tracer)@ == old(tracer)@.closed(),
        owed@ == old(tracer)@.owed(),
{
    match tracer.sink.take() {
        Some(sink) => sink.pending,
        None => String::new(),
    }
}

/// Hands one record to the sink: its JSON object, a comma and a line feed
/// are added at the end of what the sink holds, as one line. Without a sink
/// the record is dropped. The switch is not asked: it is for the marks that
/// build records.
///
/// The record is encoded only where a sink is open. The encoder accepts
/// every record, so the call succeeds.
pub fn trace(tracer: &mut Tracer, event: &TraceEvent) -> (r: Result<(), TraceError>)
    ensures
        r is Ok,
        final(tracer)@ == old(tracer)@.appended(event@.line()),
        old(tracer)@.sink is Some ==> is_one_line(event@.line()),
{
    match tracer.sink.take() {
        Some(mut sink) => {
            let encoded = event.to_json();
            let r = match encoded {
                Ok(mut line) => {
                    line.append(",\n");
                    sink.pending.append(line.as_str());
                    Ok(())
                },
                Err(e) => Err(e),
            };
            tracer.sink = Some(sink);
            r
        },
        None => Ok(()),
    }
}

} // verus!
