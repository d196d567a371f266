//! The record of one trace event and its JSON text.

use crate::decimal::{decimal_text, lemma_decimal_is_digits, push_decimal};
use crate::json::{encode_str, encode_value, is_printable, json_string_text, json_value_text};
use crate::source::Source;
use vstd::prelude::*;
use vstd::string::StringExecFns;

verus! {

/// The kind of a record.
#[derive(Clone, Copy, Debug, PartialEq, Eq, Structural)]
pub enum EventType {
    /// The instant at which an interval begins.
    DurationBegin,
    /// The instant at which an interval ends.
    DurationEnd,
    /// A whole interval: a start and a duration.
    Complete,
}

impl EventType {
    /// The one character that stands for the kind on the wire.
    pub open spec fn code(self) -> char {
        match self {
            EventType::DurationBegin => 'B',
            EventType::DurationEnd => 'E',
            EventType::Complete => 'X',
        }
    }

    /// The wire code as text.
    pub fn code_str(&self) -> (s: &'static str)
        ensures
            s@ == seq![self.code()],
    {
        proof {
            reveal_strlit("B");
            reveal_strlit("E");
            reveal_strlit("X");
        }
        match self {
            EventType::DurationBegin => "B",
            EventType::DurationEnd => "E",
            EventType::Complete => "X",
        }
    }
}

/// Which part of a record the encoder gave no text for. The encoder's
/// interface allows for a failure; on a string and on a JSON value it has
/// none, so a record always has its text, and this is for `assemble_event`
/// alone to hand out.
#[derive(Clone, Copy, Debug, PartialEq, Eq, Structural)]
pub enum TraceError {
    /// The encoder refused the name.
    Name,
    /// The encoder refused the metadata.
    Metadata,
}

/// The text of an optional member: the key and the value, or nothing.
pub open spec fn member_text(key: Seq<char>, value: Option<Seq<char>>) -> Seq<char> {
    match value {
        Some(v) => key + v,
        None => Seq::empty(),
    }
}

/// The decimal text of an optional number.
pub open spec fn optional_decimal(n: Option<u64>) -> Option<Seq<char>> {
    match n {
        Some(d) => Some(decimal_text(d as nat)),
        None => None,
    }
}

/// The JSON object of one record, from the JSON text of its name and of its
/// metadata: the members `name`, `ph`, `ts`, `pid`, `tid` in this order, then
/// `dur` and `args` where they are present, with no white space.
pub open spec fn event_text(
    name_json: Seq<char>,
    ph: EventType,
    ts: u64,
    pid: u32,
    tid: u64,
    dur: Option<u64>,
    args_json: Option<Seq<char>>,
) -> Seq<char> {
    "{\"name\":"@ + name_json + ",\"ph\":\""@ + seq![ph.code()] + "\",\"ts\":"@ + decimal_text(
        ts as nat,
    ) + ",\"pid\":"@ + decimal_text(pid as nat) + ",\"tid\":"@ + decimal_text(tid as nat)
        + member_text(",\"dur\":"@, optional_decimal(dur)) + member_text(",\"args\":"@, args_json)
        + "}"@
}

/// What follows every record in a sink: a comma and a line feed.
pub open spec fn line_end() -> Seq<char> {
    ",\n"@
}

/// Whether `line` is one line: it ends with a line feed and holds no other.
pub open spec fn is_one_line(line: Seq<char>) -> bool {
    &&& line.len() >= 1
    &&& line.last() == '\n'
    &&& forall|i: int| 0 <= i < line.len() - 1 ==> #[trigger] line[i] != '\n'
}

/// Two texts without control characters make one without them.
proof fn lemma_printable_concat(a: Seq<char>, b: Seq<char>)
    requires
        is_printable(a),
        is_printable(b),
    ensures
        is_printable(a + b),
{
    assert forall|i: int| 0 <= i < (a + b).len() implies (#[trigger] (a + b)[i]) as u32
        >= 0x20 by {
        if i < a.len() {
            assert((a + b)[i] == a[i]);
        } else {
            assert((a + b)[i] == b[i - a.len()]);
        }
    }
}

/// The text of an optional member holds no control character where its
/// value holds none.
proof fn lemma_member_is_printable(key: Seq<char>, value: Option<Seq<char>>)
    requires
        is_printable(key),
        value matches Some(v) ==> is_printable(v),
    ensures
        is_printable(member_text(key, value)),
{
    match value {
        Some(v) => {
            lemma_printable_concat(key, v);
        },
        None => {},
    }
}

/// A record is exactly one line. Where the JSON text of the name and of the
/// metadata hold no control character, the JSON object of the record holds
/// none, and the object followed by a comma and a line feed ends with the
/// only line feed it holds.
pub proof fn lemma_record_is_one_line(
    name_json: Seq<char>,
    ph: EventType,
    ts: u64,
    pid: u32,
    tid: u64,
    dur: Option<u64>,
    args_json: Option<Seq<char>>,
)
    requires
        is_printable(name_json),
        args_json matches Some(a) ==> is_printable(a),
    ensures
        is_printable(event_text(name_json, ph, ts, pid, tid, dur, args_json)),
        is_one_line(event_text(name_json, ph, ts, pid, tid, dur, args_json) + line_end()),
{
    reveal_strlit("{\"name\":");
    reveal_strlit(",\"ph\":\"");
    reveal_strlit("\",\"ts\":");
    reveal_strlit(",\"pid\":");
    reveal_strlit(",\"tid\":");
    reveal_strlit(",\"dur\":");
    reveal_strlit(",\"args\":");
    reveal_strlit("}");
    reveal_strlit(",\n");
    lemma_decimal_is_digits(ts as nat);
    lemma_decimal_is_digits(pid as nat);
    lemma_decimal_is_digits(tid as nat);
    match dur {
        Some(d) => {
            lemma_decimal_is_digits(d as nat);
        },
        None => {},
    }
    let t1 = "{\"name\":"@ + name_json;
    lemma_printable_concat("{\"name\":"@, name_json);
    let t2 = t1 + ",\"ph\":\""@;
    lemma_printable_concat(t1, ",\"ph\":\""@);
    let t3 = t2 + seq![ph.code()];
    lemma_printable_concat(t2, seq![ph.code()]);
    let t4 = t3 + "\",\"ts\":"@;
    lemma_printable_concat(t3, "\",\"ts\":"@);
    let t5 = t4 + decimal_text(ts as nat);
    lemma_printable_concat(t4, decimal_text(ts as nat));
    let t6 = t5 + ",\"pid\":"@;
    lemma_printable_concat(t5, ",\"pid\":"@);
    let t7 = t6 + decimal_text(pid as nat);
    lemma_printable_concat(t6, decimal_text(pid as nat));
    let t8 = t7 + ",\"tid\":"@;
    lemma_printable_concat(t7, ",\"tid\":"@);
    let t9 = t8 + decimal_text(tid as nat);
    lemma_printable_concat(t8, decimal_text(tid as nat));
    lemma_member_is_printable(",\"dur\":"@, optional_decimal(dur));
    let t10 = t9 + member_text(",\"dur\":"@, optional_decimal(dur));
    lemma_printable_concat(t9, member_text(",\"dur\":"@, optional_decimal(dur)));
    lemma_member_is_printable(",\"args\":"@, args_json);
    let t11 = t10 + member_text(",\"args\":"@, args_json);
    lemma_printable_concat(t10, member_text(",\"args\":"@, args_json));
    let text = t11 + "}"@;
    lemma_printable_concat(t11, "}"@);
    assert(text == event_text(name_json, ph, ts, pid, tid, dur, args_json));
    let line = text + line_end();
    assert forall|i: int| 0 <= i < line.len() - 1 implies #[trigger] line[i] != '\n' by {
        if i < text.len() {
            assert(line[i] == text[i]);
            assert(text[i] as u32 >= 0x20);
        } else {
            assert(line[i] == line_end()[i - text.len()]);
        }
    }
}

/// Builds the JSON object of one record from the JSON text of its name and
/// of its metadata.
pub fn encode_event(
    name_json: &str,
    ph: EventType,
    ts: u64,
    pid: u32,
    tid: u64,
    dur: Option<u64>,
    args_json: Option<&str>,
) -> (text: String)
    ensures
        text@ == event_text(
            name_json@,
            ph,
            ts,
            pid,
            tid,
            dur,
            match args_json {
                Some(a) => Some(a@),
                None => None,
            },
        ),
{
    let mut out = String::new();
    out.append("{\"name\":");
    out.append(name_json);
    out.append(",\"ph\":\"");
    out.append(ph.code_str());
    out.append("\",\"ts\":");
    push_decimal(&mut out, ts);
    out.append(",\"pid\":");
    push_decimal(&mut out, pid as u64);
    out.append(",\"tid\":");
    push_decimal(&mut out, tid);
    let ghost head = out@;
    match dur {
        Some(d) => {
            out.append(",\"dur\":");
            push_decimal(&mut out, d);
        },
        None => {},
    }
    assert(out@ == head + member_text(",\"dur\":"@, optional_decimal(dur)));
    let ghost body = out@;
    match args_json {
        Some(a) => {
            out.append(",\"args\":");
            out.append(a);
        },
        None => {},
    }
    assert(out@ == body + member_text(
        ",\"args\":"@,
        match args_json {
            Some(a) => Some(a@),
            None => None,
        },
    ));
    out.append("}");
    out
}

/// The mathematical value of a record.
pub struct EventView {
    /// The label shown for the record.
    pub name: Seq<char>,
    /// The kind of the record.
    pub ph: EventType,
    /// When the record was begun, in microseconds.
    pub ts: u64,
    /// The process that recorded it.
    pub pid: u32,
    /// The thread that recorded it.
    pub tid: u64,
    /// How long the interval lasted, in microseconds.
    pub dur: Option<u64>,
    /// What the caller attached to it.
    pub args: Option<serde_json::Value>,
}

impl EventView {
    /// A record as it is when it is begun: without a duration.
    pub open spec fn begun(
        name: Seq<char>,
        ph: EventType,
        ts: u64,
        pid: u32,
        tid: u64,
        args: Option<serde_json::Value>,
    ) -> EventView {
        EventView { name, ph, ts, pid, tid, dur: None, args }
    }

    /// Whether the record holds together: only a whole interval has a
    /// duration.
    pub open spec fn well_formed(self) -> bool {
        self.dur is Some ==> self.ph == EventType::Complete
    }

    /// Whether the record is ready for a sink: a whole interval with its
    /// duration, or an instant without one.
    pub open spec fn finished(self) -> bool {
        self.dur is Some <==> self.ph == EventType::Complete
    }

    /// The record with the duration that ends it at `end`.
    pub open spec fn finalized(self, end: u64) -> EventView {
        EventView { dur: Some((end - self.ts) as u64), ..self }
    }

    /// The JSON text of the metadata, where there is any.
    pub open spec fn args_text(self) -> Option<Seq<char>> {
        match self.args {
            Some(value) => Some(json_value_text(value)),
            None => None,
        }
    }

    /// The JSON object of the record.
    pub open spec fn text(self) -> Seq<char> {
        event_text(
            json_string_text(self.name),
            self.ph,
            self.ts,
            self.pid,
            self.tid,
            self.dur,
            self.args_text(),
        )
    }

    /// The record as it stands in a sink: its JSON object, a comma and a
    /// line feed.
    pub open spec fn line(self) -> Seq<char> {
        self.text() + line_end()
    }
}

/// Turns what the encoder gave for the name and for the metadata of a record
/// into the record's JSON object, or into the reason why there is none. A
/// refused name comes before refused metadata.
pub fn assemble_event(
    name_json: Result<String, serde_json::Error>,
    ph: EventType,
    ts: u64,
    pid: u32,
    tid: u64,
    dur: Option<u64>,
    args_json: Option<Result<String, serde_json::Error>>,
) -> (r: Result<String, TraceError>)
    ensures
        match (name_json, args_json) {
            (Err(_), _) => r == Err::<String, TraceError>(TraceError::Name),
            (Ok(_), Some(Err(_))) => r == Err::<String, TraceError>(TraceError::Metadata),
            (Ok(n), None) => r matches Ok(text) && text@ == event_text(
                n@,
                ph,
                ts,
                pid,
                tid,
                dur,
                None,
            ),
            (Ok(n), Some(Ok(a))) => r matches Ok(text) && text@ == event_text(
                n@,
                ph,
                ts,
                pid,
                tid,
                dur,
                Some(a@),
            ),
        },
{
    match name_json {
        Err(_) => Err(TraceError::Name),
        Ok(n) => match args_json {
            None => Ok(encode_event(n.as_str(), ph, ts, pid, tid, dur, None)),
            Some(Err(_)) => Err(TraceError::Metadata),
            Some(Ok(a)) => Ok(encode_event(n.as_str(), ph, ts, pid, tid, dur, Some(a.as_str()))),
        },
    }
}

/// One trace event: what happened, when, and where.
pub struct TraceEvent<'a> {
    name: &'a str,
    ph: EventType,
    ts: u64,
    pid: u32,
    tid: u64,
    dur: Option<u64>,
    args: Option<serde_json::Value>,
}

impl<'a> View for TraceEvent<'a> {
    type V = EventView;

    closed spec fn view(&self) -> EventView {
        EventView {
            name: self.name@,
            ph: self.ph,
            ts: self.ts,
            pid: self.pid,
            tid: self.tid,
            dur: self.dur,
            args: self.args,
        }
    }
}

impl<'a> TraceEvent<'a> {
    #[verifier::type_invariant]
    spec fn holds_together(self) -> bool {
        self.dur is Some ==> self.ph == EventType::Complete
    }

    /// Begins a record now: the timestamp is read from `source`, which also
    /// gives the process and the thread. The record has no duration yet.
    pub fn new(
        name: &'a str,
        event_type: EventType,
        source: &mut Source,
        args: Option<serde_json::Value>,
    ) -> (event: TraceEvent<'a>)
        ensures
            old(source)@.reads_to(final(source)@),
            event@ == EventView::begun(
                name@,
                event_type,
                final(source)@.last,
                old(source)@.pid,
                old(source)@.tid,
                args,
            ),
    {
        let ts: u64 = source.now();
        TraceEvent {
            name,
            ph: event_type,
            ts,
            pid: source.process_id(),
            tid: source.thread_id(),
            dur: None,
            args,
        }
    }

    /// Begins a record from given readings. The record has no duration yet.
    pub fn from_parts(
        name: &'a str,
        event_type: EventType,
        ts: u64,
        pid: u32,
        tid: u64,
        args: Option<serde_json::Value>,
    ) -> (event: TraceEvent<'a>)
        ensures
            event@ == EventView::begun(name@, event_type, ts, pid, tid, args),
    {
        TraceEvent { name, ph: event_type, ts, pid, tid, dur: None, args }
    }

    /// The label shown for the record.
    pub fn name(&self) -> (name: &'a str)
        ensures
            name@ == self@.name,
    {
        self.name
    }

    /// The kind of the record.
    pub fn phase(&self) -> (ph: EventType)
        ensures
            ph == self@.ph,
    {
        self.ph
    }

    /// When the record was begun, in microseconds.
    pub fn timestamp(&self) -> (ts: u64)
        ensures
            ts == self@.ts,
    {
        self.ts
    }

    /// The process that recorded it.
    pub fn process_id(&self) -> (pid: u32)
        ensures
            pid == self@.pid,
    {
        self.pid
    }

    /// The thread that recorded it.
    pub fn thread_id(&self) -> (tid: u64)
        ensures
            tid == self@.tid,
    {
        self.tid
    }

    /// How long the interval lasted, in microseconds. Only a whole interval
    /// that was ended has a duration.
    pub fn duration(&self) -> (dur: Option<u64>)
        ensures
            dur == self@.dur,
            self@.well_formed(),
    {
        proof {
            use_type_invariant(self);
        }
        self.dur
    }

    /// What the caller attached to the record.
    pub fn args(&self) -> (args: Option<&serde_json::Value>)
        ensures
            match args {
                Some(value) => self@.args == Some(*value),
                None => self@.args is None,
            },
    {
        self.args.as_ref()
    }

    /// Ends a whole interval at `end`: the duration is what lies between the
    /// record's timestamp and `end`. A record gets its duration once.
    pub fn finalize(self, end: u64) -> (event: TraceEvent<'a>)
        requires
            self@.ph == EventType::Complete,
            self@.dur is None,
            self@.ts <= end,
        ensures
            event@ == self@.finalized(end),
            event@.dur == Some((end - self@.ts) as u64),
            event@.finished(),
    {
        let dur: u64 = end - self.ts;
        TraceEvent {
            name: self.name,
            ph: self.ph,
            ts: self.ts,
            pid: self.pid,
            tid: self.tid,
            dur: Some(dur),
            args: self.args,
        }
    }

    /// The JSON object of the record, encoded afresh at every call. The
    /// name and the metadata go through the JSON encoder, which accepts every
    /// string and every JSON value; so there is always a text, and it holds
    /// no line feed.
    pub fn to_json(&self) -> (r: Result<String, TraceError>)
        ensures
            r matches Ok(text) && text@ == self@.text(),
            is_printable(self@.text()),
            is_one_line(self@.line()),
    {
        let name_json = encode_str(self.name);
        let args_json = match &self.args {
            Some(value) => Some(encode_value(value)),
            None => None,
        };
        proof {
            lemma_record_is_one_line(
                json_string_text(self@.name),
                self@.ph,
                self@.ts,
                self@.pid,
                self@.tid,
                self@.dur,
                self@.args_text(),
            );
        }
        assemble_event(name_json, self.ph, self.ts, self.pid, self.tid, self.dur, args_json)
    }
}

} // verus!
