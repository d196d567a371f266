//! Trace events in the Chrome trace event format.
//!
//! Application code marks instants and intervals; each mark becomes one
//! record, and every record is appended to a sink as one line of JSON.
//!
//! The state of tracing is a `Tracer`, which holds the activation switch and
//! the sink. Timestamps and identities come from a `Source`. Neither is
//! global: whoever owns them decides how they are shared.

pub mod api;
pub mod decimal;
pub mod event;
pub mod json;
pub mod laws;
pub mod source;
pub mod tracer;

pub use api::{end_scoped, trace_begin, trace_end, trace_expr, trace_scoped, EventGuard};
pub use event::{assemble_event, encode_event, EventType, TraceError, TraceEvent};
pub use source::{nanos_to_micros, precise_time_microsec, Clock, Source};
pub use tracer::{
    close_trace_file_fn, init_trace_to_file, init_trace_to_stream, is_trace_active,
    set_trace_state, take_pending, trace, trace_file_name, SinkKind, TraceState, Tracer,
};
