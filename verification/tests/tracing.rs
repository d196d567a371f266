use rs_tracing::{
    close_trace_file_fn, end_scoped, init_trace_to_file, init_trace_to_stream, is_trace_active,
    precise_time_microsec, set_trace_state, take_pending, trace, trace_begin, trace_end,
    trace_expr, trace_scoped, EventGuard, EventType, SinkKind, Source, TraceEvent, TraceState,
    Tracer,
};
use std::cell::Cell;

fn records(text: &str) -> Vec<serde_json::Value> {
    let mut out = Vec::new();
    for line in text.split('\n') {
        if line.is_empty() {
            continue;
        }
        assert!(line.ends_with(','), "a record is followed by a comma");
        out.push(serde_json::from_str(&line[..line.len() - 1]).unwrap());
    }
    out
}

fn field_u64(record: &serde_json::Value, key: &str) -> u64 {
    record[key].as_u64().unwrap()
}

#[test]
fn tracer_starts_active_without_a_sink() {
    let tracer = Tracer::new();
    assert!(is_trace_active(&tracer));
    assert_eq!(tracer.sink_kind(), None);
}

#[test]
fn switch_can_be_set_both_ways() {
    let mut tracer = Tracer::new();
    set_trace_state(&mut tracer, TraceState::InActive);
    assert!(!is_trace_active(&tracer));
    set_trace_state(&mut tracer, TraceState::Active);
    assert!(is_trace_active(&tracer));
}

#[test]
fn file_sink_holds_a_bracket_and_three_records() {
    let mut tracer = Tracer::new();
    let mut source = Source::manual(42, 7, 1000);
    assert_eq!(init_trace_to_file(&mut tracer), "");
    assert_eq!(tracer.sink_kind(), Some(SinkKind::File));
    trace_begin(&mut tracer, &mut source, "a", None).unwrap();
    source.set_reading(1010);
    trace_end(&mut tracer, &mut source, "a", None).unwrap();
    source.set_reading(1020);
    trace_begin(&mut tracer, &mut source, "b", None).unwrap();
    let text = close_trace_file_fn(&mut tracer);
    assert_eq!(
        text,
        "[{\"name\":\"a\",\"ph\":\"B\",\"ts\":1000,\"pid\":42,\"tid\":7},\n\
         {\"name\":\"a\",\"ph\":\"E\",\"ts\":1010,\"pid\":42,\"tid\":7},\n\
         {\"name\":\"b\",\"ph\":\"B\",\"ts\":1020,\"pid\":42,\"tid\":7},\n"
    );
    assert!(text.starts_with('['));
    assert_eq!(records(&text[1..]).len(), 3);
    assert_eq!(tracer.sink_kind(), None);
}

#[test]
fn stream_sink_holds_the_records_alone() {
    let mut tracer = Tracer::new();
    let mut source = Source::manual(1, 2, 3);
    assert_eq!(init_trace_to_stream(&mut tracer), "");
    assert_eq!(tracer.sink_kind(), Some(SinkKind::Stream));
    trace_begin(&mut tracer, &mut source, "a", None).unwrap();
    assert_eq!(
        take_pending(&mut tracer),
        "{\"name\":\"a\",\"ph\":\"B\",\"ts\":3,\"pid\":1,\"tid\":2},\n"
    );
}

#[test]
fn record_without_a_sink_is_dropped() {
    let mut tracer = Tracer::new();
    let event = TraceEvent::from_parts("op", EventType::DurationBegin, 1, 2, 3, None);
    assert_eq!(trace(&mut tracer, &event), Ok(()));
    assert_eq!(take_pending(&mut tracer), "");
    assert_eq!(close_trace_file_fn(&mut tracer), "");
    assert_eq!(tracer.sink_kind(), None);
}

#[test]
fn trace_does_not_ask_the_switch() {
    let mut tracer = Tracer::new();
    init_trace_to_file(&mut tracer);
    set_trace_state(&mut tracer, TraceState::InActive);
    let event = TraceEvent::from_parts("op", EventType::DurationBegin, 1, 2, 3, None);
    trace(&mut tracer, &event).unwrap();
    assert_eq!(
        close_trace_file_fn(&mut tracer),
        "[{\"name\":\"op\",\"ph\":\"B\",\"ts\":1,\"pid\":2,\"tid\":3},\n"
    );
}

#[test]
fn records_after_close_are_dropped() {
    let mut tracer = Tracer::new();
    let mut source = Source::manual(1, 2, 3);
    init_trace_to_file(&mut tracer);
    assert_eq!(close_trace_file_fn(&mut tracer), "[");
    trace_begin(&mut tracer, &mut source, "late", None).unwrap();
    assert_eq!(close_trace_file_fn(&mut tracer), "");
}

#[test]
fn taking_leaves_the_sink_open() {
    let mut tracer = Tracer::new();
    let mut source = Source::manual(1, 2, 3);
    init_trace_to_file(&mut tracer);
    trace_begin(&mut tracer, &mut source, "a", None).unwrap();
    let first = take_pending(&mut tracer);
    assert_eq!(first, "[{\"name\":\"a\",\"ph\":\"B\",\"ts\":3,\"pid\":1,\"tid\":2},\n");
    assert_eq!(take_pending(&mut tracer), "");
    assert_eq!(tracer.sink_kind(), Some(SinkKind::File));
    trace_end(&mut tracer, &mut source, "a", None).unwrap();
    let rest = close_trace_file_fn(&mut tracer);
    assert_eq!(rest, "{\"name\":\"a\",\"ph\":\"E\",\"ts\":3,\"pid\":1,\"tid\":2},\n");
}

#[test]
fn opening_again_hands_back_what_was_owed() {
    let mut tracer = Tracer::new();
    let mut source = Source::manual(1, 2, 3);
    init_trace_to_file(&mut tracer);
    trace_begin(&mut tracer, &mut source, "a", None).unwrap();
    let owed = init_trace_to_file(&mut tracer);
    assert_eq!(owed, "[{\"name\":\"a\",\"ph\":\"B\",\"ts\":3,\"pid\":1,\"tid\":2},\n");
    assert_eq!(close_trace_file_fn(&mut tracer), "[");
}

#[test]
fn inactive_marks_read_nothing_and_write_nothing() {
    let mut tracer = Tracer::new();
    let mut source = Source::manual(1, 2, 900);
    init_trace_to_file(&mut tracer);
    set_trace_state(&mut tracer, TraceState::InActive);
    assert_eq!(trace_begin(&mut tracer, &mut source, "a", None), Ok(()));
    assert_eq!(trace_end(&mut tracer, &mut source, "a", None), Ok(()));
    assert!(trace_scoped(&tracer, &mut source, "a", None).is_none());
    let (value, outcome) = trace_expr(&mut tracer, &mut source, "a", || 5u8, None);
    assert_eq!(value, 5);
    assert_eq!(outcome, Ok(()));
    assert_eq!(end_scoped(&mut tracer, &mut source, None), Ok(()));
    assert_eq!(source.last_reading(), 0);
    assert_eq!(close_trace_file_fn(&mut tracer), "[");
}

#[test]
fn toggling_drops_only_what_is_marked_while_inactive() {
    let mut tracer = Tracer::new();
    let mut source = Source::manual(1, 2, 10);
    init_trace_to_file(&mut tracer);
    trace_begin(&mut tracer, &mut source, "before", None).unwrap();
    set_trace_state(&mut tracer, TraceState::InActive);
    trace_begin(&mut tracer, &mut source, "during", None).unwrap();
    set_trace_state(&mut tracer, TraceState::Active);
    trace_begin(&mut tracer, &mut source, "after", None).unwrap();
    let text = close_trace_file_fn(&mut tracer);
    let parsed = records(&text[1..]);
    assert_eq!(parsed.len(), 2);
    assert_eq!(parsed[0]["name"], serde_json::Value::from("before"));
    assert_eq!(parsed[1]["name"], serde_json::Value::from("after"));
}

#[test]
fn begin_then_end_are_two_records_in_order() {
    let mut tracer = Tracer::new();
    let mut source = Source::manual(9, 8, 100);
    init_trace_to_file(&mut tracer);
    trace_begin(&mut tracer, &mut source, "same", Some(serde_json::Value::from(1u8))).unwrap();
    source.set_reading(50);
    trace_end(&mut tracer, &mut source, "same", Some(serde_json::Value::from(2u8))).unwrap();
    let text = close_trace_file_fn(&mut tracer);
    assert_eq!(
        text,
        "[{\"name\":\"same\",\"ph\":\"B\",\"ts\":100,\"pid\":9,\"tid\":8,\"args\":1},\n\
         {\"name\":\"same\",\"ph\":\"E\",\"ts\":100,\"pid\":9,\"tid\":8,\"args\":2},\n"
    );
    let parsed = records(&text[1..]);
    assert!(field_u64(&parsed[0], "ts") <= field_u64(&parsed[1], "ts"));
}

#[test]
fn scoped_interval_lasts_from_begin_to_end() {
    let mut tracer = Tracer::new();
    let mut source = Source::manual(42, 7, 1000);
    init_trace_to_file(&mut tracer);
    let guard = trace_scoped(&tracer, &mut source, "op", None);
    assert!(guard.is_some());
    source.set_reading(1250);
    end_scoped(&mut tracer, &mut source, guard).unwrap();
    assert_eq!(
        close_trace_file_fn(&mut tracer),
        "[{\"name\":\"op\",\"ph\":\"X\",\"ts\":1000,\"pid\":42,\"tid\":7,\"dur\":250},\n"
    );
}

#[test]
fn interval_that_began_is_recorded_after_the_switch_is_set() {
    let mut tracer = Tracer::new();
    let mut source = Source::manual(1, 1, 5);
    init_trace_to_file(&mut tracer);
    let guard = trace_scoped(&tracer, &mut source, "op", None);
    set_trace_state(&mut tracer, TraceState::InActive);
    source.set_reading(6);
    end_scoped(&mut tracer, &mut source, guard).unwrap();
    assert_eq!(
        close_trace_file_fn(&mut tracer),
        "[{\"name\":\"op\",\"ph\":\"X\",\"ts\":5,\"pid\":1,\"tid\":1,\"dur\":1},\n"
    );
}

#[test]
fn nested_intervals_are_independent() {
    let mut tracer = Tracer::new();
    let mut source = Source::manual(1, 1, 10);
    init_trace_to_file(&mut tracer);
    let outer = EventGuard::new("outer", &mut source, None);
    source.set_reading(20);
    let inner = EventGuard::new("inner", &mut source, None);
    source.set_reading(30);
    inner.finish(&mut tracer, &mut source).unwrap();
    source.set_reading(45);
    outer.finish(&mut tracer, &mut source).unwrap();
    assert_eq!(
        close_trace_file_fn(&mut tracer),
        "[{\"name\":\"inner\",\"ph\":\"X\",\"ts\":20,\"pid\":1,\"tid\":1,\"dur\":10},\n\
         {\"name\":\"outer\",\"ph\":\"X\",\"ts\":10,\"pid\":1,\"tid\":1,\"dur\":35},\n"
    );
}

#[test]
fn guard_finished_on_an_unread_source_lasts_nothing() {
    let mut tracer = Tracer::new();
    let mut here = Source::manual(1, 1, 500);
    let mut there = Source::manual(1, 2, 100);
    init_trace_to_file(&mut tracer);
    let guard = EventGuard::new("moved", &mut here, None);
    assert_eq!(guard.event().timestamp(), 500);
    guard.finish(&mut tracer, &mut there).unwrap();
    assert_eq!(there.last_reading(), 500);
    assert_eq!(
        close_trace_file_fn(&mut tracer),
        "[{\"name\":\"moved\",\"ph\":\"X\",\"ts\":500,\"pid\":1,\"tid\":1,\"dur\":0},\n"
    );
}

#[test]
fn guard_finalize_gives_the_finished_record() {
    let mut source = Source::manual(3, 4, 70);
    let guard = EventGuard::new("op", &mut source, None);
    let event = guard.finalize(100);
    assert_eq!(event.duration(), Some(30));
    assert_eq!(event.phase(), EventType::Complete);
    assert_eq!(event.process_id(), 3);
    assert_eq!(event.thread_id(), 4);
}

#[test]
fn timed_operation_runs_once_and_is_recorded() {
    let mut tracer = Tracer::new();
    let mut source = Source::manual(1, 1, 40);
    init_trace_to_file(&mut tracer);
    let calls = Cell::new(0u32);
    let (value, outcome) = trace_expr(
        &mut tracer,
        &mut source,
        "work",
        || {
            calls.set(calls.get() + 1);
            "done"
        },
        None,
    );
    assert_eq!(value, "done");
    assert_eq!(outcome, Ok(()));
    assert_eq!(calls.get(), 1);
    assert_eq!(
        close_trace_file_fn(&mut tracer),
        "[{\"name\":\"work\",\"ph\":\"X\",\"ts\":40,\"pid\":1,\"tid\":1,\"dur\":0},\n"
    );
}

#[test]
fn timed_operation_runs_once_while_inactive() {
    let mut tracer = Tracer::new();
    let mut source = Source::manual(1, 1, 40);
    set_trace_state(&mut tracer, TraceState::InActive);
    let calls = Cell::new(0u32);
    let (value, outcome) = trace_expr(
        &mut tracer,
        &mut source,
        "work",
        || {
            calls.set(calls.get() + 1);
            7u8
        },
        None,
    );
    assert_eq!(value, 7);
    assert_eq!(outcome, Ok(()));
    assert_eq!(calls.get(), 1);
    assert_eq!(source.last_reading(), 0);
}

#[test]
fn timed_operation_hands_back_a_failure_of_the_operation() {
    let mut tracer = Tracer::new();
    let mut source = Source::manual(1, 1, 40);
    init_trace_to_file(&mut tracer);
    let (value, outcome) =
        trace_expr(&mut tracer, &mut source, "work", || Err::<u8, &str>("no"), None);
    assert_eq!(value, Err("no"));
    assert_eq!(outcome, Ok(()));
    assert_eq!(records(&close_trace_file_fn(&mut tracer)[1..]).len(), 1);
}

#[test]
fn manual_clock_never_goes_back() {
    let mut source = Source::manual(1, 1, 100);
    assert_eq!(source.now(), 100);
    source.set_reading(40);
    assert_eq!(source.now(), 100);
    assert_eq!(source.now_after(250), 250);
    source.set_reading(300);
    assert_eq!(source.now_after(10), 300);
    assert_eq!(source.last_reading(), 300);
    assert_eq!(source.process_id(), 1);
    assert_eq!(source.thread_id(), 1);
}

#[test]
fn system_clock_never_goes_back() {
    let mut source = Source::new(10, 20);
    assert_eq!(source.last_reading(), 0);
    let first = source.now();
    let second = source.now();
    let third = source.now_after(second);
    assert!(first <= second);
    assert!(second <= third);
    assert_eq!(source.last_reading(), third);
    assert!(precise_time_microsec() <= u64::MAX / 1000);
}

#[test]
fn system_clock_is_in_microseconds() {
    let before = time::precise_time_ns() / 1000;
    let read = precise_time_microsec();
    let after = time::precise_time_ns() / 1000;
    assert!(before <= read);
    assert!(read <= after);
}

#[test]
fn records_on_the_system_clock_are_whole() {
    let mut tracer = Tracer::new();
    let mut source = Source::new(11, 22);
    init_trace_to_file(&mut tracer);
    trace_begin(&mut tracer, &mut source, "a", None).unwrap();
    let (_, outcome) = trace_expr(&mut tracer, &mut source, "b", || (), None);
    outcome.unwrap();
    trace_end(&mut tracer, &mut source, "a", None).unwrap();
    let text = close_trace_file_fn(&mut tracer);
    let parsed = records(&text[1..]);
    assert_eq!(parsed.len(), 3);
    assert_eq!(parsed[0]["ph"], serde_json::Value::from("B"));
    assert_eq!(parsed[1]["ph"], serde_json::Value::from("X"));
    assert_eq!(parsed[2]["ph"], serde_json::Value::from("E"));
    assert!(field_u64(&parsed[0], "ts") <= field_u64(&parsed[1], "ts"));
    assert!(field_u64(&parsed[1], "ts") <= field_u64(&parsed[2], "ts"));
    assert!(parsed[0].get("dur").is_none());
    assert!(parsed[1].get("dur").is_some());
    assert!(parsed[2].get("dur").is_none());
    for record in &parsed {
        assert_eq!(field_u64(record, "pid"), 11);
        assert_eq!(field_u64(record, "tid"), 22);
    }
}

#[test]
fn many_sources_leave_whole_records() {
    let mut tracer = Tracer::new();
    init_trace_to_file(&mut tracer);
    let mut sources: Vec<Source> = Vec::new();
    for tid in 0..4u64 {
        sources.push(Source::manual(1, tid, 0));
    }
    let mut text = String::new();
    for round in 0..25u64 {
        for source in sources.iter_mut() {
            source.set_reading(round);
            trace_begin(&mut tracer, source, "work", None).unwrap();
        }
        text.push_str(&take_pending(&mut tracer));
    }
    text.push_str(&close_trace_file_fn(&mut tracer));
    assert!(text.starts_with('['));
    let parsed = records(&text[1..]);
    assert_eq!(parsed.len(), 100);
    for (i, record) in parsed.iter().enumerate() {
        assert_eq!(field_u64(record, "tid"), (i % 4) as u64);
        assert_eq!(field_u64(record, "ts"), (i / 4) as u64);
    }
}

#[test]
fn record_with_line_feeds_is_one_line() {
    let mut tracer = Tracer::new();
    let mut source = Source::manual(1, 2, 3);
    init_trace_to_file(&mut tracer);
    let mut map = serde_json::Map::new();
    map.insert("k\ney".to_string(), serde_json::Value::from("v\nal\r\u{0}"));
    let args = serde_json::Value::Object(map);
    assert_eq!(trace_begin(&mut tracer, &mut source, "a\nb\"c\\", Some(args.clone())), Ok(()));
    let text = close_trace_file_fn(&mut tracer);
    assert_eq!(text.matches('\n').count(), 1);
    assert!(text.ends_with("},\n"));
    assert!(text.chars().all(|c| c == '\n' || c >= ' '));
    let parsed = records(&text[1..]);
    assert_eq!(parsed.len(), 1);
    assert_eq!(parsed[0]["name"], serde_json::Value::from("a\nb\"c\\"));
    assert_eq!(parsed[0]["args"], args);
}

#[test]
fn every_record_is_accepted() {
    let mut tracer = Tracer::new();
    let mut source = Source::manual(1, 2, 3);
    init_trace_to_file(&mut tracer);
    let values = vec![
        serde_json::Value::Null,
        serde_json::Value::from(true),
        serde_json::Value::from(-5i64),
        serde_json::Value::from(1.5f64),
        serde_json::Value::from(f64::NAN),
        serde_json::Value::from("text"),
        serde_json::Value::Array(vec![serde_json::Value::from(1u8), serde_json::Value::Null]),
    ];
    let count = values.len();
    for value in values {
        let event =
            TraceEvent::from_parts("\u{7f}\u{1f}é", EventType::DurationBegin, 1, 2, 3, Some(value));
        assert!(event.to_json().is_ok());
        assert_eq!(trace(&mut tracer, &event), Ok(()));
    }
    assert_eq!(trace_end(&mut tracer, &mut source, "", None), Ok(()));
    let text = close_trace_file_fn(&mut tracer);
    assert_eq!(records(&text[1..]).len(), count + 1);
    assert_eq!(text.matches('\n').count(), count + 1);
}

#[test]
fn preamble_of_each_kind() {
    assert_eq!(SinkKind::File.preamble_str(), "[");
    assert_eq!(SinkKind::Stream.preamble_str(), "");
}
