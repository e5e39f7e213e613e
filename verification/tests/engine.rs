use pulr::datatypes::{
    empty_transform_task, Event, EventTime, EventTransformTask, OutputFlags, OutputType,
    TimeFormat, TimeText,
};
use pulr::engine::{Core, EventCache, EventTimer, OutputError, Stage};
use pulr::pacing::Resend;
use pulr::sink::{
    beacon_stdout, output_eva_datapuller, output_stdout, output_stdout_csv, output_stdout_ndjson,
};
use pulr::transform::{
    round_scale, TransformError, TransformFunction, TransformStep, Value, ValueText,
};

fn s(text: &str) -> String {
    text.to_string()
}

fn text_of(value: &Value) -> ValueText {
    match value {
        Value::Real32(b) => ValueText {
            plain: f32::from_bits(*b).to_string(),
            json: format!("{:?}", f32::from_bits(*b)),
        },
        Value::Real64(b) => ValueText {
            plain: f64::from_bits(*b).to_string(),
            json: format!("{:?}", f64::from_bits(*b)),
        },
        other => other.text().unwrap(),
    }
}

fn core_of(tp: OutputType, flags: OutputFlags, tf: TimeFormat) -> (Core, EventTimer) {
    let mut timer = EventTimer::new(0);
    let core = Core::new(tp, flags, tf, None, &mut timer, 0);
    (core, timer)
}

#[test]
fn change_suppression() {
    let (core, mut timer) =
        core_of(OutputType::StdoutNdJson, OutputFlags::empty(), TimeFormat::Omit);
    let mut cache = EventCache::new();
    let id = s("t1");
    let chain = empty_transform_task();
    let t = core.create_event_time(1700000000, 0, 0);
    let mut lines = Vec::new();
    for v in [1u16, 1, 2, 2, 1] {
        let event = core.create_event(&id, Value::U16(v), &chain, &t);
        let text = text_of(&event.value);
        if let Some(line) = core.output(&mut cache, &mut timer, &event, &text, 0).unwrap() {
            lines.push(line);
        }
    }
    assert_eq!(
        lines,
        vec![
            s("{\"id\":\"t1\",\"value\":1}"),
            s("{\"id\":\"t1\",\"value\":2}"),
            s("{\"id\":\"t1\",\"value\":1}"),
        ]
    );
}

#[test]
fn eva_datapuller_suffix() {
    let chain = empty_transform_task();
    let t = EventTime::new(TimeFormat::Omit, 0, 0, 0);
    let flags = OutputFlags::empty();
    let cases = [
        ("sensor.a.value", 42u16, "sensor.a u None 42"),
        ("sensor.a.status", 1, "sensor.a u 1"),
        ("sensor.a", 7, "sensor.a u None 7"),
        (".value", 3, " u None 3"),
        (".status", 3, " u 3"),
        ("value", 3, "value u None 3"),
        ("a.values", 3, "a.values u None 3"),
        ("a.value.status", 3, "a.value u 3"),
        ("a.status.value", 3, "a.status u None 3"),
        ("", 3, " u None 3"),
    ];
    for (name, v, line) in cases {
        let id = s(name);
        let event = Event::new(&id, Value::U16(v), &chain, &t, flags);
        assert_eq!(output_eva_datapuller(&event, &text_of(&event.value)), line);
    }
}

#[test]
fn eva_lines_through_the_core() {
    let (core, mut timer) =
        core_of(OutputType::StdoutEvaDatapuller, OutputFlags::empty(), TimeFormat::Raw);
    let mut cache = EventCache::new();
    let chain = empty_transform_task();
    let t = core.create_event_time(1700000000, 0, 0);
    let id = s("sensor.a.value");
    let event = core.create_event(&id, Value::U8(42), &chain, &t);
    assert_eq!(
        core.output(&mut cache, &mut timer, &event, &text_of(&event.value), 0),
        Ok(Some(s("sensor.a u None 42")))
    );
}

#[test]
fn plain_and_csv_lines() {
    let id = s("temp");
    let chain = empty_transform_task();
    let t = EventTime::new(TimeFormat::Raw, 1700000000, 500_000_000, 0);
    let event = Event::new(&id, Value::I16(-5), &chain, &t, OutputFlags::empty());
    let value = text_of(&event.value);
    let time = t.text().unwrap();
    let no_time = TimeText { plain: s(""), json: None };
    assert_eq!(output_stdout(&event, &value, &time), "1700000000.5 temp -5");
    assert_eq!(output_stdout(&event, &value, &no_time), "temp -5");
    assert_eq!(output_stdout_csv(&event, &value, &time), "1700000000.5;temp;-5");
    assert_eq!(output_stdout_csv(&event, &value, &no_time), "temp;-5");
    assert_eq!(beacon_stdout(), "");
}

#[test]
fn json_lines() {
    let id = s("line \"1\"");
    let chain = empty_transform_task();
    let t = EventTime::new(TimeFormat::Raw, 1700000000, 0, 0);
    let long = Event::new(&id, Value::Str(s("on")), &chain, &t, OutputFlags::empty());
    let short = Event::new(&id, Value::U32(9), &chain, &t, OutputFlags { json_short: true });
    let time = t.text().unwrap();
    let no_time = TimeText { plain: s(""), json: None };
    let local = TimeText { plain: s("2020-01-01T00:00:00+00:00"), json: Some(s("\"2020-01-01T00:00:00+00:00\"")) };
    assert_eq!(
        output_stdout_ndjson(&long, &text_of(&long.value), &time),
        "{\"id\":\"line \\\"1\\\"\",\"value\":\"on\",\"time\":1700000000.0}"
    );
    assert_eq!(
        output_stdout_ndjson(&long, &text_of(&long.value), &no_time),
        "{\"id\":\"line \\\"1\\\"\",\"value\":\"on\"}"
    );
    assert_eq!(
        output_stdout_ndjson(&short, &text_of(&short.value), &time),
        "{\"line \\\"1\\\"\":9,\"time\":1700000000.0}"
    );
    assert_eq!(
        output_stdout_ndjson(&short, &text_of(&short.value), &no_time),
        "{\"line \\\"1\\\"\":9}"
    );
    assert_eq!(
        output_stdout_ndjson(&short, &text_of(&short.value), &local),
        "{\"line \\\"1\\\"\":9,\"time\":\"2020-01-01T00:00:00+00:00\"}"
    );
}

#[test]
fn json_lines_are_what_serde_json_reads() {
    let id = s("a\tb\u{1}é");
    let chain = empty_transform_task();
    let t = EventTime::new(TimeFormat::Raw, 12, 34_000_000, 0);
    let event = Event::new(&id, Value::Str(s("x\ny")), &chain, &t, OutputFlags::empty());
    let line = output_stdout_ndjson(&event, &text_of(&event.value), &t.text().unwrap());
    let read: serde_json::Value = serde_json::from_str(&line).unwrap();
    assert_eq!(read.get("id").and_then(|v| v.as_str()), Some("a\tb\u{1}é"));
    assert_eq!(read.get("value").and_then(|v| v.as_str()), Some("x\ny"));
    assert_eq!(read.get("time").and_then(|v| v.as_f64()), Some(12.034));
}

#[test]
fn every_output_type_through_the_core() {
    let id = s("v");
    let chain = empty_transform_task();
    let cases = [
        (OutputType::Stdout, false, "5.25 v 7"),
        (OutputType::StdoutCsv, false, "5.25;v;7"),
        (OutputType::StdoutNdJson, false, "{\"id\":\"v\",\"value\":7,\"time\":5.25}"),
        (OutputType::StdoutNdJson, true, "{\"v\":7,\"time\":5.25}"),
        (OutputType::StdoutEvaDatapuller, false, "v u None 7"),
    ];
    for (tp, short, line) in cases {
        let (core, mut timer) = core_of(tp, OutputFlags { json_short: short }, TimeFormat::Raw);
        let mut cache = EventCache::new();
        let t = core.create_event_time(5, 250_000_000, 0);
        assert_eq!(t, EventTime::new(TimeFormat::Raw, 5, 250_000_000, 0));
        let event = core.create_event(&id, Value::U64(7), &chain, &t);
        assert_eq!(
            core.output(&mut cache, &mut timer, &event, &text_of(&event.value), 0),
            Ok(Some(s(line)))
        );
        assert_eq!(
            core.output(&mut cache, &mut timer, &event, &text_of(&event.value), 0),
            Ok(None)
        );
    }
}

#[test]
fn events_of_different_names_do_not_suppress_each_other() {
    let (core, mut timer) = core_of(OutputType::Stdout, OutputFlags::empty(), TimeFormat::Omit);
    let mut cache = EventCache::new();
    let chain = empty_transform_task();
    let t = core.create_event_time(0, 0, 0);
    let a = s("a");
    let b = s("b");
    let ea = core.create_event(&a, Value::U8(1), &chain, &t);
    let eb = core.create_event(&b, Value::U8(1), &chain, &t);
    let text = text_of(&ea.value);
    assert_eq!(core.output(&mut cache, &mut timer, &ea, &text, 0), Ok(Some(s("a 1"))));
    assert_eq!(core.output(&mut cache, &mut timer, &eb, &text, 0), Ok(Some(s("b 1"))));
    assert_eq!(core.output(&mut cache, &mut timer, &ea, &text, 0), Ok(None));
    assert_eq!(core.output(&mut cache, &mut timer, &eb, &text, 0), Ok(None));
    core.clear_event_cache(&mut cache);
    assert_eq!(core.output(&mut cache, &mut timer, &eb, &text, 0), Ok(Some(s("b 1"))));
    assert_eq!(core.output(&mut cache, &mut timer, &ea, &text, 0), Ok(Some(s("a 1"))));
}

#[test]
fn the_cache_keeps_texts() {
    let mut cache = EventCache::new();
    assert!(cache.accept_text(1, "x"));
    assert!(!cache.accept_text(1, "x"));
    assert!(cache.accept_text(2, "x"));
    assert!(cache.accept_text(1, "y"));
    assert!(cache.accept_text(1, "x"));
    assert!(!cache.accept_text(2, "x"));
    cache.clear();
    assert!(cache.accept_text(2, "x"));
    assert!(cache.accept_text(1, ""));
    assert!(!cache.accept_text(1, ""));
}

#[test]
fn a_time_without_local_notation_is_refused() {
    let (core, mut timer) = core_of(OutputType::Stdout, OutputFlags::empty(), TimeFormat::Rfc3339);
    let mut cache = EventCache::new();
    let chain = empty_transform_task();
    let id = s("a");
    let far = core.create_event_time(u64::MAX, 0, 0);
    let event = core.create_event(&id, Value::U8(1), &chain, &far);
    let text = text_of(&event.value);
    assert_eq!(
        core.output(&mut cache, &mut timer, &event, &text, 0),
        Err(OutputError::Time)
    );
    let near = core.create_event_time(1700000000, 0, 0);
    let event = core.create_event(&id, Value::U8(1), &chain, &near);
    let line = core.output(&mut cache, &mut timer, &event, &text, 0).unwrap().unwrap();
    assert!(line.ends_with(" a 1"));
    assert!(line.starts_with("2023-11-1"));
    let given = TimeText { plain: s("T"), json: Some(s("\"T\"")) };
    cache.clear();
    assert_eq!(
        core.output_at(&mut cache, &mut timer, &event, &text, &given, 0),
        Some(s("T a 1"))
    );
}

#[test]
fn transform_chain() {
    let (core, mut timer) = core_of(OutputType::StdoutNdJson, OutputFlags::empty(), TimeFormat::Omit);
    let mut cache = EventCache::new();
    let id = s("level");
    let chain = vec![
        EventTransformTask { func: TransformFunction::Divide, args: vec![10f64.to_bits()] },
        EventTransformTask { func: TransformFunction::Round, args: vec![1f64.to_bits()] },
        EventTransformTask { func: TransformFunction::Multiply, args: vec![2f64.to_bits()] },
    ];
    let t = core.create_event_time(0, 0, 0);
    let mut event = core.create_event(&id, Value::U16(300), &chain, &t);
    let mut number = 300f64;
    let mut ti = 0;
    let mut seen = Vec::new();
    loop {
        match core.stage(&event, ti) {
            Stage::Emit => break,
            Stage::Fail(e) => panic!("{:?}", e),
            Stage::Transform(step) => {
                seen.push(step);
                number = match step {
                    TransformStep::Multiply { factor } => number * f64::from_bits(factor),
                    TransformStep::Divide { divisor } => number / f64::from_bits(divisor),
                    TransformStep::Round { digits } => {
                        let m = round_scale(f64::from_bits(digits) as u32).unwrap() as f64;
                        (number * m).round() / m
                    }
                    TransformStep::CalcSpeed { .. } => panic!("no speed here"),
                };
                event = event.transformed(Some(number.to_bits())).unwrap();
                ti += 1;
            }
        }
    }
    assert_eq!(ti, 3);
    assert_eq!(
        seen,
        vec![
            TransformStep::Divide { divisor: 10f64.to_bits() },
            TransformStep::Round { digits: 1f64.to_bits() },
            TransformStep::Multiply { factor: 2f64.to_bits() },
        ]
    );
    assert_eq!(event.value, Value::Real64(60f64.to_bits()));
    assert_eq!(number, 60.0);
    let text = ValueText { plain: number.to_string(), json: serde_json::to_string(&number).unwrap() };
    assert_eq!(
        core.output(&mut cache, &mut timer, &event, &text, 0),
        Ok(Some(s("{\"id\":\"level\",\"value\":60.0}")))
    );
}

#[test]
fn stages_of_a_chain() {
    let (core, _) = core_of(OutputType::Stdout, OutputFlags::empty(), TimeFormat::Omit);
    let id = s("x");
    let none = empty_transform_task();
    let t = core.create_event_time(0, 0, 0);
    let plain = core.create_event(&id, Value::Bool(true), &none, &t);
    assert_eq!(core.stage(&plain, 0), Stage::Emit);
    assert_eq!(core.stage(&plain, 5), Stage::Emit);
    let chain = vec![
        EventTransformTask { func: TransformFunction::Round, args: vec![] },
        EventTransformTask { func: TransformFunction::CalcSpeed, args: vec![] },
    ];
    let e = core.create_event(&id, Value::Bool(true), &chain, &t);
    assert_eq!(core.stage(&e, 0), Stage::Fail(TransformError::MissingArgument));
    assert_eq!(core.stage(&e, 1), Stage::Fail(TransformError::SpeedUnsupported));
    assert_eq!(core.stage(&e, 2), Stage::Emit);
}

#[test]
fn resend_tick() {
    let second = 1_000_000_000u64;
    let id = s("t1");
    let chain = empty_transform_task();
    for interval in [Some(second), None] {
        let (core, mut timer) = core_of(OutputType::Stdout, OutputFlags::empty(), TimeFormat::Omit);
        let mut cache = EventCache::new();
        let mut resend = Resend::new(interval, 0);
        let mut lines = 0;
        for now in [0, second] {
            if let Some(r) = resend.as_mut() {
                if r.tick(now) {
                    core.clear_event_cache(&mut cache);
                }
            }
            let t = core.create_event_time(0, 0, now);
            let event = core.create_event(&id, Value::U16(5), &chain, &t);
            let text = text_of(&event.value);
            if core.output(&mut cache, &mut timer, &event, &text, now).unwrap().is_some() {
                lines += 1;
            }
        }
        assert_eq!(lines, if interval.is_some() { 2 } else { 1 });
    }
}

#[test]
fn the_watch_for_silence() {
    let second = 1_000_000_000u64;
    let mut timer = EventTimer::new(7);
    assert_eq!(timer.last_event_time, 7);
    let quiet = Core::new(OutputType::Stdout, OutputFlags::empty(), TimeFormat::Omit, None, &mut timer, 50);
    assert_eq!(timer.last_event_time, 7);
    assert_eq!(quiet.since_event(&timer, 100), None);
    assert!(!quiet.is_event_timeout(&timer, u64::MAX));
    assert!(!quiet.ends_after_sweep(true, &timer, u64::MAX));
    assert!(quiet.ends_after_sweep(false, &timer, 0));
    let core = Core::new(
        OutputType::Stdout,
        OutputFlags::empty(),
        TimeFormat::Omit,
        Some(2 * second),
        &mut timer,
        50,
    );
    assert_eq!(timer.last_event_time, 50);
    assert_eq!(core.since_event(&timer, 50 + second), Some(second));
    assert_eq!(core.since_event(&timer, 10), Some(0));
    assert!(!core.is_event_timeout(&timer, 50 + 2 * second));
    assert!(core.is_event_timeout(&timer, 51 + 2 * second));
    assert!(!core.ends_after_sweep(true, &timer, 50 + 2 * second));
    assert!(core.ends_after_sweep(true, &timer, 51 + 2 * second));
    assert!(core.ends_after_sweep(false, &timer, 50));
    let mut cache = EventCache::new();
    let id = s("a");
    let chain = empty_transform_task();
    let t = core.create_event_time(0, 0, 0);
    let event = core.create_event(&id, Value::U8(1), &chain, &t);
    let text = text_of(&event.value);
    assert!(core.output(&mut cache, &mut timer, &event, &text, 3 * second).unwrap().is_some());
    assert_eq!(timer.last_event_time, 3 * second);
    assert!(core.output(&mut cache, &mut timer, &event, &text, 9 * second).unwrap().is_none());
    assert_eq!(timer.last_event_time, 3 * second);
    assert!(core.is_event_timeout(&timer, 9 * second));
    timer.trigger(9 * second);
    assert_eq!(timer.since_event(10 * second), second);
}
