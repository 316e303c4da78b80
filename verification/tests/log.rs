use openworkers_runtime_deno::ext::runtime::{log_plan, op_log};
use openworkers_runtime_deno::{LogEvent, LogLevel, Logged, OpState};

#[test]
fn level_names() {
    assert_eq!(LogLevel::from_str("error"), LogLevel::Error);
    assert_eq!(LogLevel::from_str("warn"), LogLevel::Warn);
    assert_eq!(LogLevel::from_str("info"), LogLevel::Info);
    assert_eq!(LogLevel::from_str("log"), LogLevel::Log);
    assert_eq!(LogLevel::from_str("debug"), LogLevel::Debug);
    assert_eq!(LogLevel::from_str("trace"), LogLevel::Trace);
}

#[test]
fn other_texts_are_read_as_log() {
    assert_eq!(LogLevel::from_str(""), LogLevel::Log);
    assert_eq!(LogLevel::from_str("Error"), LogLevel::Log);
    assert_eq!(LogLevel::from_str("warning"), LogLevel::Log);
    assert_eq!(LogLevel::from_str("logs"), LogLevel::Log);
}

#[test]
fn event_from_level_and_message() {
    let event = LogEvent::new("warn", "disk almost full");
    assert_eq!(event.level, LogLevel::Warn);
    assert_eq!(event.message, "disk almost full");
    let event = LogEvent::new("loud", "x");
    assert_eq!(event.level, LogLevel::Log);
    assert_eq!(event.message, "x");
}

#[test]
fn log_is_forwarded_to_the_sink() {
    let (tx, rx) = std::sync::mpsc::channel();
    let state = OpState::new(Some(tx));
    assert!(matches!(op_log(&state, "info", "hello"), Logged::Taken));
    assert!(matches!(op_log(&state, "error", "bye"), Logged::Taken));
    let first = rx.try_recv().unwrap();
    assert_eq!(first.level, LogLevel::Info);
    assert_eq!(first.message, "hello");
    let second = rx.try_recv().unwrap();
    assert_eq!(second.level, LogLevel::Error);
    assert_eq!(second.message, "bye");
    assert!(rx.try_recv().is_err());
}

#[test]
fn log_without_a_sink_is_dropped() {
    let state = OpState::new(None);
    assert!(matches!(op_log(&state, "info", "hello"), Logged::NoSink));
}

#[test]
fn log_with_an_unknown_level_is_kept() {
    let (tx, rx) = std::sync::mpsc::channel();
    let state = OpState::new(Some(tx));
    assert!(matches!(op_log(&state, "shout", "hello"), Logged::Taken));
    let event = rx.try_recv().unwrap();
    assert_eq!(event.level, LogLevel::Log);
    assert_eq!(event.message, "hello");
}

#[test]
fn log_plan_names_sink_and_event() {
    let (tx, rx) = std::sync::mpsc::channel();
    let state = OpState::new(Some(tx));
    let (sink, event) = log_plan(&state, "trace", "step").unwrap();
    assert_eq!(event.level, LogLevel::Trace);
    assert_eq!(event.message, "step");
    // the sink is the one of the state
    sink.send(event).unwrap();
    assert_eq!(rx.try_recv().unwrap().message, "step");
    assert!(log_plan(&OpState::new(None), "trace", "step").is_none());
}

#[test]
fn log_to_a_sink_that_is_gone_comes_back() {
    let (tx, rx) = std::sync::mpsc::channel();
    drop(rx);
    let state = OpState::new(Some(tx));
    match op_log(&state, "warn", "hello") {
        Logged::SinkGone(event) => {
            assert_eq!(event.level, LogLevel::Warn);
            assert_eq!(event.message, "hello");
        }
        other => panic!("expected the event back, got {:?}", other),
    }
}

#[test]
fn outcome_of_handing_an_event_on() {
    assert!(matches!(Logged::of_send(Ok(())), Logged::Taken));
    let event = LogEvent::new("debug", "x");
    match Logged::of_send(Err(event)) {
        Logged::SinkGone(back) => {
            assert_eq!(back.level, LogLevel::Debug);
            assert_eq!(back.message, "x");
        }
        other => panic!("expected the event back, got {:?}", other),
    }
}
