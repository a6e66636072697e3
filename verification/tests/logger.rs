use onoma_bridge::failure::{Failure, Target};
use onoma_bridge::host::HostValue;
use onoma_bridge::logger::{
    flush, init, log, log_directory, log_setup, panic_record, Buffering, Diagnostics, Level,
    LineFormat, PanicLocation, PanicPayload, Record, Severity, SinkAction,
};
use onoma_bridge::storage::StatePath;

fn text(value: &str) -> HostValue {
    HostValue::Text(value.to_string())
}

#[test]
fn level_names_of_the_vocabulary() {
    assert_eq!(Level::from_name("error").unwrap().severity(), Severity::Error);
    assert_eq!(Level::from_name("warn").unwrap().severity(), Severity::Warn);
    assert_eq!(Level::from_name("warning").unwrap().severity(), Severity::Warn);
    assert_eq!(Level::from_name("info").unwrap().severity(), Severity::Info);
    assert_eq!(Level::from_name("debug").unwrap().severity(), Severity::Debug);
    assert_eq!(Level::from_name("trace").unwrap().severity(), Severity::Trace);
}

#[test]
fn level_names_are_case_sensitive() {
    for name in ["Warning", "WARN", "Error", "INFO", "Debug", "tracE"] {
        assert_eq!(
            Level::from_name(name),
            Err(Failure::UnknownLevel { name: name.to_string() })
        );
    }
}

#[test]
fn level_name_outside_the_vocabulary() {
    for name in ["", "bogus", "off", "warnings", " warn", "err"] {
        assert_eq!(
            Level::from_name(name),
            Err(Failure::UnknownLevel { name: name.to_string() })
        );
    }
}

#[test]
fn level_of_a_severity() {
    assert_eq!(Level::new(Severity::Debug).severity(), Severity::Debug);
    assert_eq!(Level::new(Severity::Warn), Level::from_name("warn").unwrap());
}

#[test]
fn level_from_a_host_string() {
    assert_eq!(Level::from_host(&text("info")), Ok(Level::new(Severity::Info)));
    assert_eq!(
        Level::from_host(&text("loud")),
        Err(Failure::UnknownLevel { name: "loud".to_string() })
    );
}

#[test]
fn level_from_a_host_value_that_is_no_string() {
    let value = HostValue::Other { value_type: "table".to_string() };
    assert_eq!(
        Level::from_host(&value),
        Err(Failure::ExpectedString { target: Target::Level, found: "table".to_string() })
    );
}

#[test]
fn log_writes_one_record_at_warning() {
    let written = log(&text("warning"), "disk low".to_string());
    assert_eq!(
        written,
        Ok(Record { severity: Severity::Warn, message: "disk low".to_string() })
    );
}

#[test]
fn log_fails_on_an_unknown_level() {
    let written = log(&text("bogus"), "x".to_string());
    assert_eq!(written, Err(Failure::UnknownLevel { name: "bogus".to_string() }));
}

#[test]
fn log_keeps_the_message_as_it_is() {
    let written = log(&text("trace"), "".to_string()).unwrap();
    assert_eq!(written.severity, Severity::Trace);
    assert_eq!(written.message, "");
    let written = log(&text("error"), "a\nb: {c}".to_string()).unwrap();
    assert_eq!(written.message, "a\nb: {c}");
}

#[test]
fn log_fails_on_a_level_that_is_no_string() {
    let written = log(&HostValue::Other { value_type: "number".to_string() }, "x".to_string());
    assert_eq!(
        written,
        Err(Failure::ExpectedString { target: Target::Level, found: "number".to_string() })
    );
}

#[test]
fn init_opens_and_installs_once() {
    let mut sink = Diagnostics::new();
    assert_eq!(sink, Diagnostics { destination_open: false, hook_installed: false });
    let first = init(&mut sink);
    assert_eq!(
        first,
        SinkAction { open_destination: true, install_hook: true, flush: false }
    );
    assert_eq!(sink, Diagnostics { destination_open: true, hook_installed: true });
    let second = init(&mut sink);
    assert_eq!(
        second,
        SinkAction { open_destination: false, install_hook: false, flush: false }
    );
    assert_eq!(sink, Diagnostics { destination_open: true, hook_installed: true });
}

#[test]
fn init_many_times_counts_one_destination_and_one_hook() {
    let mut sink = Diagnostics::new();
    let mut destinations = 0;
    let mut hooks = 0;
    for _ in 0..25 {
        let action = init(&mut sink);
        if action.open_destination {
            destinations += 1;
        }
        if action.install_hook {
            hooks += 1;
        }
        assert!(!action.flush);
    }
    assert_eq!(destinations, 1);
    assert_eq!(hooks, 1);
}

#[test]
fn flush_before_init_opens_the_destination_only() {
    let mut sink = Diagnostics::new();
    let flushed = flush(&mut sink);
    assert_eq!(
        flushed,
        SinkAction { open_destination: true, install_hook: false, flush: true }
    );
    assert_eq!(sink, Diagnostics { destination_open: true, hook_installed: false });
    let initialised = init(&mut sink);
    assert_eq!(
        initialised,
        SinkAction { open_destination: false, install_hook: true, flush: false }
    );
}

#[test]
fn flush_after_init_only_flushes() {
    let mut sink = Diagnostics::new();
    init(&mut sink);
    for _ in 0..3 {
        assert_eq!(
            flush(&mut sink),
            SinkAction { open_destination: false, install_hook: false, flush: true }
        );
        assert_eq!(sink, Diagnostics { destination_open: true, hook_installed: true });
    }
}

#[test]
fn panic_record_with_text_and_place() {
    let payload = PanicPayload::Text("index out of bounds".to_string());
    let location = PanicLocation { file: "src/lib.rs".to_string(), line: 42, column: 7 };
    let record = panic_record(&payload, Some(&location));
    assert_eq!(record.severity, Severity::Error);
    assert_eq!(
        record.message,
        "PANIC: A panic occurred in backend at src/lib.rs:42:7: index out of bounds"
    );
}

#[test]
fn panic_record_without_place() {
    let payload = PanicPayload::Text("boom".to_string());
    let record = panic_record(&payload, None);
    assert_eq!(record.message, "PANIC: A panic occurred in backend at unknown: boom");
}

#[test]
fn panic_record_of_an_unreadable_payload() {
    let location = PanicLocation { file: "a.rs".to_string(), line: 0, column: 4294967295 };
    let record = panic_record(&PanicPayload::Opaque, Some(&location));
    assert_eq!(
        record,
        Record {
            severity: Severity::Error,
            message: "PANIC: A panic occurred in backend at a.rs:0:4294967295: Unknown panic"
                .to_string(),
        }
    );
    let record = panic_record(&PanicPayload::Opaque, None);
    assert_eq!(
        record.message,
        "PANIC: A panic occurred in backend at unknown: Unknown panic"
    );
}

#[test]
fn one_panic_after_two_inits_is_recorded_once() {
    let mut sink = Diagnostics::new();
    let mut hooks = 0;
    for _ in 0..2 {
        if init(&mut sink).install_hook {
            hooks += 1;
        }
    }
    let payload = PanicPayload::Text("forced".to_string());
    let records: Vec<Record> = (0..hooks).map(|_| panic_record(&payload, None)).collect();
    assert_eq!(records.len(), 1);
    assert_eq!(records[0].message, "PANIC: A panic occurred in backend at unknown: forced");
}

#[test]
fn log_directory_below_the_state_directory() {
    assert_eq!(
        log_directory(Some("/home/u/.local/state".to_string())),
        StatePath::UnderState {
            state: "/home/u/.local/state".to_string(),
            relative: "nvim/onoma/logs".to_string(),
        }
    );
}

#[test]
fn log_directory_without_a_state_directory() {
    assert_eq!(log_directory(None), StatePath::Fallback { path: "./onoma/logs".to_string() });
}

#[test]
fn log_setup_names_filter_directory_and_basename() {
    let setup = log_setup(Some("/state".to_string()));
    assert_eq!(setup.filter, "onoma_bridge=trace, onoma=trace");
    assert_eq!(setup.basename, "bridge");
    assert_eq!(setup.format, LineFormat::WithTimeAndPlace);
    assert_eq!(setup.buffering, Buffering::BufferAndFlush);
    assert_eq!(
        setup.directory,
        StatePath::UnderState { state: "/state".to_string(), relative: "nvim/onoma/logs".to_string() }
    );
    let setup = log_setup(None);
    assert_eq!(setup.directory, StatePath::Fallback { path: "./onoma/logs".to_string() });
}
