use frost_tune::diagnostics::{
    format_diagnostic_log_line, format_diagnostics, format_diagnostics_at, parse_diagnostic_log_line,
    DiagnosticContext, DiagnosticEvent, DiagnosticsStore, LogLevel, Source, MAX_EVENTS,
};

#[test]
fn test_diagnostic_event_creation() {
    let event = DiagnosticEvent::new(LogLevel::Info, Source::UI, "Test info message");
    assert_eq!(event.level, LogLevel::Info);
    assert_eq!(event.source, Source::UI);
    assert_eq!(event.message, "Test info message");
    assert!(event.context.is_none());

    let event_with_ctx = event
        .with_context("key1", "val1")
        .with_context("key2", "val2");
    let ctx = event_with_ctx.context.as_ref().unwrap();
    assert_eq!(ctx.get("key1").unwrap(), "val1");
    assert_eq!(ctx.get("key2").unwrap(), "val2");
}

#[test]
fn test_diagnostics_store_deduplication() {
    let mut store = DiagnosticsStore::default();
    let event1 = DiagnosticEvent::new(LogLevel::Info, Source::UI, "Message 1");
    let event2 = DiagnosticEvent::new(LogLevel::Info, Source::UI, "Message 1");
    let event3 = DiagnosticEvent::new(LogLevel::Info, Source::UI, "Message 2");

    store.push(event1);
    store.push(event2); // consecutively identical: not stored
    assert_eq!(store.count(), 1);

    store.push(event3);
    assert_eq!(store.count(), 2);
}

#[test]
fn test_diagnostics_store_capping() {
    let mut store = DiagnosticsStore::default();
    for i in 0..600 {
        let event = DiagnosticEvent::new(LogLevel::Info, Source::UI, &format!("Message {}", i));
        store.push(event);
    }
    assert_eq!(store.count(), MAX_EVENTS);
}

#[test]
fn test_diagnostics_store_errors_filtering() {
    let mut store = DiagnosticsStore::default();
    store.push(DiagnosticEvent::new(LogLevel::Info, Source::UI, "Info message"));
    store.push(DiagnosticEvent::new(LogLevel::Error, Source::Worker, "Error message"));
    store.push(DiagnosticEvent::new(LogLevel::Warn, Source::HID, "Warn message"));

    let errors: Vec<&DiagnosticEvent> = store.errors();
    assert_eq!(errors.len(), 1);
    assert_eq!(errors[0].message, "Error message");
}

#[test]
fn test_diagnostics_store_from_events() {
    let mut events = Vec::new();
    for i in 0..600 {
        events.push(DiagnosticEvent::new(LogLevel::Info, Source::UI, &format!("Msg {}", i)));
    }
    let store = DiagnosticsStore::from_events(events);
    assert_eq!(store.count(), MAX_EVENTS);
}

#[test]
fn test_format_diagnostics() {
    let mut store = DiagnosticsStore::default();
    store.push(DiagnosticEvent::new(LogLevel::Info, Source::UI, "Diagnostics started"));
    let output = format_diagnostics(&store, "1.0.0", "Connected");
    assert!(output.contains("=== Frost-Tune Diagnostics ==="));
    assert!(output.contains("Version: 1.0.0"));
    assert!(output.contains("Connection Status: Connected"));
    assert!(output.contains("Diagnostics started"));
}

#[test]
fn test_diagnostic_log_line_roundtrip() {
    let event = DiagnosticEvent::new(LogLevel::Warn, Source::HID, "Device disconnected")
        .with_context("device_id", "1234");
    let formatted = format_diagnostic_log_line(&event);
    let parsed = parse_diagnostic_log_line(&formatted).unwrap();

    assert_eq!(parsed.level, LogLevel::Warn);
    assert_eq!(parsed.source, Source::HID);
    assert_eq!(parsed.message, "Device disconnected");
}

fn event_at(ts: &str, level: LogLevel, source: Source, msg: &str) -> DiagnosticEvent {
    DiagnosticEvent::at(ts.to_string(), level, source, msg)
}

#[test]
fn log_line_has_exact_layout() {
    let e = event_at("2024-01-02 03:04:05.678", LogLevel::Error, Source::AutoEQ, "boom")
        .with_context("a", "1")
        .with_context("b", "2");
    assert_eq!(format_diagnostic_log_line(&e), "2024-01-02 03:04:05.678 [ERROR] [AutoEQ] boom | a=1 | b=2");
}

#[test]
fn log_line_roundtrip_keeps_timestamp_and_fields() {
    let e = event_at("2024-01-02 03:04:05.678", LogLevel::Info, Source::Worker, "pull done: 10 bands");
    let parsed = parse_diagnostic_log_line(&format_diagnostic_log_line(&e)).unwrap();
    assert_eq!(parsed.timestamp, "2024-01-02 03:04:05.678");
    assert_eq!(parsed.level, LogLevel::Info);
    assert_eq!(parsed.source, Source::Worker);
    assert_eq!(parsed.message, "pull done: 10 bands");
    assert!(parsed.context.is_none());
}

#[test]
fn parse_rejects_short_and_unknown_lines() {
    assert!(parse_diagnostic_log_line("").is_none());
    assert!(parse_diagnostic_log_line("2024-01-02 03:04:05 [INFO]").is_none());
    assert!(parse_diagnostic_log_line("2024-01-02 03:04:05 [DEBUG] [UI] hi").is_none());
    assert!(parse_diagnostic_log_line("2024-01-02 03:04:05 [INFO] [GPU] hi").is_none());
}

#[test]
fn parse_trims_and_strips_brackets() {
    let p = parse_diagnostic_log_line("  d t [[WARN]] UI msg with spaces | k=v  ").unwrap();
    assert_eq!(p.timestamp, "d t");
    assert_eq!(p.level, LogLevel::Warn);
    assert_eq!(p.source, Source::UI);
    assert_eq!(p.message, "msg with spaces");
}

#[test]
fn message_without_context_loses_trailing_space() {
    let e = event_at("d t", LogLevel::Info, Source::UI, "trailing ");
    let p = parse_diagnostic_log_line(&format_diagnostic_log_line(&e)).unwrap();
    assert_eq!(p.message, "trailing");
    let empty = event_at("d t", LogLevel::Info, Source::UI, "");
    assert!(parse_diagnostic_log_line(&format_diagnostic_log_line(&empty)).is_none());
}

#[test]
fn push_returns_log_line_only_when_stored() {
    let mut store = DiagnosticsStore::default();
    let line = store.push(event_at("d t", LogLevel::Warn, Source::HID, "x"));
    assert_eq!(line.as_deref(), Some("d t [WARN] [HID] x"));
    assert!(store.push(event_at("other time", LogLevel::Warn, Source::HID, "x")).is_none());
    assert_eq!(store.count(), 1);
    store.clear();
    assert_eq!(store.count(), 0);
}

#[test]
fn store_drops_oldest_when_full() {
    let mut store = DiagnosticsStore::default();
    for i in 0..(MAX_EVENTS + 2) {
        store.push(event_at("d t", LogLevel::Info, Source::UI, &format!("m{}", i)));
    }
    let events = store.events();
    assert_eq!(events.len(), MAX_EVENTS);
    assert_eq!(events[0].message, "m2");
    assert_eq!(events[MAX_EVENTS - 1].message, format!("m{}", MAX_EVENTS + 1));
}

#[test]
fn from_events_keeps_newest_in_order() {
    let mut events = Vec::new();
    for i in 0..(MAX_EVENTS + 3) {
        events.push(event_at("d t", LogLevel::Info, Source::UI, &format!("e{}", i)));
    }
    let store = DiagnosticsStore::from_events(events);
    let kept = store.events();
    assert_eq!(kept[0].message, "e3");
    let small = DiagnosticsStore::from_events(vec![event_at("d t", LogLevel::Info, Source::UI, "only")]);
    assert_eq!(small.count(), 1);
}

#[test]
fn context_replaces_value_in_place() {
    let mut ctx = DiagnosticContext::new();
    ctx.insert("k", "1");
    ctx.insert("j", "2");
    ctx.insert("k", "3");
    assert_eq!(ctx.len(), 2);
    assert_eq!(ctx.get("k").unwrap(), "3");
    assert_eq!(ctx.entry(0).0, "k");
    assert!(ctx.get("missing").is_none());
}

#[test]
fn report_lists_events_and_context() {
    let mut store = DiagnosticsStore::default();
    store.push(event_at("d t", LogLevel::Error, Source::Worker, "bad").with_context("code", "7"));
    let report = format_diagnostics_at(&store, "0.8.3", "now", "Disconnected");
    assert_eq!(
        report,
        "=== Frost-Tune Diagnostics ===\nVersion: 0.8.3\nTimestamp: now\nConnection Status: Disconnected\n\n=== Events ===\nd t [ERROR] [Worker] bad\n  code: 7\n\n=== Total Events: 1 ==="
    );
}

#[test]
fn event_clone_keeps_fields() {
    let e = event_at("d t", LogLevel::Warn, Source::UI, "m").with_context("a", "b");
    let c = e.clone();
    assert_eq!(c.timestamp, "d t");
    assert_eq!(c.message, "m");
    assert_eq!(c.context.unwrap().get("a").unwrap(), "b");
}

#[test]
fn new_event_timestamp_has_one_space() {
    let e = DiagnosticEvent::new(LogLevel::Info, Source::UI, "x");
    assert_eq!(e.timestamp.matches(' ').count(), 1);
    assert_eq!(LogLevel::Error.name(), "ERROR");
    assert_eq!(Source::AutoEQ.name(), "AutoEQ");
}

#[test]
fn diagnostics_report_is_stamped_with_date_and_time() {
    let store = DiagnosticsStore::default();
    let output = format_diagnostics(&store, "1.0.0", "Disconnected");
    let stamp = output.lines().find(|l| l.starts_with("Timestamp: ")).expect("a timestamp line");
    let value = &stamp["Timestamp: ".len()..];
    assert_eq!(value.matches(' ').count(), 1);
    let (date, time) = value.split_once(' ').unwrap();
    assert!(date.chars().next().unwrap().is_ascii_digit());
    assert!(time.chars().all(|c| c.is_ascii_digit() || c == ':'));
}

#[test]
fn event_timestamps_have_the_documented_layout() {
    let e = DiagnosticEvent::new(LogLevel::Info, Source::UI, "x");
    let ts = e.timestamp.as_str();
    let (date, time) = ts.split_once(' ').unwrap();
    let parts: Vec<&str> = date.rsplitn(3, '-').collect();
    assert_eq!(parts[0].len(), 2);
    assert_eq!(parts[1].len(), 2);
    assert!(parts[2].len() >= 4);
    assert_eq!(time.len(), 12);
    assert_eq!(&time[2..3], ":");
    assert_eq!(&time[5..6], ":");
    assert_eq!(&time[8..9], ".");
}
