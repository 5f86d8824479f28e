use wsrpc::level::Level;
use wsrpc::logger::{format_record, push_decimal, LogRecord, LogWriter};

fn record(level: Level, line: Option<u32>, name: Option<&str>) -> LogRecord {
    LogRecord {
        level,
        target: "client::app".to_string(),
        line,
        args: "Connected".to_string(),
        thread_id: "ThreadId(1)".to_string(),
        thread_name: name.map(|n| n.to_string()),
    }
}

#[test]
fn level_names() {
    assert_eq!(Level::Error.as_str(), "ERROR");
    assert_eq!(Level::Warn.as_str(), "WARN");
    assert_eq!(Level::Info.as_str(), "INFO");
    assert_eq!(Level::Debug.as_str(), "DEBUG");
    assert_eq!(Level::Trace.as_str(), "TRACE");
}

#[test]
fn level_order() {
    assert!(Level::Error.le(&Level::Warn));
    assert!(Level::Info.le(&Level::Info));
    assert!(!Level::Debug.le(&Level::Info));
    assert_eq!(Level::Error.rank(), 1);
    assert_eq!(Level::Trace.rank(), 5);
}

#[test]
fn new_keeps_level() {
    let w = LogWriter::new(Level::Info);
    assert_eq!(w.level(), Level::Info);
}

#[test]
fn info_writer_filters() {
    let w = LogWriter::new(Level::Info);
    assert!(w.enabled(Level::Error));
    assert!(w.enabled(Level::Warn));
    assert!(w.enabled(Level::Info));
    assert!(!w.enabled(Level::Debug));
    assert!(!w.enabled(Level::Trace));
}

#[test]
fn filter_is_monotone() {
    let w = LogWriter::new(Level::Error);
    assert!(w.enabled(Level::Error));
    assert!(!w.enabled(Level::Warn));
    let t = LogWriter::new(Level::Trace);
    assert!(t.enabled(Level::Trace));
    assert!(t.enabled(Level::Error));
}

#[test]
fn decimal_formatting() {
    let mut s = String::from("n=");
    push_decimal(&mut s, 0);
    assert_eq!(s, "n=0");
    let mut s = String::new();
    push_decimal(&mut s, 4294967295);
    assert_eq!(s, "4294967295");
    let mut s = String::new();
    push_decimal(&mut s, 1000);
    assert_eq!(s, "1000");
}

#[test]
fn format_full_record() {
    let r = record(Level::Info, Some(42), Some("main"));
    assert_eq!(format_record(&r), "INFO - ThreadId(1):main - client::app:42 -- Connected");
}

#[test]
fn format_record_without_line_or_name() {
    let r = record(Level::Warn, None, None);
    assert_eq!(format_record(&r), "WARN - ThreadId(1): - client::app:0 -- Connected");
}

#[test]
fn log_passes_enabled_record() {
    let w = LogWriter::new(Level::Info);
    let r = record(Level::Error, Some(7), Some("t"));
    assert_eq!(w.log(&r), Some("ERROR - ThreadId(1):t - client::app:7 -- Connected".to_string()));
}

#[test]
fn log_drops_verbose_record() {
    let w = LogWriter::new(Level::Info);
    let r = record(Level::Debug, Some(7), Some("t"));
    assert_eq!(w.log(&r), None);
}
