use nanolog_rs::{
    DefaultFormatter, Formatter, JsonFormatter, Level, Record, SimpleFormatter, TimestampStyle,
};

fn sample(level: Level, timestamp: u128, message: &str) -> Record {
    Record {
        level,
        timestamp,
        target: "core",
        file: "main.rs",
        line: 7,
        message: message.to_string(),
    }
}

#[test]
fn test_simple_formatter_exact_output() {
    let formatter = SimpleFormatter::new();
    let record = sample(Level::Info, 1, "hello");
    let bytes = formatter.format(&record).unwrap();
    assert_eq!(bytes, b"[INFO] hello\n".to_vec());

    let record = sample(Level::Error, 1, "boom");
    let bytes = formatter.format(&record).unwrap();
    assert_eq!(bytes, b"[ERROR] boom\n".to_vec());
}

#[test]
fn test_default_formatter_plain_exact_output() {
    let formatter = DefaultFormatter::plain();
    let record = sample(Level::Info, 123456789, "hello");
    let bytes = formatter.format(&record).unwrap();
    assert_eq!(
        String::from_utf8(bytes).unwrap(),
        "[123456789] [INFO ] [core:7] hello\n"
    );
}

#[test]
fn test_default_formatter_colored_output() {
    let formatter = DefaultFormatter::colored();
    let record = sample(Level::Warn, 5, "careful");
    let bytes = formatter.format(&record).unwrap();
    assert_eq!(
        String::from_utf8(bytes).unwrap(),
        "[5] \u{1b}[33m[WARN ]\u{1b}[0m [core:7] careful\n"
    );
}

#[test]
fn test_default_formatter_iso8601_utc() {
    let formatter =
        DefaultFormatter::with_timestamp_style(TimestampStyle::Iso8601(None));
    let record = sample(Level::Error, 2_000_000_003, "late");
    let bytes = formatter.format(&record).unwrap();
    assert_eq!(
        String::from_utf8(bytes).unwrap(),
        "[1970-01-01T00:00:02.000000003Z] \u{1b}[31m[ERROR]\u{1b}[0m [core:7] late\n"
    );
}

#[test]
fn test_default_formatter_iso8601_shanghai() {
    let formatter = DefaultFormatter::with_iso8601_shanghai();
    let record = sample(Level::Info, 0, "dawn");
    let bytes = formatter.format(&record).unwrap();
    assert_eq!(
        String::from_utf8(bytes).unwrap(),
        "[1970-01-01T08:00:00.000000000+08:00] \u{1b}[32m[INFO ]\u{1b}[0m [core:7] dawn\n"
    );
}

#[test]
fn test_default_formatter_iso8601_invalid_offset_falls_back_to_utc() {
    let formatter =
        DefaultFormatter::with_timestamp_style(TimestampStyle::Iso8601(Some(100_000)));
    let record = sample(Level::Info, 0, "utc");
    let bytes = formatter.format(&record).unwrap();
    let text = String::from_utf8(bytes).unwrap();
    assert!(text.starts_with("[1970-01-01T00:00:00.000000000Z]"));
}

#[test]
fn test_json_formatter_compact_escapes_quotes() {
    let formatter = JsonFormatter::new();
    let record = sample(Level::Warn, 5, "say \"hi\"");
    let bytes = formatter.format(&record).unwrap();
    assert_eq!(
        String::from_utf8(bytes).unwrap(),
        "{\"timestamp\":5,\"level\":\"WARN\",\"target\":\"core\",\"file\":\"main.rs\",\"line\":7,\"message\":\"say \\\"hi\\\"\"}\n"
    );
}

#[test]
fn test_json_formatter_pretty_output() {
    let formatter = JsonFormatter::pretty();
    let record = sample(Level::Debug, 42, "pretty");
    let bytes = formatter.format(&record).unwrap();
    assert_eq!(
        String::from_utf8(bytes).unwrap(),
        "{\n  \"timestamp\": 42,\n  \"level\": \"DEBUG\",\n  \"target\": \"core\",\n  \"file\": \"main.rs\",\n  \"line\": 7,\n  \"message\": \"pretty\"\n}\n"
    );
}
