use nanolog_rs::{Level, Record};

#[test]
fn test_record_creation() {
    let record = Record::new(
        Level::Info,
        "test_module",
        "test_file.rs",
        42,
        "Test message".to_string(),
    );

    assert_eq!(record.level(), Level::Info);
    assert_eq!(record.target(), "test_module");
    assert_eq!(record.file(), "test_file.rs");
    assert_eq!(record.line(), 42);
    assert_eq!(record.message(), "Test message");
    assert!(record.timestamp() > 0);
}

#[test]
fn test_record_into_message() {
    let record = Record::new(
        Level::Error,
        "test",
        "test.rs",
        10,
        "Error message".to_string(),
    );

    let message = record.into_message();
    assert_eq!(message, "Error message");
}

#[test]
fn test_level_names_and_order() {
    assert_eq!(Level::Trace.as_str(), "TRACE");
    assert_eq!(Level::Debug.as_str(), "DEBUG");
    assert_eq!(Level::Info.as_str(), "INFO");
    assert_eq!(Level::Warn.as_str(), "WARN");
    assert_eq!(Level::Error.as_str(), "ERROR");

    assert!(Level::Trace.severity() < Level::Debug.severity());
    assert!(Level::Debug.severity() < Level::Info.severity());
    assert!(Level::Info.severity() < Level::Warn.severity());
    assert!(Level::Warn.severity() < Level::Error.severity());

    assert_eq!(Level::default(), Level::Info);
}

#[test]
fn test_level_parse_ignores_ascii_case() {
    assert_eq!(Level::parse("info"), Some(Level::Info));
    assert_eq!(Level::parse("TRACE"), Some(Level::Trace));
    assert_eq!(Level::parse("Warn"), Some(Level::Warn));
    assert_eq!(Level::parse("dEbUg"), Some(Level::Debug));
    assert_eq!(Level::parse("error"), Some(Level::Error));
    assert_eq!(Level::parse("bogus"), None);
    assert_eq!(Level::parse(""), None);

    assert_eq!("info".parse::<Level>(), Ok(Level::Info));
    assert_eq!("nope".parse::<Level>(), Err(()));
}
