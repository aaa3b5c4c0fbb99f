use nanolog_rs::{AsyncLogger, AsyncLoggerBuilder, ConsoleSink, Level, Record};
use std::time::Duration;

#[test]
fn test_builder_creation() {
    let builder = AsyncLoggerBuilder::new();
    assert_eq!(builder.level, Level::Info);
}

#[test]
fn test_builder_with_level() {
    let builder = AsyncLoggerBuilder::new().level(Level::Debug);
    assert_eq!(builder.level, Level::Debug);
}

#[test]
fn test_builder_with_convenience_methods() {
    let builder = AsyncLoggerBuilder::new()
        .with_debug_level()
        .with_console_output()
        .with_simple_formatting();

    assert_eq!(builder.level, Level::Debug);
    assert!(builder.formatter.is_some());
    assert!(builder.sink.is_some());
}

#[test]
fn test_builder_build() {
    let result = AsyncLoggerBuilder::new().level(Level::Info).build();

    assert!(result.is_ok());
}

#[test]
fn test_builder_all_convenience_methods() {
    let builder = AsyncLoggerBuilder::new()
        .with_debug_level()
        .with_trace_level() // This should override debug level
        .with_json_formatting()
        .with_simple_formatting() // This should override json formatting
        .with_console_output();

    assert_eq!(builder.level, Level::Trace);
    assert!(builder.formatter.is_some());
    assert!(builder.sink.is_some());
}

#[test]
fn test_builder_configuration_methods() {
    let builder = AsyncLoggerBuilder::new()
        .queue_capacity(2000)
        .batch_size(50)
        .flush_interval(Duration::from_millis(200));

    // We can't directly access the fields, but we can verify the builder was configured
    assert_eq!(builder.queue_capacity, 2000);
    assert_eq!(builder.batch_size, 50);
    assert_eq!(builder.flush_interval, Duration::from_millis(200));
}

#[test]
fn test_builder_with_all_configurations() {
    let result = AsyncLoggerBuilder::new()
        .level(Level::Trace)
        .with_json_formatting()
        .with_console_output()
        .queue_capacity(2000)
        .batch_size(50)
        .flush_interval(Duration::from_millis(200))
        .build();

    assert!(result.is_ok());
}

#[test]
fn test_builder_convenience_methods() {
    let logger = AsyncLoggerBuilder::new()
        .with_debug_level()
        .with_json_formatting()
        .with_console_output()
        .build()
        .expect("Failed to create logger with convenience methods");

    logger
        .log(Record::new(
            Level::Debug,
            "test::convenience",
            "builder_tests.rs",
            1,
            "Convenience methods test".to_string(),
        ))
        .expect("Failed to log message");

    logger.shutdown().expect("Failed to shutdown logger");
}

#[test]
fn test_builder_default_flush_interval() {
    let builder = AsyncLoggerBuilder::new();
    assert_eq!(builder.flush_interval, Duration::from_millis(100));
    assert_eq!(builder.queue_capacity, 1000);
    assert_eq!(builder.batch_size, 100);
}

#[test]
fn test_logger_builder_entry_point() {
    let builder = AsyncLogger::<ConsoleSink>::builder();
    assert_eq!(builder.level, Level::Info);
}
