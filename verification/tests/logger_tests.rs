use nanolog_rs::{
    AsyncLogger, ConsoleSink, DefaultFormatter, Error, GlobalLogger, Level, MemorySink, NullSink,
    Record, SimpleFormatter, Sink,
};
use std::sync::Arc;
use std::time::Duration;

#[test]
fn test_api_compilation() {
    let formatter = Arc::new(DefaultFormatter::new());
    let sink = Arc::new(ConsoleSink::new());

    let logger = Arc::new(AsyncLogger::new(
        Level::Debug,
        formatter,
        sink,
        1000,
        10,
        Duration::from_millis(100),
    ));

    let record = Record::new(
        Level::Info,
        "test",
        "test.rs",
        1,
        "Test message".to_string(),
    );

    assert!(logger.log(record).is_ok());
    assert!(logger.flush().is_ok());
    assert!(logger.shutdown().is_ok());
}

#[test]
fn test_async_logger_basic() {
    let formatter = Arc::new(DefaultFormatter::new());
    let sink = Arc::new(ConsoleSink::new());

    let logger = AsyncLogger::new(
        Level::Debug,
        formatter,
        sink,
        1000,                       // queue capacity
        10,                         // batch size
        Duration::from_millis(100), // flush interval
    );

    let record = Record::new(
        Level::Info,
        "test",
        "test.rs",
        1,
        "Test message".to_string(),
    );

    assert!(logger.log(record).is_ok());
    assert!(logger.flush().is_ok());
    assert!(logger.shutdown().is_ok());
}

fn info_record(message: &str) -> Record {
    Record::new(Level::Info, "test::e2e", "e2e.rs", 1, message.to_string())
}

#[test]
fn test_logger_end_to_end_memory() {
    let sink = Arc::new(MemorySink::new());
    let logger = AsyncLogger::new(
        Level::Info,
        Arc::new(SimpleFormatter::new()),
        Arc::clone(&sink),
        256,
        16,
        Duration::from_millis(10),
    );

    // A record below the threshold never reaches the sink.
    let debug = Record::new(Level::Debug, "test::e2e", "e2e.rs", 1, "nope".to_string());
    logger.log(debug).unwrap();
    logger.flush().unwrap();
    assert_eq!(sink.get_content(), Vec::<u8>::new());

    // A record at the threshold is formatted exactly.
    logger.log(info_record("hello")).unwrap();
    logger.flush().unwrap();
    assert_eq!(sink.get_content(), b"[INFO] hello\n".to_vec());

    logger.shutdown().unwrap();
}

#[test]
fn test_logger_preserves_single_producer_order() {
    let sink = Arc::new(MemorySink::new());
    let logger = AsyncLogger::new(
        Level::Info,
        Arc::new(SimpleFormatter::new()),
        Arc::clone(&sink),
        256,
        16,
        Duration::from_millis(10),
    );

    let mut expected = Vec::new();
    for i in 0..5 {
        let message = format!("msg {}", i);
        expected.extend_from_slice(format!("[INFO] {}\n", message).as_bytes());
        logger.log(info_record(&message)).unwrap();
    }
    logger.flush().unwrap();
    assert_eq!(sink.get_content(), expected);
    logger.shutdown().unwrap();
}

#[test]
fn test_logger_counters() {
    let sink = Arc::new(MemorySink::new());
    let logger = AsyncLogger::new(
        Level::Info,
        Arc::new(SimpleFormatter::new()),
        Arc::clone(&sink),
        256,
        16,
        Duration::from_millis(10),
    );

    logger.log(info_record("a")).unwrap();
    logger.log(info_record("b")).unwrap();
    let below = Record::new(Level::Trace, "t", "t.rs", 1, "x".to_string());
    logger.log(below).unwrap();
    logger.log(info_record("c")).unwrap();
    logger.flush().unwrap();

    let (sent, written, lost) = logger.get_loss_stats();
    assert_eq!(sent, 3);
    assert_eq!(written, 3);
    assert_eq!(lost, 0);

    logger.reset_loss_stats();
    let (sent, written, lost) = logger.get_loss_stats();
    assert_eq!((sent, written, lost), (0, 0, 0));

    logger.shutdown().unwrap();
}

#[test]
fn test_logger_thousand_records() {
    let sink = Arc::new(MemorySink::new());
    let logger = AsyncLogger::new(
        Level::Info,
        Arc::new(SimpleFormatter::new()),
        Arc::clone(&sink),
        2048,
        64,
        Duration::from_millis(10),
    );

    let total: usize = 1000;
    let mut expected_len: usize = 0;
    for i in 0..total {
        let message = format!("msg {}", i);
        expected_len += format!("[INFO] {}\n", message).len();
        logger.log(info_record(&message)).unwrap();
    }
    logger.shutdown().unwrap();

    let (sent, written, lost) = logger.get_loss_stats();
    assert_eq!(sent, total);
    assert_eq!(written, total);
    assert_eq!(lost, 0);
    assert_eq!(sink.get_content().len(), expected_len);
}

#[test]
fn test_shutdown_twice_is_harmless() {
    let sink = Arc::new(MemorySink::new());
    let logger = AsyncLogger::new(
        Level::Info,
        Arc::new(SimpleFormatter::new()),
        Arc::clone(&sink),
        64,
        8,
        Duration::from_millis(10),
    );
    logger.log(info_record("once")).unwrap();
    assert!(logger.shutdown().is_ok());
    assert!(logger.shutdown().is_ok());
}

#[test]
fn test_should_log_and_level() {
    let logger = AsyncLogger::new(
        Level::Warn,
        Arc::new(SimpleFormatter::new()),
        Arc::new(NullSink::new()),
        64,
        8,
        Duration::from_millis(10),
    );
    assert_eq!(logger.level(), Level::Warn);
    assert!(!logger.should_log(Level::Trace));
    assert!(!logger.should_log(Level::Info));
    assert!(logger.should_log(Level::Warn));
    assert!(logger.should_log(Level::Error));
    logger.shutdown().unwrap();
}

#[test]
fn test_set_loss_detection_off_stops_counting() {
    let mut logger = AsyncLogger::new(
        Level::Info,
        Arc::new(SimpleFormatter::new()),
        Arc::new(NullSink::new()),
        64,
        8,
        Duration::from_millis(10),
    );
    logger.set_loss_detection(false);
    logger.log(info_record("uncounted")).unwrap();
    logger.flush().unwrap();
    let (sent, _, _) = logger.get_loss_stats();
    assert_eq!(sent, 0);
    logger.shutdown().unwrap();
}

#[test]
fn test_global_logger_holder() {
    let mut holder: GlobalLogger<NullSink> = GlobalLogger::new();

    let record = Record::new(Level::Info, "t", "t.rs", 1, "early".to_string());
    assert!(matches!(holder.log(record), Err(Error::NotInitialized)));
    assert!(matches!(holder.flush(), Err(Error::NotInitialized)));
    assert!(matches!(holder.shutdown(), Err(Error::NotInitialized)));
    assert!(holder.get().is_none());

    let logger = Arc::new(AsyncLogger::new(
        Level::Info,
        Arc::new(SimpleFormatter::new()),
        Arc::new(NullSink::new()),
        64,
        8,
        Duration::from_millis(10),
    ));
    assert!(holder.init(Arc::clone(&logger)).is_ok());
    assert!(holder.get().is_some());

    let second = Arc::new(AsyncLogger::new(
        Level::Info,
        Arc::new(SimpleFormatter::new()),
        Arc::new(NullSink::new()),
        64,
        8,
        Duration::from_millis(10),
    ));
    assert!(matches!(
        holder.init(second),
        Err(Error::AlreadyInitialized)
    ));

    let record = Record::new(Level::Info, "t", "t.rs", 1, "late".to_string());
    assert!(holder.log(record).is_ok());
    assert!(holder.flush().is_ok());
    assert!(holder.shutdown().is_ok());
}

#[test]
fn test_teardown_is_non_blocking_and_repeatable() {
    let sink = Arc::new(MemorySink::new());
    let logger = AsyncLogger::new(
        Level::Info,
        Arc::new(SimpleFormatter::new()),
        Arc::clone(&sink),
        64,
        8,
        Duration::from_millis(10),
    );
    logger.log(info_record("going down")).unwrap();
    logger.teardown();
    logger.teardown();
    assert!(logger.shutdown().is_ok());
}

struct FailingShutdownSink;

impl Sink for FailingShutdownSink {
    fn write(&self, _data: &[u8]) -> Result<(), std::io::Error> {
        Ok(())
    }
    fn write_batch(&self, _data: &[Vec<u8>]) -> Result<(), std::io::Error> {
        Ok(())
    }
    fn flush(&self) -> Result<(), std::io::Error> {
        Ok(())
    }
    fn shutdown(&self) -> Result<(), std::io::Error> {
        Err(std::io::Error::new(std::io::ErrorKind::Other, "closed"))
    }
}

#[test]
fn test_shutdown_surfaces_sink_io_error() {
    let logger = AsyncLogger::new(
        Level::Info,
        Arc::new(SimpleFormatter::new()),
        Arc::new(FailingShutdownSink),
        64,
        8,
        Duration::from_millis(10),
    );
    assert!(matches!(logger.shutdown(), Err(Error::Io(_))));
}
