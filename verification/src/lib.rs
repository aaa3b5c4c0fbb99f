//! An in-process, asynchronous logging pipeline.
//!
//! Callers emit structured records without blocking on I/O; a background
//! consumer, driven by a lock-free ring buffer, formats each record and hands
//! the bytes to a pluggable sink. A reusable byte-buffer pool amortises
//! allocation cost on hot paths.

pub mod buffer;
pub mod builder;
pub mod encoding;
pub mod error;
pub mod format;
pub mod level;
pub mod logger;
pub mod record;
pub mod rotation;
pub mod sink;

pub use crate::buffer::{BufferPool, ByteBuffer};
pub use crate::builder::AsyncLoggerBuilder;
pub use crate::error::Error;
pub use crate::format::{DefaultFormatter, Formatter, JsonFormatter, SimpleFormatter, TimestampStyle};
pub use crate::level::Level;
pub use crate::logger::{AsyncLogger, GlobalLogger};
pub use crate::record::Record;
pub use crate::sink::{CompositeSink, ConsoleSink, MemorySink, NullSink, Sink};
