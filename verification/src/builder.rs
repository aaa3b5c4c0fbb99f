//! A fluent builder for configuring and starting a logger.

use vstd::prelude::*;

use std::sync::Arc;
use std::time::Duration;

use crate::error::Error;
use crate::format::{DefaultFormatter, Formatter, JsonFormatter, SimpleFormatter, TimestampStyle};
use crate::level::Level;
use crate::logger::AsyncLogger;
use crate::sink::{ConsoleSink, Sink};

verus! {

/// Collects a logger's configuration step by step; `build` starts the
/// logger. Swapping the formatter or sink for one of another type changes
/// the builder's type accordingly.
pub struct AsyncLoggerBuilder<F: Formatter, S: Sink> {
    /// The threshold below which records will be discarded.
    pub level: Level,
    /// The formatter to install, or `None` for the default one.
    pub formatter: Option<Arc<F>>,
    /// The sink to install, or `None` for the default console sink.
    pub sink: Option<Arc<S>>,
    /// The requested ring capacity; rounded up to a power of two.
    pub queue_capacity: usize,
    /// Accepted for configuration compatibility; batching follows the
    /// ring's own rhythm.
    pub batch_size: usize,
    /// Accepted for configuration compatibility, like `batch_size`.
    pub flush_interval: Duration,
}

impl AsyncLoggerBuilder<DefaultFormatter, ConsoleSink> {
    /// A builder with the default configuration: `Info` threshold, the
    /// default formatter, console output, and a ring for 1000 records.
    pub fn new() -> (r: AsyncLoggerBuilder<DefaultFormatter, ConsoleSink>)
        ensures
            r.level == Level::Info,
            r.formatter is None,
            r.sink is None,
            r.queue_capacity == 1000,
            r.batch_size == 100,
            r.flush_interval == millis_duration(100),
    {
        AsyncLoggerBuilder {
            level: Level::Info,
            formatter: None,
            sink: None,
            queue_capacity: 1000,
            batch_size: 100,
            flush_interval: duration_millis(100),
        }
    }
}

impl Default for AsyncLoggerBuilder<DefaultFormatter, ConsoleSink> {
    fn default() -> (r: Self)
        ensures
            r.level == Level::Info,
            r.formatter is None,
            r.sink is None,
            r.queue_capacity == 1000,
            r.batch_size == 100,
            r.flush_interval == millis_duration(100),
    {
        AsyncLoggerBuilder::new()
    }
}

/// What `Duration::from_millis` builds for a given count: the duration of
/// that many milliseconds. The value depends on the count alone.
pub uninterp spec fn millis_duration(ms: u64) -> Duration;

/// Relies on `core::time::Duration::from_millis`: builds the duration of
/// that many milliseconds.
#[verifier::external_body]
fn duration_millis(ms: u64) -> (r: Duration)
    ensures
        r == millis_duration(ms),
{
    Duration::from_millis(ms)
}

impl<F: Formatter + 'static, S: Sink + 'static> AsyncLoggerBuilder<F, S> {
    /// Set the threshold level.
    pub fn level(self, level: Level) -> (r: Self)
        ensures
            r.level == level,
            r.formatter == self.formatter,
            r.sink == self.sink,
            r.queue_capacity == self.queue_capacity,
            r.batch_size == self.batch_size,
            r.flush_interval == self.flush_interval,
    {
        AsyncLoggerBuilder { level, ..self }
    }

    /// Install a formatter, replacing any chosen before.
    pub fn formatter<F2: Formatter + 'static>(self, formatter: Arc<F2>) -> (r: AsyncLoggerBuilder<
        F2,
        S,
    >)
        ensures
            r.level == self.level,
            r.formatter == Some(formatter),
            r.sink == self.sink,
            r.queue_capacity == self.queue_capacity,
            r.batch_size == self.batch_size,
            r.flush_interval == self.flush_interval,
    {
        AsyncLoggerBuilder {
            level: self.level,
            formatter: Some(formatter),
            sink: self.sink,
            queue_capacity: self.queue_capacity,
            batch_size: self.batch_size,
            flush_interval: self.flush_interval,
        }
    }

    /// Install a sink, replacing any chosen before.
    pub fn sink<S2: Sink + 'static>(self, sink: Arc<S2>) -> (r: AsyncLoggerBuilder<F, S2>)
        ensures
            r.level == self.level,
            r.formatter == self.formatter,
            r.sink == Some(sink),
            r.queue_capacity == self.queue_capacity,
            r.batch_size == self.batch_size,
            r.flush_interval == self.flush_interval,
    {
        AsyncLoggerBuilder {
            level: self.level,
            formatter: self.formatter,
            sink: Some(sink),
            queue_capacity: self.queue_capacity,
            batch_size: self.batch_size,
            flush_interval: self.flush_interval,
        }
    }

    /// Set the requested ring capacity.
    pub fn queue_capacity(self, capacity: usize) -> (r: Self)
        ensures
            r.queue_capacity == capacity,
            r.level == self.level,
            r.formatter == self.formatter,
            r.sink == self.sink,
            r.batch_size == self.batch_size,
            r.flush_interval == self.flush_interval,
    {
        AsyncLoggerBuilder { queue_capacity: capacity, ..self }
    }

    /// Set the batch size.
    pub fn batch_size(self, size: usize) -> (r: Self)
        ensures
            r.batch_size == size,
            r.level == self.level,
            r.formatter == self.formatter,
            r.sink == self.sink,
            r.queue_capacity == self.queue_capacity,
            r.flush_interval == self.flush_interval,
    {
        AsyncLoggerBuilder { batch_size: size, ..self }
    }

    /// Set the flush interval.
    pub fn flush_interval(self, interval: Duration) -> (r: Self)
        ensures
            r.flush_interval == interval,
            r.level == self.level,
            r.formatter == self.formatter,
            r.sink == self.sink,
            r.queue_capacity == self.queue_capacity,
            r.batch_size == self.batch_size,
    {
        AsyncLoggerBuilder { flush_interval: interval, ..self }
    }

    /// Lower the threshold to `Debug`.
    pub fn with_debug_level(self) -> (r: Self)
        ensures
            r.level == Level::Debug,
            r.formatter == self.formatter,
            r.sink == self.sink,
            r.queue_capacity == self.queue_capacity,
            r.batch_size == self.batch_size,
            r.flush_interval == self.flush_interval,
    {
        self.level(Level::Debug)
    }

    /// Lower the threshold to `Trace`.
    pub fn with_trace_level(self) -> (r: Self)
        ensures
            r.level == Level::Trace,
            r.formatter == self.formatter,
            r.sink == self.sink,
            r.queue_capacity == self.queue_capacity,
            r.batch_size == self.batch_size,
            r.flush_interval == self.flush_interval,
    {
        self.level(Level::Trace)
    }

    /// Use the compact JSON formatter.
    pub fn with_json_formatting(self) -> (r: AsyncLoggerBuilder<JsonFormatter, S>)
        ensures
            r.level == self.level,
            r.formatter is Some,
            r.sink == self.sink,
            r.queue_capacity == self.queue_capacity,
            r.batch_size == self.batch_size,
            r.flush_interval == self.flush_interval,
    {
        self.formatter(Arc::new(JsonFormatter::new()))
    }

    /// Use the simple level-and-message formatter.
    pub fn with_simple_formatting(self) -> (r: AsyncLoggerBuilder<SimpleFormatter, S>)
        ensures
            r.level == self.level,
            r.formatter is Some,
            r.sink == self.sink,
            r.queue_capacity == self.queue_capacity,
            r.batch_size == self.batch_size,
            r.flush_interval == self.flush_interval,
    {
        self.formatter(Arc::new(SimpleFormatter::new()))
    }

    /// Use the default formatter with ISO 8601 timestamps in UTC+8.
    pub fn with_iso8601_shanghai_formatting(self) -> (r: AsyncLoggerBuilder<DefaultFormatter, S>)
        ensures
            r.level == self.level,
            r.formatter is Some,
            r.sink == self.sink,
            r.queue_capacity == self.queue_capacity,
            r.batch_size == self.batch_size,
            r.flush_interval == self.flush_interval,
    {
        self.formatter(Arc::new(DefaultFormatter::with_iso8601_shanghai()))
    }

    /// Use the default formatter with the given timestamp style.
    pub fn with_default_timestamp_style(self, style: TimestampStyle) -> (r: AsyncLoggerBuilder<
        DefaultFormatter,
        S,
    >)
        ensures
            r.level == self.level,
            r.formatter is Some,
            r.sink == self.sink,
            r.queue_capacity == self.queue_capacity,
            r.batch_size == self.batch_size,
            r.flush_interval == self.flush_interval,
    {
        self.formatter(Arc::new(DefaultFormatter::with_timestamp_style(style)))
    }

    /// Write to standard output.
    pub fn with_console_output(self) -> (r: AsyncLoggerBuilder<F, ConsoleSink>)
        ensures
            r.level == self.level,
            r.formatter == self.formatter,
            r.sink is Some,
            r.queue_capacity == self.queue_capacity,
            r.batch_size == self.batch_size,
            r.flush_interval == self.flush_interval,
    {
        self.sink(Arc::new(ConsoleSink::new()))
    }

    /// Start the logger with the collected configuration. Missing pieces
    /// fall back to their defaults.
    pub fn build(self) -> (r: Result<AsyncLogger<S>, Error>)
        where
            F: Default,
            S: Default,
        ensures
            r matches Ok(logger) && logger.threshold() == self.level,
            r matches Ok(logger) && (self.sink matches Some(s) ==> logger.current_sink() == s),
    {
        let formatter = match self.formatter {
            Some(f) => f,
            None => Arc::new(F::default()),
        };
        let sink = match self.sink {
            Some(s) => s,
            None => Arc::new(S::default()),
        };
        Ok(
            AsyncLogger::new(
                self.level,
                formatter,
                sink,
                self.queue_capacity,
                self.batch_size,
                self.flush_interval,
            ),
        )
    }
}

} // verus!
