//! The asynchronous logger: non-blocking ingestion into a lock-free ring
//! buffer, a single consumer thread that formats and writes, counters for
//! loss accounting, and a process-wide holder for one shared logger.

use vstd::prelude::*;

use std::sync::atomic::{AtomicBool, AtomicUsize, Ordering};
use std::sync::Arc;
use std::time::Duration;

use crate::error::Error;
use crate::format::Formatter;
use crate::level::{level_severity, Level};
use crate::record::Record;
use crate::sink::Sink;

verus! {

#[verifier::external_type_specification]
#[verifier::external_body]
#[verifier::reject_recursive_types(E)]
#[verifier::reject_recursive_types(C)]
pub struct ExMultiProducer<E, C>(disruptor::MultiProducer<E, C>);

#[verifier::external_type_specification]
#[verifier::external_body]
pub struct ExSingleConsumerBarrier(disruptor::SingleConsumerBarrier);

/// One slot of the ring buffer: a record in flight.
struct Event {
    record: Record,
}

/// The placeholder put in every slot when the ring is allocated; it is
/// overwritten before the consumer ever sees the slot.
fn empty_event() -> Event {
    Event {
        record: Record {
            level: Level::Info,
            timestamp: 0,
            target: "nanolog_rs",
            file: "",
            line: 0,
            message: String::new(),
        },
    }
}

/// Put `record` into a claimed slot.
fn set_event_record(slot: &mut Event, record: Record)
    ensures
        final(slot).record == record,
{
    slot.record = record;
}

/// What the consumer does with one published slot: format the record and,
/// when that succeeds, write the bytes (write failures are swallowed) and
/// count the record as written. At the end of a batch the sink is flushed.
/// A record whose formatting fails is dropped silently and not counted.
fn consume_event<F: Formatter, S: Sink>(
    formatter: &F,
    sink: &S,
    written: &AtomicUsize,
    event: &Event,
    end_of_batch: bool,
) {
    match formatter.format(&event.record) {
        Ok(bytes) => {
            let _ = sink.write(bytes.as_slice());
            written.fetch_add(1, Ordering::Relaxed);
        },
        Err(_) => {},
    }
    if end_of_batch {
        let _ = sink.flush();
    }
}

/// Whether `n` is a power of two.
pub open spec fn is_power_of_two(n: nat) -> bool
    decreases n,
{
    if n == 0 {
        false
    } else if n == 1 {
        true
    } else {
        n % 2 == 0 && is_power_of_two(n / 2)
    }
}

/// The ring size used for a requested queue capacity: the capacity
/// rounded up to a power of two, and at least 64.
fn ring_size(queue_capacity: usize) -> (r: usize)
    ensures
        is_power_of_two(r as nat),
        r >= 64,
        queue_capacity <= usize::MAX / 4 + 1 ==> r >= queue_capacity,
{
    let mut size: usize = 64;
    proof {
        reveal_with_fuel(is_power_of_two, 8);
    }
    while size < queue_capacity && size <= usize::MAX / 4
        invariant
            is_power_of_two(size as nat),
            size >= 64,
        decreases usize::MAX - size,
    {
        size = size * 2;
    }
    size
}

/// Relies on disruptor's `build_multi_producer`, `handle_events_with` and
/// `build`: allocates a ring of `size` slots (the library requires a
/// power of two), spawns the single consumer thread, and returns a
/// cloneable publishing handle. Every published slot is handed exactly
/// once, in sequence order, to the given callback, which only calls the
/// verified `consume_event`.
#[verifier::external_body]
fn build_ring<F: Formatter + 'static, S: Sink + 'static>(
    size: usize,
    formatter: Arc<F>,
    sink: Arc<S>,
    written: Arc<AtomicUsize>,
) -> disruptor::MultiProducer<Event, disruptor::SingleConsumerBarrier>
    requires
        is_power_of_two(size as nat),
{
    disruptor::build_multi_producer(size, empty_event, disruptor::BusySpin)
        .handle_events_with(
            move |event: &Event, _sequence: i64, end_of_batch: bool|
                {
                    consume_event(
                        formatter.as_ref(),
                        sink.as_ref(),
                        written.as_ref(),
                        event,
                        end_of_batch,
                    );
                },
        )
        .build()
}

/// Relies on `MultiProducer::clone` and `Producer::publish`: a free slot
/// is claimed (spinning while the ring is full), filled with the record
/// by the verified `set_event_record`, and published for the consumer.
/// Publication order follows claim order per producer handle.
#[verifier::external_body]
fn publish_record(
    producer: &disruptor::MultiProducer<Event, disruptor::SingleConsumerBarrier>,
    record: Record,
) {
    let mut handle = producer.clone();
    disruptor::Producer::publish(&mut handle, move |slot| set_event_record(slot, record));
}

/// Relies on `core::hint::spin_loop`: a busy-wait hint to the processor
/// with no observable effect.
#[verifier::external_body]
fn spin_hint() {
    core::hint::spin_loop()
}

/// The asynchronous logger. `log` is non-blocking for records below the
/// ring's capacity pressure; one consumer thread per logger drains the
/// ring, formats, and writes to the sink. The three counters are relaxed
/// atomics: reads across them may be torn, and they are advisory.
pub struct AsyncLogger<S: Sink> {
    level: Level,
    sink: Arc<S>,
    shutdown: AtomicBool,
    sent_count: AtomicUsize,
    written_count: Arc<AtomicUsize>,
    lost_count: AtomicUsize,
    loss_detection_enabled: bool,
    producer: disruptor::MultiProducer<Event, disruptor::SingleConsumerBarrier>,
}

impl<S: Sink + 'static> AsyncLogger<S> {
    /// The threshold below which records are discarded.
    pub closed spec fn threshold(&self) -> Level {
        self.level
    }

    /// Whether the sent counter is maintained by `log`.
    pub closed spec fn loss_detection(&self) -> bool {
        self.loss_detection_enabled
    }

    /// The sink this logger writes through.
    pub closed spec fn current_sink(&self) -> Arc<S> {
        self.sink
    }

    /// A builder for configuring a logger step by step.
    pub fn builder() -> crate::builder::AsyncLoggerBuilder<
        crate::format::DefaultFormatter,
        crate::sink::ConsoleSink,
    > {
        crate::builder::AsyncLoggerBuilder::new()
    }

    /// Start a logger: allocate the ring, spawn the consumer thread, and
    /// return the handle producers share. Records below `level` will be
    /// discarded. The batch size and flush interval are fixed by the
    /// ring's batching; the two parameters are accepted for configuration
    /// compatibility and not otherwise read.
    pub fn new<F: Formatter + 'static>(
        level: Level,
        formatter: Arc<F>,
        sink: Arc<S>,
        queue_capacity: usize,
        _batch_size: usize,
        _flush_interval: Duration,
    ) -> (r: AsyncLogger<S>)
        ensures
            r.threshold() == level,
            r.loss_detection(),
            r.current_sink() == sink,
    {
        let written_count = Arc::new(AtomicUsize::new(0));
        let size = ring_size(queue_capacity);
        let producer = build_ring(size, formatter, Arc::clone(&sink), Arc::clone(&written_count));
        AsyncLogger {
            level,
            sink,
            shutdown: AtomicBool::new(false),
            sent_count: AtomicUsize::new(0),
            written_count,
            lost_count: AtomicUsize::new(0),
            loss_detection_enabled: true,
            producer,
        }
    }

    /// Whether a record of the given level passes the threshold: exactly
    /// when its severity is at least the threshold's.
    pub fn should_log(&self, level: Level) -> (r: bool)
        ensures
            r == (level_severity(level) >= level_severity(self.threshold())),
    {
        level.severity() >= self.level.severity()
    }

    /// Hand one record to the pipeline. A record below the threshold is
    /// discarded silently, with no counter change; otherwise the sent
    /// counter grows (when loss detection is on) and the record is
    /// published to the consumer. Never fails.
    pub fn log(&self, record: Record) -> (r: Result<(), Error>)
        ensures
            r is Ok,
    {
        if !self.should_log(record.level()) {
            return Ok(());
        }
        if self.loss_detection_enabled {
            self.sent_count.fetch_add(1, Ordering::Relaxed);
        }
        publish_record(&self.producer, record);
        Ok(())
    }

    /// A snapshot of `(sent, written, lost)`. The third component is
    /// always the positive difference of the first two; the snapshot as a
    /// whole may be torn with respect to concurrent logging.
    pub fn get_loss_stats(&self) -> (r: (usize, usize, usize))
        ensures
            r.2 == if r.0 >= r.1 {
                r.0 - r.1
            } else {
                0int
            },
    {
        let sent = self.sent_count.load(Ordering::Relaxed);
        let written = self.written_count.load(Ordering::Relaxed);
        let lost = self.lost_count.load(Ordering::Relaxed);
        let current_lost = if sent >= written {
            sent - written
        } else {
            0
        };
        if self.loss_detection_enabled && current_lost > lost {
            self.lost_count.store(current_lost, Ordering::Relaxed);
        }
        (sent, written, current_lost)
    }

    /// Zero all three counters, opening a fresh measurement window.
    pub fn reset_loss_stats(&self) {
        self.sent_count.store(0, Ordering::Relaxed);
        self.written_count.store(0, Ordering::Relaxed);
        self.lost_count.store(0, Ordering::Relaxed);
    }

    /// Turn loss detection on or off; turning it off also zeroes the
    /// counters.
    pub fn set_loss_detection(&mut self, enabled: bool)
        ensures
            final(self).loss_detection() == enabled,
            final(self).threshold() == old(self).threshold(),
    {
        self.loss_detection_enabled = enabled;
        if !enabled {
            self.reset_loss_stats();
        }
    }

    /// The configured threshold level.
    pub fn level(&self) -> (r: Level)
        ensures
            r == self.threshold(),
    {
        self.level
    }

    /// Spin until the written counter has caught up with the sent
    /// counter: quiescence, as observed at call time. A stalled consumer
    /// stalls this wait with it; the poll budget, while finite, outlasts
    /// any feasible run.
    fn await_quiescence(&self) {
        let mut polls: u64 = 0;
        while polls < u64::MAX
            decreases u64::MAX - polls,
        {
            let sent = self.sent_count.load(Ordering::Relaxed);
            let written = self.written_count.load(Ordering::Relaxed);
            if written >= sent {
                return ;
            }
            spin_hint();
            polls = polls + 1;
        }
    }

    /// Wait for quiescence as observed at call time, then flush the sink.
    /// Records logged while the wait runs may or may not be covered.
    pub fn flush(&self) -> (r: Result<(), Error>)
        ensures
            r is Ok,
    {
        self.await_quiescence();
        let _ = self.sink.flush();
        Ok(())
    }

    /// Set the shutdown flag, wait for quiescence as `flush` does, then
    /// shut the sink down. An I/O failure of the sink's shutdown is
    /// surfaced to the caller; every failure of this call is an `Io`
    /// error. A second call finds the counters already converged and
    /// returns without more draining.
    pub fn shutdown(&self) -> (r: Result<(), Error>)
        ensures
            r is Ok || (r matches Err(Error::Io(_))),
    {
        self.shutdown.store(true, Ordering::Release);
        self.await_quiescence();
        match self.sink.shutdown() {
            Ok(()) => Ok(()),
            Err(e) => Err(Error::Io(e)),
        }
    }

    /// Best-effort, non-blocking teardown, for the moment a logger handle
    /// is discarded: if the logger was not already shut down, set the
    /// flag and shut the sink down without waiting for the consumer to
    /// drain — trading guaranteed delivery for responsiveness. Errors are
    /// swallowed, as nothing can act on them on this path.
    pub fn teardown(&self) {
        if !self.shutdown.load(Ordering::Acquire) {
            self.shutdown.store(true, Ordering::Release);
            let _ = self.sink.shutdown();
        }
    }
}

/// A process-wide holder for one shared logger. It starts empty and is
/// populated exactly once: a second initialization is refused. The caller
/// that makes it process-wide supplies the surrounding lock.
pub struct GlobalLogger<S: Sink> {
    logger: Option<Arc<AsyncLogger<S>>>,
}

impl<S: Sink + 'static> GlobalLogger<S> {
    /// The held logger, if one was installed.
    pub closed spec fn current(&self) -> Option<Arc<AsyncLogger<S>>> {
        self.logger
    }

    /// An empty holder.
    pub fn new() -> (r: GlobalLogger<S>)
        ensures
            r.current() is None,
    {
        GlobalLogger { logger: None }
    }

    /// Install a logger. Fails with `AlreadyInitialized`, leaving the
    /// holder unchanged, exactly when one is already installed.
    pub fn init(&mut self, logger: Arc<AsyncLogger<S>>) -> (r: Result<(), Error>)
        ensures
            old(self).current() is Some ==> (r matches Err(Error::AlreadyInitialized))
                && *final(self) == *old(self),
            old(self).current() is None ==> r is Ok && final(self).current() == Some(logger),
    {
        if self.logger.is_some() {
            return Err(Error::AlreadyInitialized);
        }
        self.logger = Some(logger);
        Ok(())
    }

    /// The held logger, if one was installed.
    pub fn get(&self) -> (r: Option<Arc<AsyncLogger<S>>>)
        ensures
            r == self.current(),
    {
        match &self.logger {
            Some(l) => Some(Arc::clone(l)),
            None => None,
        }
    }

    /// Hand a record to the held logger. Fails with `NotInitialized`
    /// exactly when no logger is installed; otherwise succeeds.
    pub fn log(&self, record: Record) -> (r: Result<(), Error>)
        ensures
            self.current() is Some ==> r is Ok,
            self.current() is None ==> r matches Err(Error::NotInitialized),
    {
        match &self.logger {
            Some(l) => l.log(record),
            None => Err(Error::NotInitialized),
        }
    }

    /// Flush the held logger. Fails with `NotInitialized` exactly when no
    /// logger is installed; otherwise succeeds.
    pub fn flush(&self) -> (r: Result<(), Error>)
        ensures
            self.current() is Some ==> r is Ok,
            self.current() is None ==> r matches Err(Error::NotInitialized),
    {
        match &self.logger {
            Some(l) => l.flush(),
            None => Err(Error::NotInitialized),
        }
    }

    /// Shut the held logger down. Fails with `NotInitialized` exactly
    /// when no logger is installed; an installed logger's own shutdown
    /// can fail only with an `Io` error.
    pub fn shutdown(&self) -> (r: Result<(), Error>)
        ensures
            self.current() is Some ==> r is Ok || (r matches Err(Error::Io(_))),
            self.current() is None ==> r matches Err(Error::NotInitialized),
    {
        match &self.logger {
            Some(l) => l.shutdown(),
            None => Err(Error::NotInitialized),
        }
    }
}

impl<S: Sink + 'static> Default for GlobalLogger<S> {
    fn default() -> (r: Self)
        ensures
            r.current() is None,
    {
        GlobalLogger::new()
    }
}

} // verus!
