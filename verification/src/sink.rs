//! Output destinations for formatted log bytes.

use vstd::prelude::*;
use vstd::rwlock::RwLock;

use std::sync::Arc;

verus! {

/// An output destination for formatted log bytes. Implementations must be
/// callable from the consumer thread while other threads hold handles to
/// the same sink.
pub trait Sink: Send + Sync {
    /// Write one formatted record.
    fn write(&self, data: &[u8]) -> Result<(), std::io::Error>;

    /// Write a batch of formatted records, one after the other, stopping
    /// at the first failure.
    fn write_batch(&self, data: &[Vec<u8>]) -> Result<(), std::io::Error>;

    /// Push any buffered bytes to the destination.
    fn flush(&self) -> Result<(), std::io::Error>;

    /// Release the destination's resources; safe to call more than once.
    fn shutdown(&self) -> Result<(), std::io::Error>;
}

/// Relies on `std::io::Stdout::write_all`: writes the whole slice to
/// standard output or reports the first I/O error.
#[verifier::external_body]
fn stdout_write_all(data: &[u8]) -> Result<(), std::io::Error> {
    std::io::Write::write_all(&mut std::io::stdout(), data)
}

/// Relies on `std::io::Stderr::write_all`: writes the whole slice to
/// standard error or reports the first I/O error.
#[verifier::external_body]
fn stderr_write_all(data: &[u8]) -> Result<(), std::io::Error> {
    std::io::Write::write_all(&mut std::io::stderr(), data)
}

/// Relies on `std::io::Stdout::flush`: pushes buffered bytes to standard
/// output.
#[verifier::external_body]
fn stdout_flush() -> Result<(), std::io::Error> {
    std::io::Write::flush(&mut std::io::stdout())
}

/// Relies on `std::io::Stderr::flush`: pushes buffered bytes to standard
/// error.
#[verifier::external_body]
fn stderr_flush() -> Result<(), std::io::Error> {
    std::io::Write::flush(&mut std::io::stderr())
}

/// Writes to standard output, or optionally to standard error.
pub struct ConsoleSink {
    stderr: bool,
}

impl ConsoleSink {
    /// Whether this sink writes to standard error instead of standard out.
    pub closed spec fn uses_stderr(&self) -> bool {
        self.stderr
    }

    /// A sink that writes to standard output.
    pub fn new() -> (r: ConsoleSink)
        ensures
            !r.uses_stderr(),
    {
        ConsoleSink { stderr: false }
    }

    /// A sink that writes to standard error.
    pub fn stderr() -> (r: ConsoleSink)
        ensures
            r.uses_stderr(),
    {
        ConsoleSink { stderr: true }
    }
}

impl Default for ConsoleSink {
    /// The default console sink writes to standard output.
    fn default() -> (r: Self)
        ensures
            !r.uses_stderr(),
    {
        ConsoleSink::new()
    }
}

impl Sink for ConsoleSink {
    fn write(&self, data: &[u8]) -> Result<(), std::io::Error> {
        if self.stderr {
            stderr_write_all(data)
        } else {
            stdout_write_all(data)
        }
    }

    fn write_batch(&self, data: &[Vec<u8>]) -> Result<(), std::io::Error> {
        let mut i: usize = 0;
        while i < data.len()
            decreases data@.len() - i,
        {
            let r = if self.stderr {
                stderr_write_all(data[i].as_slice())
            } else {
                stdout_write_all(data[i].as_slice())
            };
            if let Err(e) = r {
                return Err(e);
            }
            i = i + 1;
        }
        Ok(())
    }

    fn flush(&self) -> Result<(), std::io::Error> {
        if self.stderr {
            stderr_flush()
        } else {
            stdout_flush()
        }
    }

    fn shutdown(&self) -> (r: Result<(), std::io::Error>)
        ensures
            r is Ok,
    {
        Ok(())
    }
}

/// Captures everything written, in memory; made for tests and debugging.
pub struct MemorySink {
    buffer: RwLock<Vec<u8>, spec_fn(Vec<u8>) -> bool>,
}

impl MemorySink {
    #[verifier::type_invariant]
    spec fn wf(&self) -> bool {
        forall|v: Vec<u8>| self.buffer.inv(v)
    }

    /// An empty in-memory sink.
    pub fn new() -> MemorySink {
        MemorySink { buffer: RwLock::new(Vec::new(), Ghost(|v: Vec<u8>| true)) }
    }

    /// A copy of everything written so far.
    pub fn get_content(&self) -> Vec<u8> {
        let handle = self.buffer.acquire_read();
        let content = vstd::slice::slice_to_vec(handle.borrow().as_slice());
        handle.release_read();
        content
    }

    /// Drop everything written so far.
    pub fn clear(&self) {
        proof {
            use_type_invariant(self);
        }
        let (_, handle) = self.buffer.acquire_write();
        handle.release_write(Vec::new());
    }
}

impl Default for MemorySink {
    fn default() -> Self {
        MemorySink::new()
    }
}

impl Sink for MemorySink {
    fn write(&self, data: &[u8]) -> (r: Result<(), std::io::Error>)
        ensures
            r is Ok,
    {
        proof {
            use_type_invariant(self);
        }
        let (mut content, handle) = self.buffer.acquire_write();
        crate::encoding::push_bytes(&mut content, data);
        handle.release_write(content);
        Ok(())
    }

    fn write_batch(&self, data: &[Vec<u8>]) -> (r: Result<(), std::io::Error>)
        ensures
            r is Ok,
    {
        proof {
            use_type_invariant(self);
        }
        let (mut content, handle) = self.buffer.acquire_write();
        let mut i: usize = 0;
        while i < data.len()
            decreases data@.len() - i,
        {
            crate::encoding::push_bytes(&mut content, data[i].as_slice());
            i = i + 1;
        }
        handle.release_write(content);
        Ok(())
    }

    fn flush(&self) -> (r: Result<(), std::io::Error>)
        ensures
            r is Ok,
    {
        Ok(())
    }

    fn shutdown(&self) -> (r: Result<(), std::io::Error>)
        ensures
            r is Ok,
    {
        Ok(())
    }
}

/// Discards everything; made for benchmarks.
#[derive(Default)]
pub struct NullSink;

impl NullSink {
    /// A sink that discards everything.
    pub fn new() -> NullSink {
        NullSink
    }
}

impl Sink for NullSink {
    fn write(&self, _data: &[u8]) -> (r: Result<(), std::io::Error>)
        ensures
            r is Ok,
    {
        Ok(())
    }

    fn write_batch(&self, _data: &[Vec<u8>]) -> (r: Result<(), std::io::Error>)
        ensures
            r is Ok,
    {
        Ok(())
    }

    fn flush(&self) -> (r: Result<(), std::io::Error>)
        ensures
            r is Ok,
    {
        Ok(())
    }

    fn shutdown(&self) -> (r: Result<(), std::io::Error>)
        ensures
            r is Ok,
    {
        Ok(())
    }
}

/// Fans each operation out to an ordered list of sinks, stopping at the
/// first failure and propagating it.
pub struct CompositeSink<S: Sink> {
    sinks: Vec<Arc<S>>,
}

impl<S: Sink> CompositeSink<S> {
    /// The sinks the composite fans out to, in the order they were added.
    pub closed spec fn held(&self) -> Seq<Arc<S>> {
        self.sinks@
    }

    /// The number of sinks the composite fans out to.
    pub open spec fn count(&self) -> nat {
        self.held().len()
    }

    /// An empty composite; every operation on it trivially succeeds.
    pub fn new() -> (r: CompositeSink<S>)
        ensures
            r.held() == Seq::<Arc<S>>::empty(),
    {
        CompositeSink { sinks: Vec::new() }
    }

    /// Add a sink after the ones already present.
    pub fn add_sink(&mut self, sink: Arc<S>)
        ensures
            final(self).held() == old(self).held().push(sink),
    {
        self.sinks.push(sink);
    }
}

impl<S: Sink> Sink for CompositeSink<S> {
    fn write(&self, data: &[u8]) -> (r: Result<(), std::io::Error>)
        ensures
            self.count() == 0 ==> r is Ok,
    {
        let mut i: usize = 0;
        while i < self.sinks.len()
            decreases self.sinks@.len() - i,
        {
            if let Err(e) = self.sinks[i].write(data) {
                return Err(e);
            }
            i = i + 1;
        }
        Ok(())
    }

    fn write_batch(&self, data: &[Vec<u8>]) -> (r: Result<(), std::io::Error>)
        ensures
            self.count() == 0 ==> r is Ok,
    {
        let mut i: usize = 0;
        while i < self.sinks.len()
            decreases self.sinks@.len() - i,
        {
            if let Err(e) = self.sinks[i].write_batch(data) {
                return Err(e);
            }
            i = i + 1;
        }
        Ok(())
    }

    fn flush(&self) -> (r: Result<(), std::io::Error>)
        ensures
            self.count() == 0 ==> r is Ok,
    {
        let mut i: usize = 0;
        while i < self.sinks.len()
            decreases self.sinks@.len() - i,
        {
            if let Err(e) = self.sinks[i].flush() {
                return Err(e);
            }
            i = i + 1;
        }
        Ok(())
    }

    fn shutdown(&self) -> (r: Result<(), std::io::Error>)
        ensures
            self.count() == 0 ==> r is Ok,
    {
        let mut i: usize = 0;
        while i < self.sinks.len()
            decreases self.sinks@.len() - i,
        {
            if let Err(e) = self.sinks[i].shutdown() {
                return Err(e);
            }
            i = i + 1;
        }
        Ok(())
    }
}

} // verus!
