//! A growable byte buffer with explicit capacity bookkeeping, and a
//! concurrent pool that recycles buffers to avoid repeated allocation.

use vstd::prelude::*;
use vstd::string::StringSliceAdditionalSpecFns;

use std::sync::atomic::{AtomicUsize, Ordering};
use std::sync::Arc;

verus! {

/// The capacity after growing to hold `required` bytes: the largest of the
/// required size, twice the current capacity, and one. Doubling keeps
/// appends amortized constant-time; both terms saturate at `usize::MAX`.
pub open spec fn grown_capacity(current: nat, required: nat) -> nat {
    let doubled = if 2 * current > usize::MAX as nat {
        usize::MAX as nat
    } else {
        2 * current
    };
    let req = if required > usize::MAX as nat {
        usize::MAX as nat
    } else {
        required
    };
    if 1 >= doubled && 1 >= req {
        1
    } else if req >= doubled {
        req
    } else {
        doubled
    }
}

/// Growth always covers what was asked for: whenever a buffer holding
/// `len` bytes grows to take `k` more and `len + k` fits in a machine
/// word, the new capacity is at least `len + k` — and at least double the
/// old capacity, when doubling fits.
pub proof fn lemma_grown_capacity_covers(current: nat, required: nat)
    ensures
        required <= usize::MAX ==> grown_capacity(current, required) >= required,
        grown_capacity(current, required) >= 1,
        2 * current <= usize::MAX ==> grown_capacity(current, required) >= 2 * current,
{
}

/// An owned, growable byte container. Length and capacity are tracked
/// explicitly so the growth policy is part of the contract: pooling and
/// reuse depend on predictable capacity behaviour.
#[derive(Debug)]
pub struct ByteBuffer {
    data: Vec<u8>,
    cap: usize,
}

impl View for ByteBuffer {
    type V = Seq<u8>;

    closed spec fn view(&self) -> Seq<u8> {
        self.data@
    }
}

impl ByteBuffer {
    /// The buffer's bookkept capacity, in bytes.
    pub closed spec fn spec_capacity(&self) -> nat {
        self.cap as nat
    }

    /// A live buffer never holds more bytes than its capacity, and its
    /// capacity is never zero.
    pub open spec fn well_formed(&self) -> bool {
        self@.len() <= self.spec_capacity() && self.spec_capacity() >= 1
    }

    /// Make an empty buffer with the given capacity. A zero capacity is a
    /// programmer error and is excluded outright.
    pub fn new(capacity: usize) -> (r: ByteBuffer)
        requires
            capacity >= 1,
        ensures
            r.well_formed(),
            r@ == Seq::<u8>::empty(),
            r.spec_capacity() == capacity,
    {
        let mut data = Vec::new();
        data.reserve(capacity);
        ByteBuffer { data, cap: capacity }
    }

    /// Make a buffer holding a copy of `data`, with capacity equal to its
    /// length (or one, for empty input).
    pub fn from_bytes(data: &[u8]) -> (r: ByteBuffer)
        ensures
            r.well_formed(),
            r@ == data@,
            r.spec_capacity() == (if data@.len() >= 1 { data@.len() } else { 1nat }),
    {
        let mut buf = Vec::new();
        crate::encoding::push_bytes(&mut buf, data);
        let n = buf.len();
        let cap = if n >= 1 {
            n
        } else {
            1
        };
        ByteBuffer { data: buf, cap }
    }

    /// The buffer's capacity, in bytes.
    pub fn capacity(&self) -> (r: usize)
        ensures
            r == self.spec_capacity(),
    {
        self.cap
    }

    /// The number of bytes currently held.
    pub fn len(&self) -> (r: usize)
        ensures
            r == self@.len(),
    {
        self.data.len()
    }

    /// Whether the buffer holds no bytes.
    pub fn is_empty(&self) -> (r: bool)
        ensures
            r == (self@.len() == 0),
    {
        self.data.len() == 0
    }

    /// Grow the capacity so that `additional` more bytes fit. Growth only
    /// happens when the current capacity is too small, and then follows
    /// the doubling policy of [`grown_capacity`]; the contents are kept.
    pub fn reserve(&mut self, additional: usize)
        requires
            old(self).well_formed(),
        ensures
            final(self).well_formed(),
            final(self)@ == old(self)@,
            final(self).spec_capacity() == (if old(self)@.len() + additional
                > old(self).spec_capacity() {
                grown_capacity(old(self).spec_capacity(), (old(self)@.len() + additional) as nat)
            } else {
                old(self).spec_capacity()
            }),
            old(self)@.len() + additional <= usize::MAX ==> final(self)@.len() + additional
                <= final(self).spec_capacity(),
    {
        let len = self.data.len();
        let required = if additional > usize::MAX - len {
            usize::MAX
        } else {
            len + additional
        };
        if required > self.cap {
            let doubled = if self.cap > usize::MAX / 2 {
                usize::MAX
            } else {
                self.cap * 2
            };
            let mut new_cap = required;
            if doubled > new_cap {
                new_cap = doubled;
            }
            if new_cap < 1 {
                new_cap = 1;
            }
            let extra = new_cap - len;
            self.data.reserve(extra);
            self.cap = new_cap;
        }
    }

    /// Append `bytes`, growing the capacity by the doubling policy when
    /// the bytes do not fit. The new contents are exactly the old contents
    /// followed by `bytes`.
    pub fn write_bytes(&mut self, bytes: &[u8]) -> (r: Result<(), &'static str>)
        requires
            old(self).well_formed(),
            old(self)@.len() + bytes@.len() <= usize::MAX,
        ensures
            r is Ok,
            final(self).well_formed(),
            final(self)@ == old(self)@ + bytes@,
            final(self).spec_capacity() == (if old(self)@.len() + bytes@.len()
                > old(self).spec_capacity() {
                grown_capacity(old(self).spec_capacity(), (old(self)@.len() + bytes@.len()) as nat)
            } else {
                old(self).spec_capacity()
            }),
    {
        self.reserve(bytes.len());
        crate::encoding::push_bytes(&mut self.data, bytes);
        Ok(())
    }

    /// Append the UTF-8 bytes of `text`; see [`Self::write_bytes`].
    pub fn write_str(&mut self, text: &str) -> (r: Result<(), &'static str>)
        requires
            old(self).well_formed(),
            old(self)@.len() + text.spec_bytes().len() <= usize::MAX,
        ensures
            r is Ok,
            final(self).well_formed(),
            final(self)@ == old(self)@ + text.spec_bytes(),
            final(self).spec_capacity() == (if old(self)@.len() + text.spec_bytes().len()
                > old(self).spec_capacity() {
                grown_capacity(
                    old(self).spec_capacity(),
                    (old(self)@.len() + text.spec_bytes().len()) as nat,
                )
            } else {
                old(self).spec_capacity()
            }),
    {
        self.write_bytes(text.as_bytes())
    }

    /// Borrow the bytes currently held.
    pub fn as_bytes(&self) -> (r: &[u8])
        ensures
            r@ == self@,
    {
        self.data.as_slice()
    }

    /// Borrow the bytes currently held, mutably. The slice cannot change
    /// the length, so the capacity bookkeeping is undisturbed.
    pub fn as_mut_bytes(&mut self) -> (r: &mut [u8])
        requires
            old(self).well_formed(),
        ensures
            r@ == old(self)@,
            final(r)@ == final(self)@,
            final(self).spec_capacity() == old(self).spec_capacity(),
            final(self)@.len() == old(self)@.len() ==> final(self).well_formed(),
    {
        self.data.as_mut_slice()
    }

    /// Drop the contents but keep the capacity, so the buffer can be
    /// reused without reallocating.
    pub fn clear(&mut self)
        requires
            old(self).well_formed(),
        ensures
            final(self).well_formed(),
            final(self)@ == Seq::<u8>::empty(),
            final(self).spec_capacity() == old(self).spec_capacity(),
    {
        self.data.clear();
    }

    /// The contents decoded as text, with invalid UTF-8 replaced.
    pub fn to_string_lossy(&self) -> (r: String)
        ensures
            r@ == lossy_decoded(self@),
            vstd::utf8::valid_utf8(self@) ==> r@ == vstd::utf8::decode_utf8(self@),
    {
        utf8_lossy(self.data.as_slice())
    }

    /// Consume the buffer, yielding its bytes. The handle is moved out of,
    /// so it cannot be written again.
    pub fn into_bytes(self) -> (r: Vec<u8>)
        ensures
            r@ == self@,
    {
        self.data
    }
}

impl Clone for ByteBuffer {
    /// Deep-copy the contents into a new buffer of matching capacity.
    fn clone(&self) -> (r: Self)
        ensures
            r@ == self@,
            r.spec_capacity() == self.spec_capacity(),
            self.well_formed() ==> r.well_formed(),
    {
        let mut data = Vec::new();
        crate::encoding::push_bytes(&mut data, self.data.as_slice());
        ByteBuffer { data, cap: self.cap }
    }
}

/// What `String::from_utf8_lossy` yields on the given bytes: the decoded
/// text, with each invalid sequence replaced. The result depends on the
/// bytes alone.
pub uninterp spec fn lossy_decoded(bytes: Seq<u8>) -> Seq<char>;

/// Relies on `String::from_utf8_lossy`: decodes UTF-8, substituting the
/// replacement character for invalid sequences; valid UTF-8 input decodes
/// exactly.
#[verifier::external_body]
fn utf8_lossy(bytes: &[u8]) -> (r: String)
    ensures
        r@ == lossy_decoded(bytes@),
        vstd::utf8::valid_utf8(bytes@) ==> r@ == vstd::utf8::decode_utf8(bytes@),
{
    String::from_utf8_lossy(bytes).into_owned()
}

#[verifier::external_type_specification]
#[verifier::external_body]
#[verifier::reject_recursive_types(T)]
pub struct ExSegQueue<T>(crossbeam_queue::SegQueue<T>);

/// Relies on `SegQueue::new`: makes an empty unbounded concurrent queue.
#[verifier::external_body]
fn queue_new<T>() -> crossbeam_queue::SegQueue<T> {
    crossbeam_queue::SegQueue::new()
}

/// Relies on `SegQueue::push`: appends the value at the tail; the queue is
/// unbounded, so pushing always succeeds. The contents are shared between
/// threads, so nothing is promised about them here.
#[verifier::external_body]
fn queue_push<T>(queue: &crossbeam_queue::SegQueue<T>, value: T) {
    queue.push(value)
}

/// Relies on `SegQueue::pop`: removes and returns the value at the head,
/// or `None` when the queue was empty at the time of the call.
#[verifier::external_body]
fn queue_pop<T>(queue: &crossbeam_queue::SegQueue<T>) -> Option<T> {
    queue.pop()
}

/// Relies on `Arc::try_unwrap`: yields the inner value when this is the
/// only reference, and gives the `Arc` back otherwise.
#[verifier::external_body]
fn arc_try_unwrap<T>(a: Arc<T>) -> (r: Result<T, Arc<T>>)
    ensures
        match r {
            Ok(t) => t == a,
            Err(e) => e == a,
        },
{
    Arc::try_unwrap(a)
}

/// A concurrent pool of recycled byte buffers. `acquire` and `release`
/// never block and may be called from any thread; the size counter is
/// advisory and may transiently disagree with the true queue length.
pub struct BufferPool {
    buffers: crossbeam_queue::SegQueue<Arc<ByteBuffer>>,
    buffer_size: usize,
    max_pool_size: usize,
    current_size: AtomicUsize,
}

impl BufferPool {
    /// The capacity given to buffers the pool allocates, and the least
    /// capacity of any buffer it hands out.
    pub closed spec fn target_size(&self) -> nat {
        self.buffer_size as nat
    }

    /// The most buffers the advisory counter lets the pool retain.
    pub closed spec fn max_size(&self) -> nat {
        self.max_pool_size as nat
    }

    /// A pool's target buffer size is never zero.
    pub open spec fn well_formed(&self) -> bool {
        self.target_size() >= 1
    }

    /// Make a pool that allocates buffers of `buffer_size` bytes and
    /// retains at most `max_pool_size` of them. A zero buffer size is a
    /// programmer error and is excluded outright.
    pub fn new(buffer_size: usize, max_pool_size: usize) -> (r: BufferPool)
        requires
            buffer_size >= 1,
        ensures
            r.well_formed(),
            r.target_size() == buffer_size,
            r.max_size() == max_pool_size,
    {
        BufferPool {
            buffers: queue_new(),
            buffer_size,
            max_pool_size,
            current_size: AtomicUsize::new(0),
        }
    }

    /// Take a recycled buffer if one is queued, or allocate a fresh one of
    /// the target size. Never blocks, never fails; the buffer handed out
    /// is always live and holds at least the target capacity.
    pub fn acquire(&self) -> (r: Arc<ByteBuffer>)
        requires
            self.well_formed(),
        ensures
            r.well_formed(),
            r.spec_capacity() >= self.target_size(),
    {
        match queue_pop(&self.buffers) {
            Some(buffer) => {
                if buffer.capacity() >= self.buffer_size && buffer.len() <= buffer.capacity() {
                    buffer
                } else {
                    Arc::new(ByteBuffer::new(self.buffer_size))
                }
            },
            None => Arc::new(ByteBuffer::new(self.buffer_size)),
        }
    }

    /// Give a buffer back. When the advisory counter is below the maximum
    /// the buffer is cleared — only if this was the sole reference — and
    /// queued for reuse; otherwise it is simply dropped.
    pub fn release(&self, buffer: Arc<ByteBuffer>)
        requires
            buffer.well_formed(),
    {
        let current = self.current_size.load(Ordering::Relaxed);
        if current < self.max_pool_size {
            let recycled = match arc_try_unwrap(buffer) {
                Ok(mut owned) => {
                    owned.clear();
                    Arc::new(owned)
                },
                Err(shared) => shared,
            };
            queue_push(&self.buffers, recycled);
            self.current_size.fetch_add(1, Ordering::Relaxed);
        }
    }

    /// The advisory count of buffers currently retained.
    pub fn size(&self) -> usize {
        self.current_size.load(Ordering::Relaxed)
    }
}

} // verus!
