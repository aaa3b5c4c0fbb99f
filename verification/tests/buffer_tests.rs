use nanolog_rs::{BufferPool, ByteBuffer};
use std::sync::Arc;

#[test]
fn test_byte_buffer_basic() {
    let mut buffer = ByteBuffer::new(100);
    assert_eq!(buffer.capacity(), 100);
    assert_eq!(buffer.len(), 0);
    assert!(buffer.is_empty());

    buffer.write_str("Hello").unwrap();
    assert_eq!(buffer.len(), 5);
    assert_eq!(buffer.as_bytes(), b"Hello");

    buffer.clear();
    assert!(buffer.is_empty());
}

#[test]
fn test_byte_buffer_resize() {
    let mut buffer = ByteBuffer::new(10);
    let data = b"This is a long string that requires resizing";
    buffer.write_bytes(data).unwrap();

    assert!(buffer.capacity() >= data.len());
    assert_eq!(buffer.as_bytes(), data);
}

#[test]
fn test_buffer_pool() {
    let pool = BufferPool::new(1024, 10);

    let buffer1 = pool.acquire();
    let buffer2 = pool.acquire();

    pool.release(buffer1);
    pool.release(buffer2);

    assert_eq!(pool.size(), 2);
}

#[test]
fn test_byte_buffer_growth_policy() {
    // Writing 6 bytes into a 4-byte buffer grows it to
    // max(required, 2 * capacity) = max(6, 8) = 8.
    let mut buffer = ByteBuffer::new(4);
    buffer.write_bytes(b"abcdef").unwrap();
    assert_eq!(buffer.capacity(), 8);
    assert_eq!(buffer.as_bytes(), b"abcdef");

    // Content after growth is the old content followed by the new bytes.
    buffer.write_bytes(b"ghijklmnop").unwrap();
    assert_eq!(buffer.as_bytes(), b"abcdefghijklmnop");
    assert_eq!(buffer.capacity(), 16);

    // Reserving beyond capacity doubles: len 0, cap 10, reserve 11 ->
    // max(11, 20) = 20.
    let mut small = ByteBuffer::new(10);
    small.reserve(11);
    assert_eq!(small.capacity(), 20);

    // Reserving within capacity changes nothing.
    small.reserve(5);
    assert_eq!(small.capacity(), 20);
}

#[test]
fn test_byte_buffer_from_bytes_and_clone() {
    let buffer = ByteBuffer::from_bytes(b"xyz");
    assert_eq!(buffer.as_bytes(), b"xyz");
    assert_eq!(buffer.capacity(), 3);

    let copy = buffer.clone();
    assert_eq!(copy.as_bytes(), b"xyz");
    assert_eq!(copy.capacity(), buffer.capacity());
}

#[test]
fn test_byte_buffer_into_bytes_and_lossy() {
    let mut buffer = ByteBuffer::new(8);
    buffer.write_str("héllo").unwrap();
    assert_eq!(buffer.to_string_lossy(), "héllo");

    let mut invalid = ByteBuffer::new(4);
    invalid.write_bytes(&[0xff, 0xfe]).unwrap();
    assert_eq!(invalid.to_string_lossy(), "\u{FFFD}\u{FFFD}");

    let bytes = buffer.into_bytes();
    assert_eq!(bytes, "héllo".as_bytes().to_vec());
}

#[test]
fn test_buffer_pool_acquire_capacity() {
    let pool = BufferPool::new(2048, 4);
    let buffer = pool.acquire();
    assert!(buffer.capacity() >= 2048);
    assert_eq!(buffer.len(), 0);
}

#[test]
fn test_buffer_pool_reuses_released_buffer() {
    let pool = BufferPool::new(64, 4);
    let buffer = pool.acquire();
    let kept = Arc::clone(&buffer);
    pool.release(buffer);
    let again = pool.acquire();
    assert!(Arc::ptr_eq(&kept, &again));
}

#[test]
fn test_buffer_pool_clears_sole_owner_buffer() {
    let pool = BufferPool::new(64, 4);
    let buffer = pool.acquire();
    {
        // Write through a fresh owned buffer, then hand it to the pool as
        // its sole owner: release must clear it.
        let mut owned = ByteBuffer::new(64);
        owned.write_str("leftover").unwrap();
        pool.release(Arc::new(owned));
    }
    drop(buffer);
    let recycled = pool.acquire();
    assert_eq!(recycled.len(), 0);
    assert!(recycled.capacity() >= 64);
}

#[test]
fn test_buffer_pool_respects_max_size() {
    let pool = BufferPool::new(16, 2);
    pool.release(Arc::new(ByteBuffer::new(16)));
    pool.release(Arc::new(ByteBuffer::new(16)));
    pool.release(Arc::new(ByteBuffer::new(16)));
    assert_eq!(pool.size(), 2);
}

#[test]
fn test_byte_buffer_as_mut_bytes() {
    let mut buffer = ByteBuffer::new(4);
    buffer.write_bytes(b"abc").unwrap();
    buffer.as_mut_bytes()[1] = b'X';
    assert_eq!(buffer.as_bytes(), b"aXc");
}
