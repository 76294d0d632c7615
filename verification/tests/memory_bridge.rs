//! The linear memory itself: allocation, release, and the checked view
//! constructors that every raw (address, length) pair must pass through.

use sandbox_crypto::memory::{BufferFault, LinearMemory};

#[test]
fn test_allocate_aligned_blocks() {
    let mut mem = LinearMemory::new(64);
    // The first block starts at the first aligned address; 0 stays null.
    let a = mem.allocate(10);
    assert_eq!(a, 8);
    // The next block is aligned up past the 10 bytes of the first.
    let b = mem.allocate(4);
    assert_eq!(b, 24);
    // A zero-length request yields the aligned sentinel, not null.
    let s = mem.allocate(0);
    assert_eq!(s, 8);
    // A block that no longer fits yields null.
    let c = mem.allocate(64);
    assert_eq!(c, 0);
    // Memory was not grown for it.
    assert_eq!(mem.size(), 64);
}

#[test]
fn test_release_latest_block_only() {
    let mut mem = LinearMemory::new(64);
    let a = mem.allocate(8);
    let b = mem.allocate(8);
    assert_eq!(a, 8);
    assert_eq!(b, 16);
    // A pair that does not name the latest block is refused.
    assert!(!mem.release(a, 8));
    // The latest block, named by the same address and length, is reclaimed.
    assert!(mem.release(b, 8));
    let b2 = mem.allocate(8);
    assert_eq!(b2, 16);
}

#[test]
fn test_view_buffer_checks() {
    let mem = LinearMemory::new(32);
    // An empty buffer is valid whatever its address, null included.
    assert_eq!(mem.view_buffer(0, 0).unwrap(), Vec::<u8>::new());
    assert_eq!(mem.view_buffer(999, 0).unwrap(), Vec::<u8>::new());
    // A null address with a nonzero length is refused as null.
    assert_eq!(mem.view_buffer(0, 4).unwrap_err(), BufferFault::NullAddress);
    // A region past the end is refused as out of bounds.
    assert_eq!(mem.view_buffer(30, 4).unwrap_err(), BufferFault::OutOfBounds);
    // A fresh memory reads back zeroed.
    assert_eq!(mem.view_buffer(8, 4).unwrap(), vec![0u8, 0, 0, 0]);
}

#[test]
fn test_store_bytes_checks() {
    let mut mem = LinearMemory::new(32);
    let data = vec![1u8, 2, 3, 4];
    assert_eq!(mem.store_bytes(0, &data).unwrap_err(), BufferFault::NullAddress);
    assert_eq!(mem.store_bytes(30, &data).unwrap_err(), BufferFault::OutOfBounds);
    mem.store_bytes(8, &data).unwrap();
    assert_eq!(mem.view_buffer(8, 4).unwrap(), data);
    // The bytes around the written region are untouched.
    assert_eq!(mem.view_buffer(4, 4).unwrap(), vec![0u8; 4]);
    assert_eq!(mem.view_buffer(12, 4).unwrap(), vec![0u8; 4]);
}
