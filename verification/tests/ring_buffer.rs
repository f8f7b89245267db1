use claudio::ring_buffer::{RingBuffer, SILENCE};

#[test]
fn new_buffer_is_empty() {
    let ring = RingBuffer::new(8);
    assert_eq!(ring.capacity(), 8);
    assert_eq!(ring.len(), 0);
    assert!(ring.is_empty());
    assert!(!ring.is_full());
}

#[test]
fn samples_leave_in_the_order_they_came() {
    let mut ring = RingBuffer::new(4);
    assert!(ring.push(10));
    assert!(ring.push(-20));
    assert!(ring.push(30));
    assert_eq!(ring.pop(), Some(10));
    assert_eq!(ring.pop(), Some(-20));
    assert_eq!(ring.pop(), Some(30));
    assert_eq!(ring.pop(), None);
}

#[test]
fn push_into_full_buffer_drops_the_new_sample() {
    let mut ring = RingBuffer::new(2);
    assert!(ring.push(1));
    assert!(ring.push(2));
    assert!(ring.is_full());
    assert!(!ring.push(3));
    assert_eq!(ring.len(), 2);
    assert_eq!(ring.pop(), Some(1));
    assert_eq!(ring.pop(), Some(2));
    assert_eq!(ring.pop(), None);
}

#[test]
fn pop_from_empty_buffer_is_silence() {
    let mut ring = RingBuffer::new(3);
    assert_eq!(ring.pop(), None);
    assert_eq!(ring.pop_or_silence(), SILENCE);
    assert_eq!(SILENCE, 0);
    assert!(ring.push(7));
    assert_eq!(ring.pop_or_silence(), 7);
    assert_eq!(ring.pop_or_silence(), 0);
    assert_eq!(ring.len(), 0);
}

#[test]
fn buffer_wraps_around_its_storage() {
    let mut ring = RingBuffer::new(3);
    for round in 0..10i16 {
        assert!(ring.push(round));
        assert!(ring.push(round + 100));
        assert_eq!(ring.pop(), Some(round));
        assert_eq!(ring.pop(), Some(round + 100));
    }
    assert!(ring.push(1));
    assert!(ring.push(2));
    assert!(ring.push(3));
    assert!(!ring.push(4));
    assert_eq!(ring.pop(), Some(1));
    assert!(ring.push(5));
    assert_eq!(ring.pop(), Some(2));
    assert_eq!(ring.pop(), Some(3));
    assert_eq!(ring.pop(), Some(5));
    assert_eq!(ring.pop(), None);
}

#[test]
fn zero_capacity_buffer_accepts_nothing() {
    let mut ring = RingBuffer::new(0);
    assert!(ring.is_empty());
    assert!(ring.is_full());
    assert!(!ring.push(1));
    assert_eq!(ring.pop(), None);
}

#[test]
fn push_slice_keeps_what_fits() {
    let mut ring = RingBuffer::new(4);
    assert!(ring.push(9));
    let accepted = ring.push_slice(&[1, 2, 3, 4, 5]);
    assert_eq!(accepted, 3);
    assert_eq!(ring.len(), 4);
    assert_eq!(ring.pop(), Some(9));
    assert_eq!(ring.pop(), Some(1));
    assert_eq!(ring.pop(), Some(2));
    assert_eq!(ring.pop(), Some(3));
    assert_eq!(ring.pop(), None);
    assert_eq!(ring.push_slice(&[]), 0);
}

#[test]
fn fill_pads_with_silence() {
    let mut ring = RingBuffer::new(8);
    assert_eq!(ring.push_slice(&[5, 6, 7]), 3);
    let mut block = [99i16; 5];
    ring.fill(&mut block);
    assert_eq!(block, [5, 6, 7, 0, 0]);
    assert!(ring.is_empty());
}

#[test]
fn fill_takes_no_more_than_the_block() {
    let mut ring = RingBuffer::new(8);
    assert_eq!(ring.push_slice(&[5, 6, 7, 8]), 4);
    let mut block = [0i16; 2];
    ring.fill(&mut block);
    assert_eq!(block, [5, 6]);
    assert_eq!(ring.len(), 2);
    assert_eq!(ring.pop(), Some(7));
}

#[test]
fn prefill_never_fills_the_buffer() {
    for latency in [1usize, 2, 7, 768, 1536] {
        let mut ring = RingBuffer::new(2 * latency);
        for _ in 0..latency {
            assert!(!ring.is_full());
            assert!(ring.push(SILENCE));
        }
        assert!(!ring.is_full());
        assert_eq!(ring.len(), latency);
    }
}

#[test]
fn with_latency_queues_silence() {
    let mut ring = RingBuffer::with_latency(3).expect("fits");
    assert_eq!(ring.capacity(), 6);
    assert_eq!(ring.len(), 3);
    assert!(!ring.is_full());
    assert!(ring.push(42));
    assert_eq!(ring.pop(), Some(0));
    assert_eq!(ring.pop(), Some(0));
    assert_eq!(ring.pop(), Some(0));
    assert_eq!(ring.pop(), Some(42));
}

#[test]
fn with_latency_of_zero_is_an_empty_buffer() {
    let ring = RingBuffer::with_latency(0).expect("fits");
    assert_eq!(ring.capacity(), 0);
    assert_eq!(ring.len(), 0);
}

#[test]
fn with_latency_refuses_what_does_not_fit() {
    assert!(RingBuffer::with_latency(usize::MAX / 2 + 1).is_none());
    assert!(RingBuffer::with_latency(usize::MAX).is_none());
}
