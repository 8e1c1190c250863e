use vtr_sentinel::event::kind::EventKind;
use vtr_sentinel::event::record::{EventRecord, TsDelta};
use vtr_sentinel::ring::buffer::{EventRingBuffer, PopResult, PushResult, RingBuffer};

#[test]
fn ring_is_fifo() {
    let mut rb: RingBuffer<u32, 8> = RingBuffer::new(0);
    assert!(rb.is_empty());
    assert_eq!(rb.capacity(), 7);
    for i in 1..=5 {
        assert_eq!(rb.push(i), PushResult::Stored);
    }
    assert_eq!(rb.len(), 5);
    for i in 1..=5 {
        assert_eq!(rb.pop(), PopResult::Record(i));
    }
    assert_eq!(rb.pop(), PopResult::Empty);
}

#[test]
fn ring_full_discards_oldest() {
    let mut rb: RingBuffer<u32, 4> = RingBuffer::new(0);
    assert_eq!(rb.push(1), PushResult::Stored);
    assert_eq!(rb.push(2), PushResult::Stored);
    assert_eq!(rb.push(3), PushResult::Stored);
    assert!(rb.is_full());
    assert_eq!(rb.push(4), PushResult::OldestDiscarded);
    assert_eq!(rb.push(5), PushResult::OldestDiscarded);
    assert_eq!(rb.len(), 3);
    assert_eq!(rb.pop(), PopResult::Record(3));
    assert_eq!(rb.pop(), PopResult::Record(4));
    assert_eq!(rb.pop(), PopResult::Record(5));
    assert_eq!(rb.pop(), PopResult::Empty);
}

#[test]
fn ring_wraps_many_times() {
    let mut rb: RingBuffer<u64, 4> = RingBuffer::new(0);
    for i in 0..1000u64 {
        rb.push(i);
    }
    assert_eq!(rb.pop(), PopResult::Record(997));
    assert_eq!(rb.pop(), PopResult::Record(998));
    assert_eq!(rb.pop(), PopResult::Record(999));
}

#[test]
fn drain_into_copies_oldest_first() {
    let mut rb: RingBuffer<u32, 8> = RingBuffer::new(0);
    for i in 10..16 {
        rb.push(i);
    }
    let mut dst = [0u32; 4];
    assert_eq!(rb.drain_into(&mut dst), 4);
    assert_eq!(dst, [10, 11, 12, 13]);
    assert_eq!(rb.len(), 2);
    let mut big = [99u32; 5];
    assert_eq!(rb.drain_into(&mut big), 2);
    assert_eq!(big, [14, 15, 99, 99, 99]);
    assert!(rb.is_empty());
    assert_eq!(rb.drain_into(&mut big), 0);
}

#[test]
fn reset_empties() {
    let mut rb: RingBuffer<u8, 4> = RingBuffer::new(0);
    rb.push(1);
    rb.push(2);
    rb.reset(9);
    assert!(rb.is_empty());
    assert_eq!(rb.pop(), PopResult::Empty);
    rb.push(3);
    assert_eq!(rb.pop(), PopResult::Record(3));
}

#[test]
fn usage_percent() {
    let mut rb: RingBuffer<u8, 8> = RingBuffer::new(0);
    assert_eq!(rb.usage_pct(), 0);
    rb.push(1);
    assert_eq!(rb.usage_pct(), 14);
    for _ in 0..6 {
        rb.push(1);
    }
    assert_eq!(rb.usage_pct(), 100);
    let one: RingBuffer<u8, 1> = RingBuffer::new(0);
    assert_eq!(one.usage_pct(), 100);
    assert_eq!(one.capacity(), 0);
    assert!(one.is_full());
}

#[test]
fn sentinel_ring_and_verified_push() {
    let mut rb = EventRingBuffer::for_sentinel();
    assert_eq!(rb.capacity(), 2047);
    assert!(rb.is_empty());
    let good = EventRecord::system_event(EventKind::ProbeRestarted, TsDelta::new(4));
    assert_eq!(rb.push_verified(good), Ok(PushResult::Stored));
    assert_eq!(rb.len(), 1);
    assert_eq!(rb.pop(), PopResult::Record(good));
}
