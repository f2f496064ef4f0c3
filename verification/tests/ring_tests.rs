use gameboy_core::ring::{RingBuffer, AUDIO_BUFFER_SIZE, RING_SIZE};

#[test]
fn new_ring_is_empty() {
    let mut ring = RingBuffer::new();
    assert_eq!(ring.len(), 0);
    assert_eq!(ring.take(), None);
    assert_eq!(ring.take_block(1), None);
    assert_eq!(ring.take_block(0), Some(vec![]));
}

#[test]
fn ring_is_first_in_first_out() {
    let mut ring = RingBuffer::new();
    for v in 0..100i16 {
        assert!(ring.add(v));
    }
    assert_eq!(ring.len(), 100);
    for v in 0..50i16 {
        assert_eq!(ring.take(), Some(v));
    }
    for v in 100..150i16 {
        assert!(ring.add(v));
    }
    for v in 50..150i16 {
        assert_eq!(ring.take(), Some(v));
    }
    assert_eq!(ring.take(), None);
}

#[test]
fn full_ring_drops_new_samples() {
    let mut ring = RingBuffer::new();
    for v in 0..RING_SIZE {
        assert!(ring.add(v as i16));
    }
    assert!(!ring.add(-1));
    assert_eq!(ring.len(), RING_SIZE);
    assert_eq!(ring.take(), Some(0));
    assert!(ring.add(-2));
    assert!(!ring.add(-3));
    for v in 1..RING_SIZE {
        assert_eq!(ring.take(), Some(v as i16));
    }
    assert_eq!(ring.take(), Some(-2));
    assert_eq!(ring.take(), None);
}

#[test]
fn ring_wraps_around_many_times() {
    let mut ring = RingBuffer::new();
    let mut next_in = 0i16;
    let mut next_out = 0i16;
    for round in 0..20 {
        for _ in 0..(1000 + round * 37) {
            if ring.add(next_in) {
                next_in = next_in.wrapping_add(1);
            }
        }
        for _ in 0..(900 + round * 41) {
            if let Some(v) = ring.take() {
                assert_eq!(v, next_out);
                next_out = next_out.wrapping_add(1);
            }
        }
    }
}

#[test]
fn blocks_come_out_whole_and_in_order() {
    let mut ring = RingBuffer::new();
    for v in 0..(AUDIO_BUFFER_SIZE as i16 + 10) {
        assert!(ring.add(v));
    }
    assert_eq!(ring.take_block(AUDIO_BUFFER_SIZE + 11), None);
    assert_eq!(ring.len(), AUDIO_BUFFER_SIZE + 10);
    let block = ring.take_block(AUDIO_BUFFER_SIZE).unwrap();
    assert_eq!(block.len(), AUDIO_BUFFER_SIZE);
    for (i, v) in block.iter().enumerate() {
        assert_eq!(*v, i as i16);
    }
    assert_eq!(ring.len(), 10);
    assert_eq!(ring.take(), Some(AUDIO_BUFFER_SIZE as i16));
}
