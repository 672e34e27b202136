use pasto::RingBuffer;

#[test]
fn new_buffer_reads_zero() {
    let buf: RingBuffer<8> = RingBuffer::new(3);
    assert_eq!(buf.read_oldest(), 0);
}

#[test]
fn capacity_is_capped_at_storage_size() {
    let mut buf: RingBuffer<4> = RingBuffer::new(10);
    for v in 1..=4u64 {
        buf.push(v);
    }
    // The line is 4 long: after 4 pushes the oldest is the first pushed.
    assert_eq!(buf.read_oldest(), 1);
    buf.push(5);
    assert_eq!(buf.read_oldest(), 2);
}

#[test]
fn delay_line_returns_sample_from_capacity_pushes_ago() {
    let mut buf: RingBuffer<32> = RingBuffer::new(28);
    let mut history: Vec<u64> = Vec::new();
    for k in 0..100u64 {
        let v = k * 7 + 3;
        buf.push(v);
        history.push(v);
        if history.len() >= 28 {
            assert_eq!(buf.read_oldest(), history[history.len() - 28]);
        } else {
            assert_eq!(buf.read_oldest(), 0);
        }
    }
}

#[test]
fn zero_capacity_buffer_ignores_pushes() {
    let mut buf: RingBuffer<4> = RingBuffer::new(0);
    buf.push(42);
    assert_eq!(buf.read_oldest(), 0);
    buf.fill(7);
    assert_eq!(buf.read_oldest(), 0);
}

#[test]
fn fill_reseeds_whole_line() {
    let mut buf: RingBuffer<8> = RingBuffer::new(3);
    buf.push(1);
    buf.push(2);
    buf.fill(9);
    assert_eq!(buf.read_oldest(), 9);
    buf.push(10);
    assert_eq!(buf.read_oldest(), 9);
    buf.push(11);
    assert_eq!(buf.read_oldest(), 9);
    buf.push(12);
    assert_eq!(buf.read_oldest(), 10);
}

#[test]
fn reset_zeroes_line() {
    let mut buf: RingBuffer<8> = RingBuffer::new(2);
    buf.push(5);
    buf.push(6);
    assert_eq!(buf.read_oldest(), 5);
    buf.reset();
    assert_eq!(buf.read_oldest(), 0);
    buf.push(1);
    assert_eq!(buf.read_oldest(), 0);
    buf.push(2);
    assert_eq!(buf.read_oldest(), 1);
}

#[test]
fn ring_buffer_carries_f64_bit_patterns() {
    let mut buf: RingBuffer<4> = RingBuffer::new(1);
    buf.push(93.5f64.to_bits());
    assert_eq!(f64::from_bits(buf.read_oldest()), 93.5);
    assert_eq!(f64::from_bits(RingBuffer::<4>::new(2).read_oldest()), 0.0);
}
