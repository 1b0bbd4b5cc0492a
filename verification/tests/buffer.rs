//! Sample buffers and their pool.

use crossbeam::channel::{bounded, unbounded, TryRecvError};
use num_complex::Complex32;
use sdr_source_rs::PooledIqBuffer;

fn samples(n: usize) -> Vec<Complex32> {
    let mut v = Vec::with_capacity(64);
    for i in 0..n {
        v.push(Complex32::new(i as f32, -1.0));
    }
    v
}

#[test]
fn buffer_reads_as_the_wrapped_vector() {
    let (tx, _rx) = unbounded();
    let unpooled = PooledIqBuffer::new_unpooled(samples(16));
    let pooled = PooledIqBuffer::new_pooled(samples(16), tx);
    assert_eq!(unpooled.len(), 16);
    assert_eq!(unpooled[3], Complex32::new(3.0, -1.0));
    assert_eq!(&unpooled[..], &samples(16)[..]);
    assert_eq!(&pooled[..], &samples(16)[..]);
}

#[test]
fn writes_through_the_buffer_are_kept() {
    let mut buffer = PooledIqBuffer::new_unpooled(samples(4));
    buffer[2] = Complex32::new(0.5, 0.25);
    for s in buffer.iter_mut() {
        s.im += 1.0;
    }
    assert_eq!(buffer[0], Complex32::new(0.0, 0.0));
    assert_eq!(buffer[2], Complex32::new(0.5, 1.25));
    let taken = buffer.take_inner();
    assert_eq!(
        taken,
        vec![
            Complex32::new(0.0, 0.0),
            Complex32::new(1.0, 0.0),
            Complex32::new(0.5, 1.25),
            Complex32::new(3.0, 0.0),
        ]
    );
}

#[test]
fn dropped_buffer_returns_its_cleared_vector() {
    let (tx, rx) = unbounded();
    let vec = samples(16);
    let allocation = vec.as_ptr();
    let buffer = PooledIqBuffer::new_pooled(vec, tx);
    assert!(rx.try_recv().is_err());
    drop(buffer);
    let back: Vec<Complex32> = rx.try_recv().unwrap();
    assert!(back.is_empty());
    assert!(back.capacity() >= 64);
    assert_eq!(back.as_ptr(), allocation);
    assert!(rx.try_recv().is_err());
}

#[test]
fn write_before_drop_still_returns_to_the_pool() {
    let (tx, rx) = bounded(1);
    let mut buffer = PooledIqBuffer::new_pooled(samples(2), tx);
    buffer[0] = Complex32::new(9.0, 9.0);
    drop(buffer);
    assert_eq!(rx.try_recv(), Ok(Vec::new()));
}

#[test]
fn vector_goes_round_the_pool() {
    let (tx, rx) = bounded(1);
    tx.send(samples(0)).unwrap();
    for round in 1..5 {
        let mut vec = rx.try_recv().unwrap();
        assert!(vec.is_empty());
        for i in 0..round {
            vec.push(Complex32::new(i as f32, 0.0));
        }
        let buffer = PooledIqBuffer::new_pooled(vec, tx.clone());
        assert_eq!(buffer.len(), round);
    }
    assert_eq!(rx.len(), 1);
}

#[test]
fn taken_vector_bypasses_the_pool() {
    let (tx, rx) = unbounded();
    let vec = samples(16);
    let allocation = vec.as_ptr();
    let taken = PooledIqBuffer::new_pooled(vec, tx).take_inner();
    assert_eq!(taken, samples(16));
    assert_eq!(taken.as_ptr(), allocation);
    assert!(rx.try_recv().is_err());
    drop(taken);
    assert!(rx.try_recv().is_err());
}

#[test]
fn taking_out_releases_the_sender() {
    let (tx, rx) = unbounded::<Vec<Complex32>>();
    let buffer = PooledIqBuffer::new_pooled(samples(16), tx);
    let taken = buffer.take_inner();
    assert_eq!(taken, samples(16));
    assert_eq!(
        rx.try_recv(),
        Err(TryRecvError::Disconnected)
    );
}

#[test]
fn one_vector_reaches_a_pool_that_stays_open() {
    let (tx, rx) = unbounded();
    let buffer = PooledIqBuffer::new_pooled(vec![Complex32::new(1.0, 2.0); 16], tx.clone());
    assert_eq!(rx.try_recv(), Err(TryRecvError::Empty));
    assert_eq!(buffer[15], Complex32::new(1.0, 2.0));
    assert_eq!(rx.try_recv(), Err(TryRecvError::Empty));
    drop(buffer);
    let back: Vec<Complex32> = rx.try_recv().unwrap();
    assert_eq!(back.len(), 0);
    assert!(back.capacity() >= 16);
    assert_eq!(rx.try_recv(), Err(TryRecvError::Empty));
    drop(tx);
}

#[test]
fn nothing_reaches_a_pool_that_stays_open_on_taking_out() {
    let (tx, rx) = unbounded::<Vec<Complex32>>();
    let vec = vec![Complex32::new(1.0, 2.0), Complex32::new(3.0, 4.0)];
    let buffer = PooledIqBuffer::new_pooled(vec, tx.clone());
    assert_eq!(
        buffer.take_inner(),
        vec![Complex32::new(1.0, 2.0), Complex32::new(3.0, 4.0)]
    );
    assert_eq!(rx.try_recv(), Err(TryRecvError::Empty));
    drop(tx);
}

#[test]
fn each_dropped_buffer_returns_once_and_each_taken_one_never() {
    let (tx, rx) = unbounded::<Vec<Complex32>>();
    let mut allocations = Vec::new();
    for n in 0..10 {
        let vec = samples(n + 1);
        let allocation = vec.as_ptr();
        let mut buffer = PooledIqBuffer::new_pooled(vec, tx.clone());
        buffer[0] = Complex32::new(7.0, 7.0);
        if n % 3 == 0 {
            assert_eq!(buffer.take_inner().len(), n + 1);
        } else {
            allocations.push(allocation);
            drop(buffer);
        }
        assert_eq!(rx.len(), allocations.len());
    }
    assert_eq!(allocations.len(), 6);
    let mut kept = Vec::new();
    for allocation in allocations {
        let back = rx.try_recv().unwrap();
        assert!(back.is_empty());
        assert_eq!(back.as_ptr(), allocation);
        kept.push(back);
    }
    assert_eq!(rx.try_recv(), Err(TryRecvError::Empty));
}

#[test]
fn buffer_outlives_its_pool() {
    let (tx, rx) = bounded(1);
    let buffer = PooledIqBuffer::new_pooled(samples(3), tx);
    drop(rx);
    assert_eq!(buffer.len(), 3);
    drop(buffer);
}

#[test]
fn pool_disconnects_with_its_last_buffer() {
    let (tx, rx) = unbounded::<Vec<Complex32>>();
    let kept = PooledIqBuffer::new_pooled(samples(1), tx.clone());
    let taken = PooledIqBuffer::new_pooled(samples(2), tx);
    taken.take_inner();
    assert_eq!(rx.try_recv(), Err(TryRecvError::Empty));
    drop(kept);
    assert_eq!(rx.try_recv(), Ok(Vec::new()));
    assert_eq!(
        rx.try_recv(),
        Err(TryRecvError::Disconnected)
    );
}

#[test]
fn empty_buffer_is_fine() {
    let (tx, rx) = unbounded();
    let buffer = PooledIqBuffer::new_pooled(Vec::new(), tx);
    assert!(buffer.is_empty());
    drop(buffer);
    assert_eq!(rx.try_recv(), Ok(Vec::new()));
    assert!(PooledIqBuffer::new_unpooled(Vec::new())
        .take_inner()
        .is_empty());
}
