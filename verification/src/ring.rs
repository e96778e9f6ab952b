//! The shared sample ring.
//!
//! A fixed-capacity single-producer/single-consumer ring of canonical Q31
//! samples, backed by the `ringbuf` crate, decouples the decoding service
//! thread from the real-time device callback.  The two halves live on
//! different threads, so no specification can name the ring's contents: a
//! snapshot would be stale the moment the other half moves.  The contracts
//! below state only what holds of every interleaving — counts written or
//! read never exceed what was offered, a popped prefix never spills past
//! its count, and occupancy never exceeds the fixed capacity.

use vstd::prelude::*;

use ringbuf::traits::{Consumer, Observer, Producer, Split};

verus! {

/// Producer half of the sample ring; owned by the service thread.
#[verifier::external_body]
pub struct SampleProducer {
    inner: ringbuf::HeapProd<i32>,
}

/// Consumer half of the sample ring; owned by the device callback.
#[verifier::external_body]
pub struct SampleConsumer {
    inner: ringbuf::HeapCons<i32>,
}

/// The fixed number of slots the ring behind this producer was built with.
pub uninterp spec fn producer_capacity(p: SampleProducer) -> usize;

/// The fixed number of slots the ring behind this consumer was built with.
pub uninterp spec fn consumer_capacity(c: SampleConsumer) -> usize;

/// Build a ring of exactly `capacity` slots and split it into its halves.
///
/// Relies on ringbuf's `HeapRb::new`, which allocates that many slots, and
/// `Split::split`, which hands out the producer and consumer of that ring.
#[verifier::external_body]
pub fn ring_split(capacity: usize) -> (halves: (SampleProducer, SampleConsumer))
    requires
        1 <= capacity,
    ensures
        producer_capacity(halves.0) == capacity,
        consumer_capacity(halves.1) == capacity,
{
    let (p, c) = ringbuf::HeapRb::<i32>::new(capacity).split();
    (SampleProducer { inner: p }, SampleConsumer { inner: c })
}

impl SampleProducer {
    /// Copy a prefix of `elems` into the ring; the count written is never
    /// more than was offered.  May write less than everything whenever the
    /// ring has no room, and the consumer may pop concurrently, so nothing
    /// further holds of a later observation.
    ///
    /// Relies on ringbuf's `Producer::push_slice`.
    #[verifier::external_body]
    pub fn push_slice(&mut self, elems: &Vec<i32>) -> (n: usize)
        ensures
            n <= elems@.len(),
            producer_capacity(*final(self)) == producer_capacity(*old(self)),
    {
        self.inner.push_slice(elems.as_slice())
    }

    /// A snapshot of how many samples sit in the ring; never more than the
    /// capacity.  The consumer may pop at any moment, so the count may be
    /// stale at once.
    ///
    /// Relies on ringbuf's `Observer::occupied_len`.
    #[verifier::external_body]
    pub fn occupied_len(&self) -> (n: usize)
        ensures
            n <= producer_capacity(*self),
    {
        self.inner.occupied_len()
    }

    /// A snapshot of whether the ring is full.
    ///
    /// Relies on ringbuf's `Observer::is_full`.
    #[verifier::external_body]
    pub fn is_full(&self) -> (b: bool) {
        self.inner.is_full()
    }

    /// The fixed capacity of the ring.
    ///
    /// Relies on ringbuf's `Observer::capacity`, which reports the slot
    /// count the ring was built with.
    #[verifier::external_body]
    pub fn capacity(&self) -> (n: usize)
        ensures
            n == producer_capacity(*self),
    {
        self.inner.capacity().get()
    }
}

impl SampleConsumer {
    /// Move up to `buf.len()` samples out of the ring into the front of
    /// `buf`, in the order they were pushed, and return how many; entries
    /// past that count keep what they held.
    ///
    /// Relies on ringbuf's `Consumer::pop_slice`.
    #[verifier::external_body]
    pub fn pop_slice(&mut self, buf: &mut Vec<i32>) -> (n: usize)
        ensures
            n <= final(buf)@.len(),
            final(buf)@.len() == old(buf)@.len(),
            forall|i: int|
                n <= i < final(buf)@.len() ==> final(buf)@[i] == old(buf)@[i],
            consumer_capacity(*final(self)) == consumer_capacity(*old(self)),
    {
        self.inner.pop_slice(buf.as_mut_slice())
    }

    /// A snapshot of how many samples sit in the ring; never more than the
    /// capacity.  The producer may push at any moment, so the count may be
    /// stale at once.
    ///
    /// Relies on ringbuf's `Observer::occupied_len`.
    #[verifier::external_body]
    pub fn occupied_len(&self) -> (n: usize)
        ensures
            n <= consumer_capacity(*self),
    {
        self.inner.occupied_len()
    }

    /// The fixed capacity of the ring.
    ///
    /// Relies on ringbuf's `Observer::capacity`, which reports the slot
    /// count the ring was built with.
    #[verifier::external_body]
    pub fn capacity(&self) -> (n: usize)
        ensures
            n == consumer_capacity(*self),
    {
        self.inner.capacity().get()
    }
}

} // verus!
