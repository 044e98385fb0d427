use vstd::prelude::*;

verus! {

/// The fixed-capacity byte storage of one channel: the two handles that
/// `ringbuf` hands out when an owned ring buffer is split.  The handles
/// address independent ends of one shared buffer; the channel owns both, so
/// every mutation goes through this struct and the contents below are exact.
#[verifier::external_body]
pub struct ByteRing {
    producer: ringbuf::Producer<u8>,
    consumer: ringbuf::Consumer<u8>,
}

/// The bytes currently buffered, oldest first.
pub uninterp spec fn ring_contents(rb: &ByteRing) -> Seq<u8>;

/// The fixed capacity the ring was made with, in bytes.
pub uninterp spec fn ring_capacity(rb: &ByteRing) -> usize;

/// Relies on ringbuf::RingBuffer::new and ringbuf::RingBuffer::split: a
/// buffer of the given capacity, initially empty.  `new` allocates one slot
/// more than the capacity, so the capacity must leave room for it.
#[verifier::external_body]
pub fn ring_new(capacity: usize) -> (rb: ByteRing)
    requires
        capacity < usize::MAX,
    ensures
        ring_capacity(&rb) == capacity,
        ring_contents(&rb) == Seq::<u8>::empty(),
{
    let (producer, consumer) = ringbuf::RingBuffer::new(capacity).split();
    ByteRing { producer, consumer }
}

/// Relies on ringbuf::Producer::push: appends the byte at the tail iff the
/// buffer is not full, else hands it back untouched.
#[verifier::external_body]
pub fn ring_push(rb: &mut ByteRing, item: u8) -> (r: bool)
    ensures
        ring_capacity(final(rb)) == ring_capacity(old(rb)),
        r == (ring_contents(old(rb)).len() < ring_capacity(old(rb))),
        r ==> ring_contents(final(rb)) == ring_contents(old(rb)).push(item),
        !r ==> ring_contents(final(rb)) == ring_contents(old(rb)),
{
    rb.producer.push(item).is_ok()
}

/// Relies on ringbuf::Consumer::pop: removes and returns the oldest byte,
/// or returns nothing when the buffer is empty.
#[verifier::external_body]
pub fn ring_pop(rb: &mut ByteRing) -> (r: Option<u8>)
    ensures
        ring_capacity(final(rb)) == ring_capacity(old(rb)),
        ring_contents(old(rb)).len() == 0 ==> r is None
            && ring_contents(final(rb)) == ring_contents(old(rb)),
        ring_contents(old(rb)).len() > 0 ==> r == Some(ring_contents(old(rb))[0])
            && ring_contents(final(rb)) == ring_contents(old(rb)).skip(1),
{
    rb.consumer.pop()
}

/// Relies on ringbuf::Producer::push_slice: copies as many leading bytes as
/// fit into the free space and returns that count.
#[verifier::external_body]
pub fn ring_push_slice(rb: &mut ByteRing, items: &[u8]) -> (n: usize)
    ensures
        ring_capacity(final(rb)) == ring_capacity(old(rb)),
        n == if items@.len() <= ring_capacity(old(rb)) - ring_contents(old(rb)).len() {
            items@.len() as int
        } else {
            ring_capacity(old(rb)) - ring_contents(old(rb)).len()
        },
        ring_contents(final(rb)) == ring_contents(old(rb)) + items@.take(n as int),
{
    rb.producer.push_slice(items)
}

/// Relies on ringbuf::Consumer::pop_slice: removes as many leading bytes as
/// the caller's buffer holds, writes them over its prefix, and returns that
/// count.
#[verifier::external_body]
pub fn ring_pop_slice(rb: &mut ByteRing, items: &mut Vec<u8>) -> (n: usize)
    ensures
        ring_capacity(final(rb)) == ring_capacity(old(rb)),
        n == if old(items)@.len() <= ring_contents(old(rb)).len() {
            old(items)@.len() as int
        } else {
            ring_contents(old(rb)).len() as int
        },
        final(items)@ == ring_contents(old(rb)).take(n as int) + old(items)@.skip(n as int),
        ring_contents(final(rb)) == ring_contents(old(rb)).skip(n as int),
{
    rb.consumer.pop_slice(items.as_mut_slice())
}

/// Relies on ringbuf::Producer::is_full: full iff the buffered count equals
/// the capacity.
#[verifier::external_body]
pub fn ring_is_full(rb: &ByteRing) -> (r: bool)
    ensures
        r == (ring_contents(rb).len() == ring_capacity(rb)),
{
    rb.producer.is_full()
}

/// Relies on ringbuf::Consumer::is_empty: empty iff nothing is buffered.
#[verifier::external_body]
pub fn ring_is_empty(rb: &ByteRing) -> (r: bool)
    ensures
        r == (ring_contents(rb).len() == 0),
{
    rb.consumer.is_empty()
}

/// Relies on ringbuf::Producer::capacity: the fixed capacity.
#[verifier::external_body]
pub fn ring_cap(rb: &ByteRing) -> (r: usize)
    ensures
        r == ring_capacity(rb),
{
    rb.producer.capacity()
}

} // verus!
