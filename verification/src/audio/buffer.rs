//! Audio chunks, and the lock-free sample ring between a producer and a
//! consumer.

use super::ring::RingState;
use ringbuf::traits::{Consumer, Observer, Producer, Split};
use vstd::prelude::*;

verus! {

/// One audio sample: signed 16-bit PCM, mono.
pub type Sample = i16;

/// The largest value [`AudioChunk::duration_ms`] can report.
pub const DURATION_MAX_MS: u64 = 0xFFFF_FFFF_FFFF_FFFF;

/// The length in milliseconds of `len` samples at `sample_rate` hertz,
/// rounded down and capped at [`DURATION_MAX_MS`]. At rate zero an empty
/// run lasts no time and any other run lasts for ever.
pub open spec fn duration_ms_of(len: nat, sample_rate: u32) -> nat {
    if sample_rate == 0 {
        if len == 0 {
            0
        } else {
            DURATION_MAX_MS as nat
        }
    } else if len * 1000 / (sample_rate as nat) > DURATION_MAX_MS as nat {
        DURATION_MAX_MS as nat
    } else {
        len * 1000 / (sample_rate as nat)
    }
}

/// A slice of captured audio.
#[derive(Debug)]
pub struct AudioChunk {
    /// The samples, mono.
    pub samples: Vec<Sample>,
    /// Samples per second.
    pub sample_rate: u32,
    /// When the chunk was captured, in microseconds on the capture clock.
    pub timestamp: u64,
}

impl AudioChunk {
    /// A chunk of `samples` at `sample_rate`, captured at `timestamp`.
    pub fn new(samples: Vec<Sample>, sample_rate: u32, timestamp: u64) -> (chunk: Self)
        ensures
            chunk.samples == samples,
            chunk.sample_rate == sample_rate,
            chunk.timestamp == timestamp,
    {
        AudioChunk { samples, sample_rate, timestamp }
    }

    /// The chunk's length in milliseconds.
    pub open spec fn spec_duration_ms(&self) -> nat {
        duration_ms_of(self.samples@.len(), self.sample_rate)
    }

    /// The chunk's length in milliseconds: `len * 1000 / sample_rate`,
    /// rounded down.
    pub fn duration_ms(&self) -> (ms: u64)
        ensures
            ms == self.spec_duration_ms(),
    {
        let len: usize = self.samples.len();
        if self.sample_rate == 0 {
            if len == 0 {
                0
            } else {
                DURATION_MAX_MS
            }
        } else {
            let scaled: u128 = (len as u128) * 1000;
            let ms: u128 = scaled / (self.sample_rate as u128);
            if ms > DURATION_MAX_MS as u128 {
                DURATION_MAX_MS
            } else {
                ms as u64
            }
        }
    }

    /// Whether the chunk holds no samples.
    pub fn is_empty(&self) -> (b: bool)
        ensures
            b == (self.samples@.len() == 0),
    {
        self.samples.len() == 0
    }

    /// The number of samples.
    pub fn len(&self) -> (n: usize)
        ensures
            n == self.samples@.len(),
    {
        self.samples.len()
    }

    /// A copy of the chunk: the same samples, rate and capture time.
    pub fn duplicate(&self) -> (copy: Self)
        ensures
            copy.samples@ == self.samples@,
            copy.sample_rate == self.sample_rate,
            copy.timestamp == self.timestamp,
    {
        let mut samples: Vec<Sample> = Vec::new();
        let mut i: usize = 0;
        while i < self.samples.len()
            invariant
                i <= self.samples@.len(),
                samples@ == self.samples@.take(i as int),
            decreases self.samples@.len() - i,
        {
            proof {
                self.samples@.lemma_take_succ_push(i as int);
            }
            samples.push(self.samples[i]);
            i = i + 1;
        }
        assert(samples@ =~= self.samples@);
        AudioChunk { samples, sample_rate: self.sample_rate, timestamp: self.timestamp }
    }
}

/// The samples of all the chunks, in order.
pub open spec fn concat_samples(chunks: Seq<AudioChunk>) -> Seq<Sample>
    decreases chunks.len(),
{
    if chunks.len() == 0 {
        Seq::empty()
    } else {
        concat_samples(chunks.drop_last()) + chunks.last().samples@
    }
}

/// A ring of samples that has not been split yet. Whoever holds it is the
/// only one to push and pop, so its contents are known exactly.
#[verifier::external_body]
pub struct AudioBuffer {
    rb: ringbuf::HeapRb<Sample>,
}

/// The producer's end of a split ring. The consumer may take samples out
/// at any moment, so only what holds whenever it does is promised.
#[verifier::external_body]
pub struct AudioProducer {
    inner: ringbuf::HeapProd<Sample>,
}

/// The consumer's end of a split ring. The producer may put samples in at
/// any moment, so only what holds whenever it does is promised.
#[verifier::external_body]
pub struct AudioConsumer {
    inner: ringbuf::HeapCons<Sample>,
}

/// What a ring that is not split holds, oldest first.
pub uninterp spec fn ring_items(buffer: AudioBuffer) -> Seq<Sample>;

/// The capacity a ring was made with.
pub uninterp spec fn ring_capacity(buffer: AudioBuffer) -> nat;

/// The capacity of the ring a producer writes to.
pub uninterp spec fn producer_capacity(producer: AudioProducer) -> nat;

/// The capacity of the ring a consumer reads from.
pub uninterp spec fn consumer_capacity(consumer: AudioConsumer) -> nat;

/// The free places a producer can count on: those there were when the
/// ring was split or when the producer last pushed. Only the producer
/// fills places, so there are never fewer; the consumer may have freed
/// more since.
pub uninterp spec fn producer_room(producer: AudioProducer) -> nat;

/// The items a consumer can count on, oldest first: those there were
/// when the ring was split or when the consumer last popped. Only the
/// consumer takes items out, so they are still there and come out first;
/// the producer may have put more behind them since.
pub uninterp spec fn consumer_items(consumer: AudioConsumer) -> Seq<Sample>;

/// The smaller of two numbers.
pub open spec fn least(a: nat, b: nat) -> nat {
    if a <= b {
        a
    } else {
        b
    }
}

/// Whether a consumer that could count on the items `before` and asked
/// for `wanted` items may have got `taken` and may count on `after` from
/// then on. It got as many as it asked for, or all there were, and at
/// least all it could count on; those came first and in order; what it
/// could count on and did not get is still first in the ring; and where
/// it got fewer than it asked for, nothing is left.
pub open spec fn took(
    before: Seq<Sample>,
    wanted: nat,
    taken: Seq<Sample>,
    after: Seq<Sample>,
) -> bool {
    &&& least(wanted, before.len()) <= taken.len() <= wanted
    &&& forall|i: int| 0 <= i < taken.len() && i < before.len() ==> #[trigger] taken[i] == before[i]
    &&& after.len() >= before.len() - taken.len()
    &&& forall|k: int|
        0 <= k < before.len() - taken.len() ==> #[trigger] after[k] == before[k + taken.len()]
    &&& taken.len() < wanted ==> after.len() == 0
}

/// `HeapRb::new` of ringbuf: an empty ring of exactly this capacity. It
/// panics on capacity zero, which the precondition leaves out.
#[verifier::external_body]
fn ring_new(capacity: usize) -> (rb: AudioBuffer)
    requires
        capacity > 0,
    ensures
        ring_items(rb) == Seq::<Sample>::empty(),
        ring_capacity(rb) == capacity,
{
    AudioBuffer { rb: ringbuf::HeapRb::<Sample>::new(capacity) }
}

/// `Observer::capacity` of ringbuf on a ring that is not split: the
/// capacity it was made with, which never changes and is not zero.
#[verifier::external_body]
fn ring_capacity_of(rb: &AudioBuffer) -> (n: usize)
    ensures
        n == ring_capacity(*rb),
        n > 0,
{
    rb.rb.capacity().get()
}

/// `Observer::occupied_len` of ringbuf on a ring that is not split: the
/// number of items it holds. Nobody else can reach such a ring, so the
/// number is exact.
#[verifier::external_body]
fn ring_occupied_len(rb: &AudioBuffer) -> (n: usize)
    ensures
        n == ring_items(*rb).len(),
{
    rb.rb.occupied_len()
}

/// `Producer::push_slice` of ringbuf on a ring that is not split: the
/// items of the slice that fit into the free places are appended in order,
/// and their number is returned.
#[verifier::external_body]
fn ring_push_slice(rb: &mut AudioBuffer, elems: &[Sample]) -> (n: usize)
    ensures
        ring_capacity(*final(rb)) == ring_capacity(*old(rb)),
        n == (RingState { capacity: ring_capacity(*old(rb)), items: ring_items(*old(rb)) }).accepts(
            elems@,
        ),
        ring_items(*final(rb)) == ring_items(*old(rb)) + elems@.take(n as int),
{
    rb.rb.push_slice(elems)
}

/// `Consumer::pop_slice` of ringbuf on a ring that is not split: the
/// oldest items, as many as the destination has places for, are taken out
/// and written to its beginning; their number is returned and the rest of
/// the destination is left as it was.
#[verifier::external_body]
fn ring_pop_slice(rb: &mut AudioBuffer, dest: &mut Vec<Sample>) -> (n: usize)
    ensures
        ring_capacity(*final(rb)) == ring_capacity(*old(rb)),
        n == (RingState { capacity: ring_capacity(*old(rb)), items: ring_items(*old(rb)) }).yields(
            old(dest)@.len(),
        ),
        ring_items(*final(rb)) == ring_items(*old(rb)).skip(n as int),
        final(dest)@ == ring_items(*old(rb)).take(n as int) + old(dest)@.skip(n as int),
{
    rb.rb.pop_slice(dest.as_mut_slice())
}

/// `Split::split` of ringbuf: the ring's two ends, each with the ring's
/// capacity. The ring keeps what it holds: the producer starts with the
/// places that are free, the consumer with the items that are there.
#[verifier::external_body]
fn ring_split(rb: AudioBuffer) -> (ends: (AudioProducer, AudioConsumer))
    ensures
        producer_capacity(ends.0) == ring_capacity(rb),
        consumer_capacity(ends.1) == ring_capacity(rb),
        producer_room(ends.0) == (ring_capacity(rb) - ring_items(rb).len()) as nat,
        consumer_items(ends.1) == ring_items(rb),
{
    let (producer, consumer) = rb.rb.split();
    (AudioProducer { inner: producer }, AudioConsumer { inner: consumer })
}

/// `Producer::push_slice` of ringbuf on the producer's end: it looks up
/// how far the consumer has read, appends the first items of the slice,
/// as many as there are free places, and returns their number. The free
/// places are those the producer could count on, or more where the
/// consumer has taken items out by then; what is left of them after the
/// push is what the producer can count on next. Where not all of the
/// slice went in, no place is left.
#[verifier::external_body]
fn producer_push_slice(producer: &mut AudioProducer, elems: &[Sample]) -> (n: usize)
    ensures
        producer_capacity(*final(producer)) == producer_capacity(*old(producer)),
        least(elems@.len(), producer_room(*old(producer))) <= n <= elems@.len(),
        producer_room(*old(producer)) <= producer_room(*final(producer)) + n
            <= producer_capacity(*old(producer)),
        n < elems@.len() ==> producer_room(*final(producer)) == 0,
{
    producer.inner.push_slice(elems)
}

/// `Observer::vacant_len` of ringbuf on the producer's end: the free
/// places seen at the moment of the call, no fewer than the producer
/// could count on and no more than the capacity.
#[verifier::external_body]
fn producer_vacant_len(producer: &AudioProducer) -> (n: usize)
    ensures
        producer_room(*producer) <= n <= producer_capacity(*producer),
{
    producer.inner.vacant_len()
}

/// `Observer::capacity` of ringbuf on the producer's end.
#[verifier::external_body]
fn producer_capacity_of(producer: &AudioProducer) -> (n: usize)
    ensures
        n == producer_capacity(*producer),
        n > 0,
{
    producer.inner.capacity().get()
}

/// `Consumer::pop_slice` of ringbuf on the consumer's end: it looks up
/// how far the producer has written, takes out the oldest items, as many
/// as the destination has places for, writes them to its beginning and
/// returns their number; the rest of the destination stays as it was. The
/// items there are those the consumer could count on, which come out
/// first and in order, and behind them what the producer has put in by
/// then. What stays in the ring is what the consumer can count on next;
/// where the destination was not filled, nothing stays.
#[verifier::external_body]
fn consumer_pop_slice(consumer: &mut AudioConsumer, dest: &mut Vec<Sample>) -> (n:
    usize)
    ensures
        consumer_capacity(*final(consumer)) == consumer_capacity(*old(consumer)),
        n <= old(dest)@.len(),
        final(dest)@.len() == old(dest)@.len(),
        final(dest)@.skip(n as int) == old(dest)@.skip(n as int),
        took(
            consumer_items(*old(consumer)),
            old(dest)@.len(),
            final(dest)@.take(n as int),
            consumer_items(*final(consumer)),
        ),
        consumer_items(*final(consumer)).len() + n <= consumer_capacity(*old(consumer)),
{
    consumer.inner.pop_slice(dest.as_mut_slice())
}

/// `Observer::occupied_len` of ringbuf on the consumer's end: the items
/// seen at the moment of the call, no fewer than the consumer could count
/// on and no more than the capacity.
#[verifier::external_body]
fn consumer_occupied_len(consumer: &AudioConsumer) -> (n: usize)
    ensures
        consumer_items(*consumer).len() <= n <= consumer_capacity(*consumer),
{
    consumer.inner.occupied_len()
}

/// `Observer::capacity` of ringbuf on the consumer's end.
#[verifier::external_body]
fn consumer_capacity_of(consumer: &AudioConsumer) -> (n: usize)
    ensures
        n == consumer_capacity(*consumer),
        n > 0,
{
    consumer.inner.capacity().get()
}

impl View for AudioBuffer {
    type V = RingState<Sample>;

    closed spec fn view(&self) -> RingState<Sample> {
        RingState { capacity: ring_capacity(*self), items: ring_items(*self) }
    }
}

impl AudioBuffer {
    /// An empty ring with room for `capacity` samples.
    pub fn new(capacity: usize) -> (buffer: Self)
        requires
            capacity > 0,
        ensures
            buffer@ == RingState::<Sample>::empty(capacity as nat),
    {
        ring_new(capacity)
    }

    /// An empty ring for two seconds of audio at 16 kHz.
    pub fn default_capacity() -> (buffer: Self)
        ensures
            buffer@ == RingState::<Sample>::empty(32000),
    {
        Self::new(16000 * 2)
    }

    /// Appends the samples that fit, in order, and returns their number.
    /// The rest of the slice is dropped.
    pub fn push(&mut self, samples: &[Sample]) -> (n: usize)
        requires
            old(self)@.wf(),
        ensures
            final(self)@.wf(),
            n == old(self)@.accepts(samples@),
            final(self)@ == old(self)@.push(samples@),
    {
        ring_push_slice(self, samples)
    }

    /// Takes out the oldest samples, as many as `dest` has places for,
    /// writes them to its beginning and returns their number.
    pub fn pop(&mut self, dest: &mut Vec<Sample>) -> (n: usize)
        requires
            old(self)@.wf(),
        ensures
            final(self)@.wf(),
            n == old(self)@.yields(old(dest)@.len()),
            final(self)@ == old(self)@.pop(old(dest)@.len()),
            final(dest)@ == old(self)@.popped(old(dest)@.len()) + old(dest)@.skip(n as int),
    {
        ring_pop_slice(self, dest)
    }

    /// Takes out up to `count` of the oldest samples.
    pub fn pop_vec(&mut self, count: usize) -> (samples: Vec<Sample>)
        requires
            old(self)@.wf(),
        ensures
            final(self)@.wf(),
            samples@ == old(self)@.popped(count as nat),
            final(self)@ == old(self)@.pop(count as nat),
    {
        let mut samples: Vec<Sample> = vec![0; count];
        let read = self.pop(&mut samples);
        samples.truncate(read);
        assert(samples@ =~= old(self)@.popped(count as nat));
        samples
    }

    /// The number of samples held.
    pub fn len(&self) -> (n: usize)
        ensures
            n == self@.items.len(),
    {
        ring_occupied_len(self)
    }

    /// Whether the ring holds nothing.
    pub fn is_empty(&self) -> (b: bool)
        ensures
            b == (self@.items.len() == 0),
    {
        ring_occupied_len(self) == 0
    }

    /// Whether no place is free.
    pub fn is_full(&self) -> (b: bool)
        ensures
            b == self@.is_full(),
    {
        ring_occupied_len(self) >= ring_capacity_of(self)
    }

    /// The number of free places.
    pub fn free_len(&self) -> (n: usize)
        requires
            self@.wf(),
        ensures
            n == self@.vacant(),
    {
        ring_capacity_of(self) - ring_occupied_len(self)
    }

    /// The capacity the ring was made with.
    pub fn capacity(&self) -> (n: usize)
        ensures
            n == self@.capacity,
            n > 0,
    {
        ring_capacity_of(self)
    }

    /// Splits the ring into its producer and its consumer end, which may
    /// then go to different threads.
    pub fn split(self) -> (ends: (AudioProducer, AudioConsumer))
        ensures
            ends.0.spec_capacity() == self@.capacity,
            ends.1.spec_capacity() == self@.capacity,
            ends.0.room() == self@.vacant(),
            ends.1.items() == self@.items,
    {
        ring_split(self)
    }
}

impl AudioProducer {
    /// The capacity of the ring.
    pub closed spec fn spec_capacity(&self) -> nat {
        producer_capacity(*self)
    }

    /// The free places the producer can count on: those there were when
    /// the ring was split or when it last pushed. The consumer may have
    /// freed more since.
    pub closed spec fn room(&self) -> nat {
        producer_room(*self)
    }

    /// Appends the first samples of the slice, as many as there are free
    /// places, and returns their number. All the places the producer
    /// could count on are there, so a slice no longer than that goes in
    /// whole; places the consumer has freed by then are used too. What
    /// is free after the push is what the producer can count on next;
    /// where not all of the slice went in, that is nothing.
    pub fn push(&mut self, samples: &[Sample]) -> (n: usize)
        ensures
            final(self).spec_capacity() == old(self).spec_capacity(),
            least(samples@.len(), old(self).room()) <= n <= samples@.len(),
            old(self).room() <= final(self).room() + n <= old(self).spec_capacity(),
            n < samples@.len() ==> final(self).room() == 0,
    {
        producer_push_slice(self, samples)
    }

    /// Whether no place was free at the moment of the call. It is never
    /// so while the producer can count on a free place.
    pub fn is_full(&self) -> (b: bool)
        ensures
            b ==> self.room() == 0,
    {
        producer_vacant_len(self) == 0
    }

    /// The free places at the moment of the call: no fewer than the
    /// producer can count on.
    pub fn free_len(&self) -> (n: usize)
        ensures
            self.room() <= n <= self.spec_capacity(),
    {
        producer_vacant_len(self)
    }

    /// The capacity of the ring.
    pub fn capacity(&self) -> (n: usize)
        ensures
            n == self.spec_capacity(),
            n > 0,
    {
        producer_capacity_of(self)
    }
}

impl AudioConsumer {
    /// The capacity of the ring.
    pub closed spec fn spec_capacity(&self) -> nat {
        consumer_capacity(*self)
    }

    /// The samples the consumer can count on, oldest first: those there
    /// were when the ring was split or when it last popped. The producer
    /// may have put more behind them since.
    pub closed spec fn items(&self) -> Seq<Sample> {
        consumer_items(*self)
    }

    /// Takes out the oldest samples, as many as `dest` has places for or
    /// all there are, writes them to its beginning and returns their
    /// number; the rest of `dest` stays as it was. The samples the
    /// consumer could count on come out first, in order; behind them come
    /// samples the producer has put in by then. See [`took`].
    pub fn pop(&mut self, dest: &mut Vec<Sample>) -> (n: usize)
        ensures
            final(self).spec_capacity() == old(self).spec_capacity(),
            n <= old(dest)@.len(),
            final(dest)@.len() == old(dest)@.len(),
            final(dest)@.skip(n as int) == old(dest)@.skip(n as int),
            took(
                old(self).items(),
                old(dest)@.len(),
                final(dest)@.take(n as int),
                final(self).items(),
            ),
            final(self).items().len() + n <= old(self).spec_capacity(),
    {
        consumer_pop_slice(self, dest)
    }

    /// Takes out the oldest samples, `count` of them or all there are.
    /// The samples the consumer could count on come out first, in order;
    /// behind them come samples the producer has put in by then. See
    /// [`took`].
    pub fn pop_vec(&mut self, count: usize) -> (samples: Vec<Sample>)
        ensures
            final(self).spec_capacity() == old(self).spec_capacity(),
            took(old(self).items(), count as nat, samples@, final(self).items()),
            final(self).items().len() + samples@.len() <= old(self).spec_capacity(),
    {
        let mut samples: Vec<Sample> = vec![0; count];
        let read = self.pop(&mut samples);
        let ghost filled = samples@;
        samples.truncate(read);
        assert(samples@ =~= filled.take(read as int));
        samples
    }

    /// Whether the ring held nothing at the moment of the call. It is
    /// never so while the consumer can count on a sample.
    pub fn is_empty(&self) -> (b: bool)
        ensures
            b ==> self.items().len() == 0,
    {
        consumer_occupied_len(self) == 0
    }

    /// The samples held at the moment of the call: no fewer than the
    /// consumer can count on.
    pub fn len(&self) -> (n: usize)
        ensures
            self.items().len() <= n <= self.spec_capacity(),
    {
        consumer_occupied_len(self)
    }

    /// The capacity of the ring.
    pub fn capacity(&self) -> (n: usize)
        ensures
            n == self.spec_capacity(),
            n > 0,
    {
        consumer_capacity_of(self)
    }
}

} // verus!
