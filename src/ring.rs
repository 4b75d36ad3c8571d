//! The latency ring: a bounded FIFO of sample bit patterns between the capture
//! and the playback callback, backed by `ringbuf`'s lock-free heap ring.
use vstd::prelude::*;
use ringbuf::{HeapConsumer, HeapProducer, HeapRb, Rb};

verus! {

/// Bit pattern of the silent sample (+0.0).
pub const SILENCE: u32 = 0;

/// A sequence of `n` silent samples.
pub open spec fn silence(n: nat) -> Seq<u32> {
    Seq::new(n, |i: int| SILENCE)
}

/// The ring buffer before it is split between the two audio callbacks.
#[verifier::external_body]
pub struct SampleRing {
    rb: HeapRb<u32>,
}

/// Samples held by the ring, oldest first.
pub uninterp spec fn ring_items(r: SampleRing) -> Seq<u32>;

/// Number of samples the ring was created to hold.
pub uninterp spec fn ring_capacity(r: SampleRing) -> nat;

/// Outcome of one push: the new contents and whether the sample was taken.
pub open spec fn push_spec(items: Seq<u32>, capacity: nat, s: u32) -> (Seq<u32>, bool) {
    if items.len() < capacity {
        (items.push(s), true)
    } else {
        (items, false)
    }
}

/// Outcome of one pop: the new contents and the sample taken, if any.
pub open spec fn pop_spec(items: Seq<u32>) -> (Seq<u32>, Option<u32>) {
    if items.len() == 0 {
        (items, None)
    } else {
        (items.drop_first(), Some(items[0]))
    }
}

/// Outcome of pushing `samples` one after the other: the contents, and for
/// each sample whether it was taken.
pub open spec fn push_all(items: Seq<u32>, capacity: nat, samples: Seq<u32>) -> (Seq<u32>, Seq<bool>)
    decreases samples.len(),
{
    if samples.len() == 0 {
        (items, Seq::empty())
    } else {
        let (before, taken) = push_all(items, capacity, samples.drop_last());
        let (after, ok) = push_spec(before, capacity, samples.last());
        (after, taken.push(ok))
    }
}

proof fn lemma_push_all_with_room(items: Seq<u32>, capacity: nat, samples: Seq<u32>)
    requires
        items.len() + samples.len() <= capacity,
    ensures
        push_all(items, capacity, samples).0 == items + samples,
        push_all(items, capacity, samples).1 == Seq::new(samples.len(), |i: int| true),
    decreases samples.len(),
{
    if samples.len() > 0 {
        lemma_push_all_with_room(items, capacity, samples.drop_last());
        assert((items + samples.drop_last()).push(samples.last()) =~= items + samples);
        assert(Seq::new((samples.len() - 1) as nat, |i: int| true).push(true) =~= Seq::new(samples.len(), |i: int| true));
    }
}

/// A ring primed for latency `L` holds `L` silent samples and `L` free
/// slots: `L` further pushes all succeed, the next one is refused, and once
/// a sample is popped a push succeeds again.
pub proof fn lemma_primed_ring_room(latency: nat, samples: Seq<u32>, extra: u32)
    requires
        latency > 0,
        samples.len() == latency,
    ensures
        silence(latency).len() == latency,
        forall|i: int| 0 <= i < latency ==> #[trigger] silence(latency)[i] == SILENCE,
        2 * latency - silence(latency).len() == latency,
        push_all(silence(latency), 2 * latency, samples).0 == silence(latency) + samples,
        forall|i: int| 0 <= i < latency ==> #[trigger] push_all(silence(latency), 2 * latency, samples).1[i],
        !push_spec(push_all(silence(latency), 2 * latency, samples).0, 2 * latency, extra).1,
        push_spec(pop_spec(push_all(silence(latency), 2 * latency, samples).0).0, 2 * latency, extra).1,
{
    lemma_push_all_with_room(silence(latency), 2 * latency, samples);
}

/// Relies on ringbuf's `SharedRb::new` (as `HeapRb::new`): an empty ring of
/// the given capacity. It panics on a zero capacity, and when the storage
/// (four bytes a sample) would exceed `isize::MAX` bytes.
#[verifier::external_body]
fn heap_ring(capacity: usize) -> (r: SampleRing)
    requires
        0 < capacity <= isize::MAX / 4,
    ensures
        ring_items(r) == Seq::<u32>::empty(),
        ring_capacity(r) == capacity,
{
    SampleRing { rb: HeapRb::new(capacity) }
}

/// Relies on ringbuf's `Rb::push`: the item is appended unless the ring is full.
#[verifier::external_body]
fn ring_push(r: &mut SampleRing, s: u32) -> (ok: bool)
    ensures
        (ring_items(*final(r)), ok) == push_spec(ring_items(*old(r)), ring_capacity(*old(r)), s),
        ring_capacity(*final(r)) == ring_capacity(*old(r)),
{
    r.rb.push(s).is_ok()
}

/// Relies on ringbuf's `Rb::pop`: the oldest item leaves, `None` when empty.
#[verifier::external_body]
fn ring_pop(r: &mut SampleRing) -> (out: Option<u32>)
    ensures
        (ring_items(*final(r)), out) == pop_spec(ring_items(*old(r))),
        ring_capacity(*final(r)) == ring_capacity(*old(r)),
{
    r.rb.pop()
}

/// Relies on ringbuf's `Rb::len`: the number of items held.
#[verifier::external_body]
fn ring_len(r: &SampleRing) -> (n: usize)
    ensures
        n == ring_items(*r).len(),
        n <= ring_capacity(*r),
{
    r.rb.len()
}

/// Relies on ringbuf's `Rb::capacity`: the capacity given at creation.
#[verifier::external_body]
fn ring_cap(r: &SampleRing) -> (n: usize)
    ensures
        n == ring_capacity(*r),
{
    r.rb.capacity()
}

/// Capture side of a split ring, moved into the input callback.
#[verifier::external_body]
pub struct SampleProducer {
    half: HeapProducer<u32>,
}

/// Playback side of a split ring, moved into the output callback.
#[verifier::external_body]
pub struct SampleConsumer {
    half: HeapConsumer<u32>,
}

/// Samples a producer half has placed in its ring, in the order it placed
/// them.
pub uninterp spec fn producer_accepted(p: SampleProducer) -> Seq<u32>;

/// Whether the samples of `a` occur in `b` in the same order, not
/// necessarily next to each other.
pub open spec fn is_subsequence(a: Seq<u32>, b: Seq<u32>) -> bool
    decreases b.len(),
{
    if a.len() == 0 {
        true
    } else if b.len() == 0 {
        false
    } else {
        (a.last() == b.last() && is_subsequence(a.drop_last(), b.drop_last())) || is_subsequence(a, b.drop_last())
    }
}

/// Relies on ringbuf's `SharedRb::split`: the two halves of one ring; the
/// producer half has placed nothing yet.
#[verifier::external_body]
fn ring_split(r: SampleRing) -> (halves: (SampleProducer, SampleConsumer))
    ensures
        producer_accepted(halves.0) == Seq::<u32>::empty(),
{
    let (p, c) = r.rb.split();
    (SampleProducer { half: p }, SampleConsumer { half: c })
}

/// Relies on ringbuf's `Producer::push`: the sample is written to the ring
/// exactly when the push succeeds. Whether it does depends on the consumer
/// half, which runs concurrently.
#[verifier::external_body]
fn producer_push(p: &mut SampleProducer, s: u32) -> (ok: bool)
    ensures
        producer_accepted(*final(p)) == (if ok {
            producer_accepted(*old(p)).push(s)
        } else {
            producer_accepted(*old(p))
        }),
{
    p.half.push(s).is_ok()
}

/// Relies on ringbuf's `Consumer::pop`. The other half runs concurrently,
/// so nothing is known of the outcome.
#[verifier::external_body]
fn consumer_pop(c: &mut SampleConsumer) -> (out: Option<u32>) {
    c.half.pop()
}

impl SampleProducer {
    /// Pushes every sample of a captured block, in order; a sample that
    /// finds the ring full is dropped. Returns how many were dropped: a
    /// non-zero count means playback is lagging behind capture.
    pub fn capture(&mut self, block: &[u32]) -> (dropped: usize)
        ensures
            producer_accepted(*old(self)).is_prefix_of(producer_accepted(*final(self))),
            is_subsequence(producer_accepted(*final(self)).skip(producer_accepted(*old(self)).len() as int), block@),
            producer_accepted(*final(self)).len() + dropped == producer_accepted(*old(self)).len() + block@.len(),
    {
        let ghost start = producer_accepted(*self);
        let mut dropped: usize = 0;
        let mut i: usize = 0;
        while i < block.len()
            invariant
                i <= block@.len(),
                dropped <= i,
                start.is_prefix_of(producer_accepted(*self)),
                is_subsequence(producer_accepted(*self).skip(start.len() as int), block@.take(i as int)),
                producer_accepted(*self).len() + dropped == start.len() + i,
            decreases block@.len() - i,
        {
            let ghost before = producer_accepted(*self);
            let ok = producer_push(self, block[i]);
            proof {
                let after = producer_accepted(*self);
                let t = block@.take(i as int + 1);
                assert(t.drop_last() =~= block@.take(i as int));
                assert(t.last() == block@[i as int]);
                if ok {
                    assert(after.skip(start.len() as int).drop_last() =~= before.skip(start.len() as int));
                    assert(start =~= after.take(start.len() as int));
                } else {
                    assert(after.skip(start.len() as int) =~= before.skip(start.len() as int));
                }
                if after.skip(start.len() as int).len() > 0 {
                    assert(is_subsequence(after.skip(start.len() as int), t));
                }
            }
            if !ok {
                dropped += 1;
            }
            i += 1;
        }
        assert(block@.take(block@.len() as int) =~= block@);
        dropped
    }
}

/// The sample to play for what a pop returned: the sample itself, flagged
/// as fresh, or silence, flagged as a gap.
pub open spec fn playback_of(popped: Option<u32>) -> (u32, bool) {
    match popped {
        Some(s) => (s, true),
        None => (SILENCE, false),
    }
}

/// The sample to play for what a pop of the ring returned.
pub fn sample_or_silence(popped: Option<u32>) -> (r: (u32, bool))
    ensures
        r == playback_of(popped),
{
    match popped {
        Some(s) => (s, true),
        None => (SILENCE, false),
    }
}

impl SampleConsumer {
    /// The next sample for playback: the oldest buffered one, or silence
    /// when capture is lagging. The flag tells which.
    pub fn next_or_silence(&mut self) -> (r: (u32, bool))
        ensures
            !r.1 ==> r.0 == SILENCE,
    {
        sample_or_silence(consumer_pop(self))
    }
}

impl SampleRing {
    /// A ring of capacity `2 * latency` that already holds `latency` silent
    /// samples, so that playback starts `latency` samples behind capture.
    pub fn primed(latency: usize) -> (r: SampleRing)
        requires
            0 < latency <= isize::MAX / 8,
        ensures
            ring_items(r) == silence(latency as nat),
            ring_capacity(r) == 2 * latency,
    {
        let mut r = heap_ring(2 * latency);
        let mut i: usize = 0;
        while i < latency
            invariant
                i <= latency,
                ring_items(r) == silence(i as nat),
                ring_capacity(r) == 2 * latency,
            decreases latency - i,
        {
            let ok = ring_push(&mut r, SILENCE);
            assert(ok);
            i += 1;
            assert(ring_items(r) =~= silence(i as nat));
        }
        r
    }

    /// Appends `s`; returns false, and keeps the ring as it was, when full.
    pub fn push(&mut self, s: u32) -> (ok: bool)
        ensures
            (ring_items(*final(self)), ok) == push_spec(ring_items(*old(self)), ring_capacity(*old(self)), s),
            ring_capacity(*final(self)) == ring_capacity(*old(self)),
    {
        ring_push(self, s)
    }

    /// Removes and returns the oldest sample; `None` when empty.
    pub fn pop(&mut self) -> (out: Option<u32>)
        ensures
            (ring_items(*final(self)), out) == pop_spec(ring_items(*old(self))),
            ring_capacity(*final(self)) == ring_capacity(*old(self)),
    {
        ring_pop(self)
    }

    /// Number of samples held.
    pub fn len(&self) -> (n: usize)
        ensures
            n == ring_items(*self).len(),
    {
        ring_len(self)
    }

    /// Number of samples that can still be pushed.
    pub fn free_len(&self) -> (n: usize)
        ensures
            n == ring_capacity(*self) - ring_items(*self).len(),
    {
        let cap = ring_cap(self);
        let len = ring_len(self);
        cap - len
    }

    /// Hands the ring over to the two callbacks: the producer half for
    /// capture, the consumer half for playback. The ring is consumed, so a
    /// new session always needs a new ring.
    pub fn split(self) -> (SampleProducer, SampleConsumer) {
        ring_split(self)
    }

    /// Number of samples the ring can hold.
    pub fn capacity(&self) -> (n: usize)
        ensures
            n == ring_capacity(*self),
    {
        ring_cap(self)
    }
}

} // verus!
