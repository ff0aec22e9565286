//! The bounded first-in first-out channel that carries samples from the
//! render callback to the consumer.
//!
//! A sample travels as the 32 bits of its single-precision encoding, so that
//! silence is the value 0. The storage is a `ringbuf` heap ring buffer; what
//! this module assumes of it is stated on the four functions that call it.

use vstd::prelude::*;

verus! {

/// Capacity, in samples, of the channels a capture session creates.
pub const CHANNEL_CAPACITY: usize = 8192;

/// Largest capacity a channel can be created with.
pub const MAX_CHANNEL_CAPACITY: usize = 0x0100_0000;

/// A `ringbuf::HeapRb<u32>`, which is `SharedRb<Heap<u32>>`, held unsplit, so
/// that one owner pushes and pops. Nothing but the four functions below
/// touches it.
#[verifier::external_body]
pub struct SampleRing {
    ring: ringbuf::HeapRb<u32>,
}

/// The items a ring buffer holds, eldest first.
pub uninterp spec fn ring_contents(ring: &SampleRing) -> Seq<u32>;

/// The number of items a ring buffer was created to hold.
pub uninterp spec fn ring_capacity(ring: &SampleRing) -> nat;

/// `ringbuf::HeapRb::<u32>::new`: an empty ring buffer of exactly the
/// capacity asked for. The call panics on a capacity of zero, which the
/// precondition leaves out.
#[verifier::external_body]
fn ring_new(capacity: usize) -> (ring: SampleRing)
    requires
        0 < capacity <= MAX_CHANNEL_CAPACITY,
    ensures
        ring_contents(&ring) == Seq::<u32>::empty(),
        ring_capacity(&ring) == capacity as nat,
{
    SampleRing { ring: ringbuf::HeapRb::<u32>::new(capacity) }
}

/// `ringbuf::traits::Producer::push_slice` on an unsplit ring buffer: appends
/// as many leading items of the slice as there are vacant places, in order,
/// and returns how many it appended. It does not panic.
#[verifier::external_body]
fn ring_push_slice(ring: &mut SampleRing, elems: &[u32]) -> (count: usize)
    ensures
        count as int == spec_accepted(
            ring_contents(old(ring)).len(),
            ring_capacity(old(ring)),
            elems@.len(),
        ),
        ring_contents(final(ring)) == ring_contents(old(ring)) + elems@.take(count as int),
        ring_capacity(final(ring)) == ring_capacity(old(ring)),
    no_unwind
{
    ringbuf::traits::Producer::push_slice(&mut ring.ring, elems)
}

/// `ringbuf::traits::Producer::try_push` on an unsplit ring buffer: appends
/// the item unless the buffer is full, in which case the item comes back.
/// It does not panic.
#[verifier::external_body]
fn ring_try_push(ring: &mut SampleRing, elem: u32) -> (outcome: Result<(), u32>)
    ensures
        outcome is Ok <==> ring_contents(old(ring)).len() < ring_capacity(old(ring)),
        outcome is Ok ==> ring_contents(final(ring)) == ring_contents(old(ring)).push(elem),
        outcome matches Err(back) ==> back == elem && ring_contents(final(ring)) == ring_contents(
            old(ring),
        ),
        ring_capacity(final(ring)) == ring_capacity(old(ring)),
    no_unwind
{
    ringbuf::traits::Producer::try_push(&mut ring.ring, elem)
}

/// `ringbuf::traits::Consumer::try_pop` on an unsplit ring buffer: removes and
/// returns the eldest item, or returns `None` when the buffer is empty. It
/// does not panic.
#[verifier::external_body]
fn ring_try_pop(ring: &mut SampleRing) -> (item: Option<u32>)
    ensures
        item is Some <==> ring_contents(old(ring)).len() > 0,
        item matches Some(eldest) ==> eldest == ring_contents(old(ring))[0] && ring_contents(
            final(ring),
        ) == ring_contents(old(ring)).skip(1),
        item is None ==> ring_contents(final(ring)) == ring_contents(old(ring)),
        ring_capacity(final(ring)) == ring_capacity(old(ring)),
    no_unwind
{
    ringbuf::traits::Consumer::try_pop(&mut ring.ring)
}

/// How many of `offered` items a channel that holds `held` of `capacity`
/// items takes in: all that fit, and never a negative number.
pub open spec fn spec_accepted(held: nat, capacity: nat, offered: nat) -> int {
    if capacity <= held {
        0
    } else if offered <= capacity - held {
        offered as int
    } else {
        capacity - held
    }
}

/// What a channel is, as a value: its samples eldest first, the capacity it
/// was created with, and the count of samples it has had to drop.
pub struct ChannelView {
    pub contents: Seq<u32>,
    pub capacity: nat,
    pub dropped: nat,
}

impl ChannelView {
    /// An empty channel of the given capacity that has dropped nothing.
    pub open spec fn empty(capacity: nat) -> ChannelView {
        ChannelView { contents: Seq::empty(), capacity, dropped: 0 }
    }

    /// The number of vacant places.
    pub open spec fn vacant(self) -> int {
        if self.capacity <= self.contents.len() {
            0
        } else {
            self.capacity - self.contents.len()
        }
    }

    pub open spec fn is_full(self) -> bool {
        self.contents.len() >= self.capacity
    }

    /// How many leading samples of `batch` a push stores.
    pub open spec fn accepted(self, batch: Seq<u32>) -> int {
        spec_accepted(self.contents.len(), self.capacity, batch.len())
    }

    /// The channel after a push of `batch`: the samples that fit are appended
    /// in order, the rest are counted as dropped. The counter stops at the
    /// largest value it can hold.
    pub open spec fn push(self, batch: Seq<u32>) -> ChannelView {
        let stored = self.accepted(batch);
        let lost = batch.len() - stored;
        ChannelView {
            contents: self.contents + batch.take(stored),
            capacity: self.capacity,
            dropped: if self.dropped + lost > u64::MAX {
                u64::MAX as nat
            } else {
                (self.dropped + lost) as nat
            },
        }
    }

    /// The sample a pop returns.
    pub open spec fn front(self) -> Option<u32> {
        if self.contents.len() > 0 {
            Some(self.contents[0])
        } else {
            None
        }
    }

    /// The channel after a pop: without its eldest sample, if it had one.
    pub open spec fn pop(self) -> ChannelView {
        if self.contents.len() > 0 {
            ChannelView { contents: self.contents.skip(1), ..self }
        } else {
            self
        }
    }
}

/// A bounded channel of samples. A push never waits and never fails: what
/// does not fit is dropped, newest first, and counted.
pub struct SampleChannel {
    ring: SampleRing,
    dropped: u64,
}

impl View for SampleChannel {
    type V = ChannelView;

    closed spec fn view(&self) -> ChannelView {
        ChannelView {
            contents: ring_contents(&self.ring),
            capacity: ring_capacity(&self.ring),
            dropped: self.dropped as nat,
        }
    }
}

impl SampleChannel {
    #[verifier::type_invariant]
    spec fn bounded(self) -> bool {
        &&& 0 < ring_capacity(&self.ring) <= MAX_CHANNEL_CAPACITY
        &&& ring_contents(&self.ring).len() <= ring_capacity(&self.ring)
    }

    /// A channel of the capacity capture sessions use.
    pub fn new() -> (channel: SampleChannel)
        ensures
            channel@ == ChannelView::empty(CHANNEL_CAPACITY as nat),
    {
        SampleChannel { ring: ring_new(CHANNEL_CAPACITY), dropped: 0 }
    }

    /// A channel of the given capacity, or `None` where the capacity is zero
    /// or larger than [`MAX_CHANNEL_CAPACITY`].
    pub fn with_capacity(capacity: usize) -> (channel: Option<SampleChannel>)
        ensures
            channel is Some <==> 0 < capacity <= MAX_CHANNEL_CAPACITY,
            channel matches Some(c) ==> c@ == ChannelView::empty(capacity as nat),
    {
        if capacity == 0 || capacity > MAX_CHANNEL_CAPACITY {
            None
        } else {
            Some(SampleChannel { ring: ring_new(capacity), dropped: 0 })
        }
    }

    /// Stores as many leading samples of `samples` as fit and returns their
    /// number; the others are dropped and counted.
    pub fn push_slice(&mut self, samples: &[u32]) -> (stored: usize)
        ensures
            stored as int == old(self)@.accepted(samples@),
            stored <= samples@.len(),
            stored as int <= old(self)@.vacant(),
            final(self)@ == old(self)@.push(samples@),
    {
        proof {
            use_type_invariant(&*self);
        }
        let stored = ring_push_slice(&mut self.ring, samples);
        let lost = samples.len() - stored;
        self.dropped = self.dropped.saturating_add(lost as u64);
        stored
    }

    /// Stores one sample unless the channel is full; says whether it did. A
    /// sample that does not fit is dropped and counted.
    pub fn try_push(&mut self, sample: u32) -> (stored: bool)
        ensures
            stored == !old(self)@.is_full(),
            final(self)@ == old(self)@.push(seq![sample]),
    {
        proof {
            use_type_invariant(&*self);
        }
        let outcome = ring_try_push(&mut self.ring, sample);
        match outcome {
            Ok(()) => {
                assert(ring_contents(&self.ring) =~= old(self)@.contents + seq![sample].take(1));
                true
            },
            Err(_) => {
                self.dropped = self.dropped.saturating_add(1);
                false
            },
        }
    }

    /// Removes and returns the eldest sample, if there is one.
    pub fn try_pop(&mut self) -> (sample: Option<u32>)
        ensures
            sample == old(self)@.front(),
            final(self)@ == old(self)@.pop(),
    {
        proof {
            use_type_invariant(&*self);
        }
        ring_try_pop(&mut self.ring)
    }

    /// The number of samples dropped so far.
    pub fn dropped(&self) -> (count: u64)
        ensures
            count as nat == self@.dropped,
    {
        self.dropped
    }
}

} // verus!
