//! What holds of the channel, the waker gate and the stream under every
//! order in which producer and consumer act.

use vstd::prelude::*;
use crate::channel::ChannelView;
use crate::reference::{consumed_reference, padded_reference};
use crate::sample::SILENCE;
use crate::stream::{SamplePoll, StreamView};

verus! {

/// A push stores no more than there are vacant places, and no more than it
/// was given; a full channel stores nothing and keeps what it holds.
pub proof fn law_push_never_exceeds_vacancy(channel: ChannelView, batch: Seq<u32>)
    ensures
        0 <= channel.accepted(batch) <= channel.vacant(),
        channel.accepted(batch) <= batch.len(),
        channel.push(batch).capacity == channel.capacity,
        channel.contents.len() <= channel.capacity ==> channel.push(batch).contents.len()
            <= channel.capacity,
        channel.is_full() ==> channel.accepted(batch) == 0 && channel.push(batch).contents
            == channel.contents,
{
}

/// What overflows is the newest: a push keeps everything the channel held,
/// in order and in front, and appends a prefix of the batch.
pub proof fn law_push_drops_newest(channel: ChannelView, batch: Seq<u32>)
    ensures
        channel.push(batch).contents.take(channel.contents.len() as int) == channel.contents,
        channel.push(batch).contents.skip(channel.contents.len() as int) == batch.take(
            channel.accepted(batch),
        ),
        channel.dropped <= u64::MAX ==> channel.dropped <= channel.push(batch).dropped <= u64::MAX,
        channel.dropped + (batch.len() - channel.accepted(batch)) <= u64::MAX ==> channel.push(
            batch,
        ).dropped == channel.dropped + (batch.len() - channel.accepted(batch)),
{
}

/// Samples come out in the order they went in: a channel with room for the
/// whole batch, emptied after the push, gives back what it held and then the
/// batch.
pub proof fn law_channel_is_first_in_first_out(channel: ChannelView, batch: Seq<u32>)
    requires
        channel.contents.len() + batch.len() <= channel.capacity,
    ensures
        channel.push(batch).contents == channel.contents + batch,
        channel.contents.len() > 0 ==> channel.push(batch).front() == channel.front(),
        channel.contents.len() == 0 && batch.len() > 0 ==> channel.push(batch).front() == Some(
            batch[0],
        ),
{
}

/// A delivery after the registration wakes the registered waiter, and the
/// next poll finds a sample.
pub proof fn law_delivery_after_registration_is_observed<W>(
    stream: StreamView<W>,
    waker: W,
    batch: Seq<u32>,
)
    requires
        batch.len() > 0,
        stream.channel.contents.len() < stream.channel.capacity,
    ensures
        stream.parked(waker).woken_by(batch) == Some(waker),
        stream.parked(waker).delivered(batch).gate.has_data,
        stream.parked(waker).delivered(batch).gate.waiter is None,
        stream.parked(waker).delivered(batch).poll_result() is Ready,
        stream.channel.contents.len() == 0 ==> stream.parked(waker).delivered(
            batch,
        ).poll_result() == SamplePoll::Ready(batch[0]),
{
}

/// A delivery that arrives between the consumer's look at an empty channel
/// and its registration is found by the second look.
pub proof fn law_delivery_before_registration_is_observed<W>(
    stream: StreamView<W>,
    waker: W,
    batch: Seq<u32>,
)
    requires
        batch.len() > 0,
        stream.channel.contents.len() == 0,
        stream.channel.capacity > 0,
    ensures
        stream.delivered(batch).parked(waker).poll_result() == SamplePoll::Ready(batch[0]),
{
}

/// Wake-ups coalesce: once a delivery has woken the waiter, further
/// deliveries wake nobody until a waiter registers again.
pub proof fn law_wakes_coalesce<W>(stream: StreamView<W>, first: Seq<u32>, second: Seq<u32>)
    requires
        stream.channel.accepted(first) > 0,
    ensures
        stream.delivered(first).gate.has_data,
        stream.delivered(first).woken_by(second) is None,
        stream.delivered(first).delivered(second).gate == stream.delivered(first).gate,
{
}

/// The flag is level-triggered: it is off after every registration, and a
/// delivery turns it on only by storing a sample.
pub proof fn law_flag_means_unobserved_data<W>(stream: StreamView<W>, waker: W, batch: Seq<u32>)
    ensures
        !stream.parked(waker).gate.has_data,
        stream.delivered(batch).gate.has_data ==> stream.gate.has_data || stream.channel.accepted(
            batch,
        ) > 0,
        stream.delivered(batch).gate.has_data && !stream.gate.has_data ==> stream.delivered(
            batch,
        ).channel.contents.len() > 0,
{
}

/// A delivery that stores nothing wakes nobody and leaves the waker gate alone.
pub proof fn law_empty_delivery_wakes_nobody<W>(stream: StreamView<W>, batch: Seq<u32>)
    requires
        stream.channel.accepted(batch) == 0,
    ensures
        stream.woken_by(batch) is None,
        stream.delivered(batch).gate == stream.gate,
{
}

/// Something the producer or the consumer does to a stream between two
/// polls.
pub enum StreamOp<W> {
    /// The producer delivers a batch.
    Deliver(Seq<u32>),
    /// The consumer registers a waiter.
    Park(W),
}

/// The stream after one operation.
pub open spec fn after_op<W>(stream: StreamView<W>, op: StreamOp<W>) -> StreamView<W> {
    match op {
        StreamOp::Deliver(batch) => stream.delivered(batch),
        StreamOp::Park(waker) => stream.parked(waker),
    }
}

/// The stream after a sequence of operations, first to last.
pub open spec fn after_ops<W>(stream: StreamView<W>, ops: Seq<StreamOp<W>>) -> StreamView<W>
    decreases ops.len(),
{
    if ops.len() == 0 {
        stream
    } else {
        after_op(after_ops(stream, ops.drop_last()), ops.last())
    }
}

/// Whether the operation delivers at least one sample.
pub open spec fn delivers_something<W>(op: StreamOp<W>) -> bool {
    op matches StreamOp::Deliver(batch) && batch.len() > 0
}

/// Deliveries and registrations never take a sample out of the channel.
proof fn lemma_ops_keep_samples<W>(stream: StreamView<W>, ops: Seq<StreamOp<W>>)
    ensures
        after_ops(stream, ops).channel.contents.len() >= stream.channel.contents.len(),
        after_ops(stream, ops).channel.capacity == stream.channel.capacity,
    decreases ops.len(),
{
    if ops.len() > 0 {
        lemma_ops_keep_samples(stream, ops.drop_last());
    }
}

/// No lost wake-up: however deliveries and registrations interleave, if one
/// of the deliveries brought a sample, the consumer's next poll finds one.
pub proof fn law_no_delivery_is_missed<W>(stream: StreamView<W>, ops: Seq<StreamOp<W>>, at: int)
    requires
        stream.channel.capacity > 0,
        0 <= at < ops.len(),
        delivers_something(ops[at]),
    ensures
        after_ops(stream, ops).poll_result() is Ready,
    decreases ops.len(),
{
    lemma_ops_keep_samples(stream, ops.drop_last());
    if at < ops.len() - 1 {
        law_no_delivery_is_missed(stream, ops.drop_last(), at);
    }
}

/// The waiters handed out for waking while the operations ran, in order.
pub open spec fn woken_during<W>(stream: StreamView<W>, ops: Seq<StreamOp<W>>) -> Seq<W>
    decreases ops.len(),
{
    if ops.len() == 0 {
        Seq::empty()
    } else {
        let earlier = woken_during(stream, ops.drop_last());
        match ops.last() {
            StreamOp::Deliver(batch) => match after_ops(stream, ops.drop_last()).woken_by(batch) {
                Some(waker) => earlier.push(waker),
                None => earlier,
            },
            StreamOp::Park(waker) => earlier,
        }
    }
}

/// Whether every operation is a delivery.
pub open spec fn only_deliveries<W>(ops: Seq<StreamOp<W>>) -> bool {
    forall|i: int| 0 <= i < ops.len() ==> #[trigger] ops[i] is Deliver
}

/// Exactly one waiter, exactly once: of the deliveries that follow a
/// registration, the first that stores a sample wakes the registered waiter,
/// and no other wakes anybody. The waiter is woken if and only if a sample
/// arrived.
pub proof fn law_registered_waiter_is_woken_once<W>(
    stream: StreamView<W>,
    waker: W,
    ops: Seq<StreamOp<W>>,
)
    requires
        only_deliveries(ops),
    ensures
        woken_during(stream.parked(waker), ops) == if after_ops(
            stream.parked(waker),
            ops,
        ).gate.has_data {
            seq![waker]
        } else {
            Seq::empty()
        },
        after_ops(stream.parked(waker), ops).gate.has_data <==> after_ops(
            stream.parked(waker),
            ops,
        ).channel.contents.len() > stream.channel.contents.len(),
        !after_ops(stream.parked(waker), ops).gate.has_data ==> after_ops(
            stream.parked(waker),
            ops,
        ).gate.waiter == Some(waker),
    decreases ops.len(),
{
    if ops.len() > 0 {
        assert(only_deliveries(ops.drop_last()));
        law_registered_waiter_is_woken_once(stream, waker, ops.drop_last());
        lemma_ops_keep_samples(stream.parked(waker), ops.drop_last());
    }
}

/// A reference that was never fed gives a render cycle nothing but silence,
/// of exactly the length asked for, and is left as it was.
pub proof fn law_starved_reference_is_silence(frames: nat)
    ensures
        padded_reference(Seq::<u32>::empty(), frames) == Seq::new(frames, |i: int| SILENCE),
        padded_reference(Seq::<u32>::empty(), frames).len() == frames,
        consumed_reference(0, frames) == 0,
{
}

/// A render cycle draws exactly as many reference samples as it has frames,
/// whatever the reference holds.
pub proof fn law_reference_matches_frames(contents: Seq<u32>, frames: nat)
    ensures
        padded_reference(contents, frames).len() == frames,
        forall|i: int|
            0 <= i < frames ==> #[trigger] padded_reference(contents, frames)[i] == if i
                < contents.len() {
                contents[i]
            } else {
                SILENCE
            },
        0 <= consumed_reference(contents.len(), frames) <= contents.len(),
        consumed_reference(contents.len(), frames) <= frames,
{
}

} // verus!
