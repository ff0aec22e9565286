//! The pull side of a capture session, and the render cycle that feeds it.
//!
//! The render callback delivers what the host rendered and is told which
//! waiter to wake. The consumer polls: it takes the next sample where one is
//! buffered, and otherwise registers its waiter, looks once more, and yields.
//! The second look closes the gap in which samples could arrive between the
//! first look and the registration.

use vstd::prelude::*;
use crate::audiounit::NO_ERR;
use crate::channel::{ChannelView, SampleChannel, CHANNEL_CAPACITY, MAX_CHANNEL_CAPACITY};
use crate::engine::{CaptureConfig, CaptureEngine};
use crate::reference::{consumed_reference, padded_reference, ReferenceRouter};
use crate::waker::WakerGate;

verus! {

/// What a poll found.
#[derive(Debug, PartialEq, Eq, Structural)]
pub enum SamplePoll {
    /// The next sample.
    Ready(u32),
    /// Nothing is buffered; the waiter is registered.
    Pending,
    /// Nothing is buffered and no render cycle comes any more.
    Ended,
}

/// What a delivery did.
pub struct Delivery<W> {
    /// The number of samples stored.
    pub stored: usize,
    /// The number of samples that did not fit.
    pub lost: usize,
    /// The waiter to wake, if the delivery calls for one.
    pub wake: Option<W>,
}

/// What a stream is, as a value.
pub struct StreamView<W> {
    pub channel: ChannelView,
    pub gate: WakerGate<W>,
    pub sample_rate: u32,
}

impl<W> StreamView<W> {
    /// A stream that holds nothing and has nobody waiting.
    pub open spec fn empty(sample_rate: u32, capacity: nat) -> StreamView<W> {
        StreamView {
            channel: ChannelView::empty(capacity),
            gate: WakerGate::spec_new(),
            sample_rate,
        }
    }

    /// The stream after the consumer took the next sample, if there was one.
    pub open spec fn taken(self) -> StreamView<W> {
        StreamView { channel: self.channel.pop(), ..self }
    }

    /// The stream after the consumer registered `waker`.
    pub open spec fn parked(self, waker: W) -> StreamView<W> {
        StreamView { gate: self.gate.registered(waker), ..self }
    }

    /// The stream after the producer delivered `batch`.
    pub open spec fn delivered(self, batch: Seq<u32>) -> StreamView<W> {
        StreamView {
            channel: self.channel.push(batch),
            gate: self.gate.notified(self.channel.accepted(batch) as nat),
            ..self
        }
    }

    /// The waiter that a delivery of `batch` wakes.
    pub open spec fn woken_by(self, batch: Seq<u32>) -> Option<W> {
        self.gate.woken(self.channel.accepted(batch) as nat)
    }

    /// What a poll returns.
    pub open spec fn poll_result(self) -> SamplePoll {
        match self.channel.front() {
            Some(sample) => SamplePoll::Ready(sample),
            None => SamplePoll::Pending,
        }
    }

    /// The stream after a poll with `waker`: without its eldest sample where
    /// it had one, and with the waiter registered where it had none.
    pub open spec fn polled(self, waker: W) -> StreamView<W> {
        if self.channel.contents.len() > 0 {
            self.taken()
        } else {
            self.parked(waker)
        }
    }
}

/// A lazy sequence of samples, fed by the render callback. It does not end
/// by itself and cannot be restarted.
pub struct AsyncSampleStream<W> {
    channel: SampleChannel,
    gate: WakerGate<W>,
    sample_rate: u32,
}

impl<W> View for AsyncSampleStream<W> {
    type V = StreamView<W>;

    closed spec fn view(&self) -> StreamView<W> {
        StreamView { channel: self.channel@, gate: self.gate, sample_rate: self.sample_rate }
    }
}

impl<W> AsyncSampleStream<W> {
    /// An empty stream with a channel of the usual capacity.
    pub fn new(sample_rate: u32) -> (stream: AsyncSampleStream<W>)
        ensures
            stream@ == StreamView::<W>::empty(sample_rate, CHANNEL_CAPACITY as nat),
    {
        AsyncSampleStream { channel: SampleChannel::new(), gate: WakerGate::new(), sample_rate }
    }

    /// An empty stream with a channel of the given capacity, or `None` where
    /// no channel of that capacity can be had.
    pub fn with_capacity(sample_rate: u32, capacity: usize) -> (stream: Option<
        AsyncSampleStream<W>,
    >)
        ensures
            stream is Some <==> 0 < capacity <= MAX_CHANNEL_CAPACITY,
            stream matches Some(s) ==> s@ == StreamView::<W>::empty(sample_rate, capacity as nat),
    {
        match SampleChannel::with_capacity(capacity) {
            Some(channel) => Some(AsyncSampleStream { channel, gate: WakerGate::new(), sample_rate }),
            None => None,
        }
    }

    /// The sample rate the session was configured with.
    pub fn sample_rate(&self) -> (rate: u32)
        ensures
            rate == self@.sample_rate,
    {
        self.sample_rate
    }

    /// The number of samples dropped because the channel was full.
    pub fn dropped(&self) -> (count: u64)
        ensures
            count as nat == self@.channel.dropped,
    {
        self.channel.dropped()
    }

    /// Producer side: stores as much of `samples` as fits, and says which
    /// waiter to wake. The call never waits.
    pub fn deliver(&mut self, samples: &[u32]) -> (delivery: Delivery<W>)
        ensures
            final(self)@ == old(self)@.delivered(samples@),
            delivery.stored as int == old(self)@.channel.accepted(samples@),
            delivery.stored + delivery.lost == samples@.len(),
            delivery.wake == old(self)@.woken_by(samples@),
    {
        let stored = self.channel.push_slice(samples);
        let wake = self.gate.notify(stored);
        Delivery { stored, lost: samples.len() - stored, wake }
    }

    /// Consumer side: takes the next sample, if one is buffered.
    pub fn try_next(&mut self) -> (sample: Option<u32>)
        ensures
            sample == old(self)@.channel.front(),
            final(self)@ == old(self)@.taken(),
    {
        self.channel.try_pop()
    }

    /// Consumer side: registers `waker` as the one waiter.
    pub fn park(&mut self, waker: W)
        ensures
            final(self)@ == old(self)@.parked(waker),
    {
        self.gate.register_waiter(waker);
    }

    /// Consumer side: the next sample if one is buffered; otherwise the
    /// waiter is registered, the channel is looked at once more, and the
    /// poll is pending.
    pub fn poll_next(&mut self, waker: W) -> (poll: SamplePoll)
        ensures
            poll == old(self)@.poll_result(),
            final(self)@ == old(self)@.polled(waker),
    {
        if let Some(sample) = self.channel.try_pop() {
            return SamplePoll::Ready(sample);
        }
        self.gate.register_waiter(waker);
        match self.channel.try_pop() {
            Some(sample) => SamplePoll::Ready(sample),
            None => SamplePoll::Pending,
        }
    }
}

/// What one render cycle came to.
pub struct RenderOutcome<W> {
    /// The status to hand back to the host.
    pub status: i32,
    /// The number of samples stored.
    pub stored: usize,
    /// The number of samples that did not fit.
    pub lost: usize,
    /// The waiter to wake, if any.
    pub wake: Option<W>,
}

/// One capture session: the engine, the stream it feeds, and the reference
/// it draws on.
pub struct CaptureSession<W> {
    pub engine: CaptureEngine,
    pub stream: AsyncSampleStream<W>,
    pub reference: Option<ReferenceRouter>,
}

impl<W> CaptureSession<W> {
    /// A session for `config` without a reference. The engine is new: its
    /// owner takes it through the host, answer by answer.
    pub fn open(config: CaptureConfig) -> (session: CaptureSession<W>)
        ensures
            session.engine == CaptureEngine::spec_new(config, false),
            session.stream@ == StreamView::<W>::empty(
                config.sample_rate,
                CHANNEL_CAPACITY as nat,
            ),
            session.reference is None,
    {
        CaptureSession {
            engine: CaptureEngine::new(config, false),
            stream: AsyncSampleStream::new(config.sample_rate),
            reference: None,
        }
    }

    /// A session for `config` that draws on `reference`.
    pub fn open_with_reference(config: CaptureConfig, reference: ReferenceRouter) -> (session:
        CaptureSession<W>)
        ensures
            session.engine == CaptureEngine::spec_new(config, true),
            session.stream@ == StreamView::<W>::empty(
                config.sample_rate,
                CHANNEL_CAPACITY as nat,
            ),
            session.reference == Some(reference),
    {
        CaptureSession {
            engine: CaptureEngine::new(config, true),
            stream: AsyncSampleStream::new(config.sample_rate),
            reference: Some(reference),
        }
    }

    /// The sample rate the session was configured with.
    pub fn sample_rate(&self) -> (rate: u32)
        ensures
            rate == self.stream@.sample_rate,
    {
        self.stream.sample_rate()
    }

    /// Whether the stream of the session has come to its end: nothing is
    /// buffered, and no render cycle comes any more.
    pub open spec fn spec_is_ended(&self) -> bool {
        self.stream@.channel.contents.len() == 0 && self.engine.phase.renders_no_more()
    }

    /// What a poll of the session returns.
    pub open spec fn spec_poll(&self) -> SamplePoll {
        if self.spec_is_ended() {
            SamplePoll::Ended
        } else {
            self.stream@.poll_result()
        }
    }

    /// Polls the session for its next sample. What is buffered is handed
    /// out even after the engine has stopped; once that is gone, a stopped
    /// session is at its end, and a session that is not stopped registers
    /// the waiter and is pending.
    pub fn poll_next(&mut self, waker: W) -> (poll: SamplePoll)
        ensures
            poll == old(self).spec_poll(),
            final(self).engine == old(self).engine,
            final(self).reference == old(self).reference,
            final(self).stream@ == if old(self).spec_is_ended() {
                old(self).stream@
            } else {
                old(self).stream@.polled(waker)
            },
    {
        if let Some(sample) = self.stream.try_next() {
            return SamplePoll::Ready(sample);
        }
        if self.engine.renders_no_more() {
            SamplePoll::Ended
        } else {
            self.stream.poll_next(waker)
        }
    }

    /// First half of a render cycle of `frames` frames: draws the reference
    /// samples, exactly `frames` of them, where a reference is attached.
    pub fn begin_render(&mut self, frames: u32) -> (reference: Option<Vec<u32>>)
        ensures
            final(self).engine == old(self).engine,
            final(self).stream == old(self).stream,
            reference is Some <==> old(self).reference is Some,
            final(self).reference is Some <==> old(self).reference is Some,
            old(self).reference matches Some(before) ==> {
                &&& reference.unwrap()@ == padded_reference(before@.contents, frames as nat)
                &&& final(self).reference.unwrap()@ == (ChannelView {
                    contents: before@.contents.skip(
                        consumed_reference(before@.contents.len(), frames as nat),
                    ),
                    ..before@
                })
            },
    {
        match &mut self.reference {
            Some(router) => Some(router.pull(frames)),
            None => None,
        }
    }

    /// Second half of a render cycle: takes the status of the host's render
    /// call and the samples it rendered. After a failed render nothing is
    /// stored and the failure goes back to the host; after a successful one
    /// the samples are delivered to the stream.
    pub fn finish_render(&mut self, status: i32, samples: &[u32]) -> (outcome: RenderOutcome<W>)
        ensures
            final(self).engine == old(self).engine,
            final(self).reference == old(self).reference,
            outcome.status == status,
            status != NO_ERR ==> {
                &&& final(self).stream@ == old(self).stream@
                &&& outcome.stored == 0
                &&& outcome.lost == 0
                &&& outcome.wake is None
            },
            status == NO_ERR ==> {
                &&& final(self).stream@ == old(self).stream@.delivered(samples@)
                &&& outcome.stored as int == old(self).stream@.channel.accepted(samples@)
                &&& outcome.stored + outcome.lost == samples@.len()
                &&& outcome.wake == old(self).stream@.woken_by(samples@)
            },
    {
        if status != NO_ERR {
            return RenderOutcome { status, stored: 0, lost: 0, wake: None };
        }
        let delivery = self.stream.deliver(samples);
        RenderOutcome {
            status: NO_ERR,
            stored: delivery.stored,
            lost: delivery.lost,
            wake: delivery.wake,
        }
    }
}

} // verus!
