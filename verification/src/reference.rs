//! The reference stream: what the speaker plays, made available to the
//! capture path so that echo cancellation can subtract it.

use vstd::prelude::*;
use crate::channel::{ChannelView, SampleChannel, CHANNEL_CAPACITY, MAX_CHANNEL_CAPACITY};
use crate::sample::SILENCE;

verus! {

/// The `frames` reference samples of one render cycle: the eldest samples of
/// `contents`, and silence for those that are missing.
pub open spec fn padded_reference(contents: Seq<u32>, frames: nat) -> Seq<u32> {
    Seq::new(
        frames,
        |i: int|
            if i < contents.len() {
                contents[i]
            } else {
                SILENCE
            },
    )
}

/// The number of samples a render cycle of `frames` frames takes out of a
/// reference channel that holds `held`.
pub open spec fn consumed_reference(held: nat, frames: nat) -> int {
    if frames <= held {
        frames as int
    } else {
        held as int
    }
}

/// Forks the samples of an output stream into a channel of its own, from
/// which the capture path draws them.
pub struct ReferenceRouter {
    channel: SampleChannel,
}

impl View for ReferenceRouter {
    type V = ChannelView;

    closed spec fn view(&self) -> ChannelView {
        self.channel@
    }
}

impl ReferenceRouter {
    /// A router with an empty channel of the usual capacity.
    pub fn attach() -> (router: ReferenceRouter)
        ensures
            router@ == ChannelView::empty(CHANNEL_CAPACITY as nat),
    {
        ReferenceRouter { channel: SampleChannel::new() }
    }

    /// A router with an empty channel of the given capacity, or `None`
    /// where no channel of that capacity can be had.
    pub fn with_capacity(capacity: usize) -> (router: Option<ReferenceRouter>)
        ensures
            router is Some <==> 0 < capacity <= MAX_CHANNEL_CAPACITY,
            router matches Some(r) ==> r@ == ChannelView::empty(capacity as nat),
    {
        match SampleChannel::with_capacity(capacity) {
            Some(channel) => Some(ReferenceRouter { channel }),
            None => None,
        }
    }

    /// Takes one sample of the output stream on its way to its destination:
    /// a copy goes into the channel, unless the channel is full, and the
    /// sample itself is handed on unchanged.
    pub fn fork(&mut self, sample: u32) -> (forwarded: u32)
        ensures
            forwarded == sample,
            final(self)@ == old(self)@.push(seq![sample]),
    {
        let _ = self.channel.try_push(sample);
        sample
    }

    /// Draws the reference samples of one render cycle: exactly `frames` of
    /// them, eldest first, with silence in place of what the channel lacks.
    pub fn pull(&mut self, frames: u32) -> (reference: Vec<u32>)
        ensures
            reference@ == padded_reference(old(self)@.contents, frames as nat),
            final(self)@ == (ChannelView {
                contents: old(self)@.contents.skip(
                    consumed_reference(old(self)@.contents.len(), frames as nat),
                ),
                ..old(self)@
            }),
    {
        let ghost before = self@;
        let mut reference: Vec<u32> = Vec::new();
        let mut drawn: u32 = 0;
        assert(before.contents.skip(0) =~= before.contents);
        while drawn < frames
            invariant
                drawn <= frames,
                reference@ =~= padded_reference(before.contents, drawn as nat),
                self@ == (ChannelView {
                    contents: before.contents.skip(
                        consumed_reference(before.contents.len(), drawn as nat),
                    ),
                    ..before
                }),
            decreases frames - drawn,
        {
            let ghost held = self@.contents;
            match self.channel.try_pop() {
                Some(sample) => {
                    assert(held.skip(1) =~= before.contents.skip(drawn as int + 1));
                    reference.push(sample);
                },
                None => {
                    reference.push(SILENCE);
                },
            }
            drawn = drawn + 1;
        }
        reference
    }

    /// The number of reference samples that found the channel full.
    pub fn dropped(&self) -> (count: u64)
        ensures
            count as nat == self@.dropped,
    {
        self.channel.dropped()
    }
}

} // verus!
