//! Capture that brings its own speaker reference, for echo cancellation at
//! its best: microphone and speaker go through one unit.

use vstd::prelude::*;
use crate::apple_voice_processing::DEFAULT_SAMPLE_RATE;
use crate::channel::{ChannelView, CHANNEL_CAPACITY};
use crate::engine::{CaptureConfig, CaptureEngine, EngineError};
use crate::reference::ReferenceRouter;
use crate::stream::{CaptureSession, StreamView};

verus! {

/// A voice processing input that forks the speaker stream into a reference
/// of its own. Every feature is requested.
#[derive(Clone, Copy, Debug, PartialEq, Eq, Structural)]
pub struct IntegratedVoiceProcessing {
    sample_rate: u32,
    speaker_sample_rate_override: Option<u32>,
}

/// What an integrated input is, as a value.
pub struct IntegratedView {
    pub sample_rate: u32,
    pub speaker_sample_rate_override: Option<u32>,
}

impl IntegratedView {
    /// The configuration of the capture engine: every feature is requested.
    pub open spec fn config(self) -> CaptureConfig {
        CaptureConfig {
            sample_rate: self.sample_rate,
            enable_agc: true,
            enable_noise_suppression: true,
            enable_echo_cancellation: true,
        }
    }
}

impl View for IntegratedVoiceProcessing {
    type V = IntegratedView;

    closed spec fn view(&self) -> IntegratedView {
        IntegratedView {
            sample_rate: self.sample_rate,
            speaker_sample_rate_override: self.speaker_sample_rate_override,
        }
    }
}

impl IntegratedVoiceProcessing {
    /// An input at the default sample rate; the speaker keeps its own rate.
    pub fn new() -> (input: Result<Self, EngineError>)
        ensures
            input matches Ok(i) && i@ == (IntegratedView {
                sample_rate: DEFAULT_SAMPLE_RATE,
                speaker_sample_rate_override: None,
            }),
    {
        Self::with_sample_rate(DEFAULT_SAMPLE_RATE, None)
    }

    /// An input at `sample_rate`, with the rate to read the speaker at where
    /// one is given. Every sample rate is accepted.
    pub fn with_sample_rate(sample_rate: u32, speaker_sample_rate_override: Option<u32>) -> (input:
        Result<Self, EngineError>)
        ensures
            input matches Ok(i) && i@ == (IntegratedView {
                sample_rate,
                speaker_sample_rate_override,
            }),
    {
        Ok(IntegratedVoiceProcessing { sample_rate, speaker_sample_rate_override })
    }

    /// The configuration of the capture engine.
    pub fn config(&self) -> (config: CaptureConfig)
        ensures
            config == self@.config(),
    {
        CaptureConfig {
            sample_rate: self.sample_rate,
            enable_agc: true,
            enable_noise_suppression: true,
            enable_echo_cancellation: true,
        }
    }

    /// The rate to read the speaker at, where one was given.
    pub fn speaker_sample_rate_override(&self) -> (rate: Option<u32>)
        ensures
            rate == self@.speaker_sample_rate_override,
    {
        self.speaker_sample_rate_override
    }

    /// A session for this input, with a new and empty reference attached:
    /// both directions of the unit are active.
    pub fn stream<W>(self) -> (session: CaptureSession<W>)
        ensures
            session.engine == CaptureEngine::spec_new(self@.config(), true),
            session.stream@ == StreamView::<W>::empty(self@.sample_rate, CHANNEL_CAPACITY as nat),
            session.reference matches Some(reference) && reference@ == ChannelView::empty(
                CHANNEL_CAPACITY as nat,
            ),
    {
        CaptureSession::open_with_reference(self.config(), ReferenceRouter::attach())
    }
}

} // verus!
