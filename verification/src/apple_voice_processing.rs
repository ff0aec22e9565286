//! Capture with the full set of voice processing features: automatic gain
//! control, noise suppression and echo cancellation, each of them optional.

use vstd::prelude::*;
use crate::channel::{ChannelView, CHANNEL_CAPACITY};
use crate::engine::{CaptureConfig, CaptureEngine, EngineError};
use crate::reference::ReferenceRouter;
use crate::stream::{CaptureSession, StreamView};

verus! {

/// The sample rate used where none is given.
pub const DEFAULT_SAMPLE_RATE: u32 = 16000;

/// A voice processing input with a choice of features.
#[derive(Clone, Copy, Debug, PartialEq, Eq, Structural)]
pub struct AppleVoiceProcessingInput {
    sample_rate: u32,
    enable_agc: bool,
    enable_noise_suppression: bool,
    enable_echo_cancellation: bool,
}

impl View for AppleVoiceProcessingInput {
    type V = CaptureConfig;

    /// The configuration the input stands for.
    closed spec fn view(&self) -> CaptureConfig {
        CaptureConfig {
            sample_rate: self.sample_rate,
            enable_agc: self.enable_agc,
            enable_noise_suppression: self.enable_noise_suppression,
            enable_echo_cancellation: self.enable_echo_cancellation,
        }
    }
}

impl AppleVoiceProcessingInput {
    /// An input at the default sample rate with every feature requested.
    pub fn new() -> (input: Result<Self, EngineError>)
        ensures
            input matches Ok(i) && i@ == (CaptureConfig {
                sample_rate: DEFAULT_SAMPLE_RATE,
                enable_agc: true,
                enable_noise_suppression: true,
                enable_echo_cancellation: true,
            }),
    {
        Self::with_config(DEFAULT_SAMPLE_RATE, true, true, true)
    }

    /// An input at `sample_rate` with every feature requested.
    pub fn with_sample_rate(sample_rate: u32) -> (input: Result<Self, EngineError>)
        ensures
            input matches Ok(i) && i@ == (CaptureConfig {
                sample_rate,
                enable_agc: true,
                enable_noise_suppression: true,
                enable_echo_cancellation: true,
            }),
    {
        Self::with_config(sample_rate, true, true, true)
    }

    /// An input with exactly the given configuration. Every sample rate is
    /// accepted: the rate is advisory, and the host decides what it delivers.
    pub fn with_config(
        sample_rate: u32,
        enable_agc: bool,
        enable_noise_suppression: bool,
        enable_echo_cancellation: bool,
    ) -> (input: Result<Self, EngineError>)
        ensures
            input matches Ok(i) && i@ == (CaptureConfig {
                sample_rate,
                enable_agc,
                enable_noise_suppression,
                enable_echo_cancellation,
            }),
    {
        Ok(
            AppleVoiceProcessingInput {
                sample_rate,
                enable_agc,
                enable_noise_suppression,
                enable_echo_cancellation,
            },
        )
    }

    /// The configuration the input stands for.
    pub fn config(&self) -> (config: CaptureConfig)
        ensures
            config == self@,
    {
        CaptureConfig {
            sample_rate: self.sample_rate,
            enable_agc: self.enable_agc,
            enable_noise_suppression: self.enable_noise_suppression,
            enable_echo_cancellation: self.enable_echo_cancellation,
        }
    }

    /// A session that draws on `speaker_reference` for echo cancellation:
    /// both directions of the unit are active.
    pub fn stream_with_speaker_reference<W>(self, speaker_reference: ReferenceRouter) -> (session:
        CaptureSession<W>)
        ensures
            session.engine == CaptureEngine::spec_new(self@, true),
            session.stream@ == StreamView::<W>::empty(self@.sample_rate, CHANNEL_CAPACITY as nat),
            session.reference == Some(speaker_reference),
    {
        CaptureSession::open_with_reference(self.config(), speaker_reference)
    }

    /// A session without a reference: only the input direction is active,
    /// and echo cancellation, where requested, has less to go on.
    pub fn stream<W>(self) -> (session: CaptureSession<W>)
        ensures
            session.engine == CaptureEngine::spec_new(self@, false),
            session.stream@ == StreamView::<W>::empty(self@.sample_rate, CHANNEL_CAPACITY as nat),
            session.reference is None,
    {
        CaptureSession::open(self.config())
    }
}

/// A reference for echo cancellation, empty and of the usual capacity. The
/// output stream is forked into it, and a session opened with it draws on it.
pub fn create_speaker_reference_for_voice_processing() -> (reference: ReferenceRouter)
    ensures
        reference@ == ChannelView::empty(CHANNEL_CAPACITY as nat),
{
    ReferenceRouter::attach()
}

} // verus!
