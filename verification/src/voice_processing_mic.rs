//! Capture from the microphone alone: gain control and noise suppression,
//! no reference and no echo cancellation.

use vstd::prelude::*;
use crate::apple_voice_processing::DEFAULT_SAMPLE_RATE;
use crate::channel::CHANNEL_CAPACITY;
use crate::engine::{CaptureConfig, CaptureEngine, EngineError};
use crate::stream::{CaptureSession, StreamView};

verus! {

/// A voice processing input without a speaker reference.
#[derive(Clone, Copy, Debug, PartialEq, Eq, Structural)]
pub struct VoiceProcessingMicInput {
    sample_rate: u32,
    enable_agc: bool,
    enable_noise_suppression: bool,
}

impl View for VoiceProcessingMicInput {
    type V = CaptureConfig;

    /// The configuration the input stands for: echo cancellation is never
    /// requested.
    closed spec fn view(&self) -> CaptureConfig {
        CaptureConfig {
            sample_rate: self.sample_rate,
            enable_agc: self.enable_agc,
            enable_noise_suppression: self.enable_noise_suppression,
            enable_echo_cancellation: false,
        }
    }
}

impl VoiceProcessingMicInput {
    /// An input at the default sample rate with gain control and noise
    /// suppression requested.
    pub fn new() -> (input: Result<Self, EngineError>)
        ensures
            input matches Ok(i) && i@ == (CaptureConfig {
                sample_rate: DEFAULT_SAMPLE_RATE,
                enable_agc: true,
                enable_noise_suppression: true,
                enable_echo_cancellation: false,
            }),
    {
        Self::with_sample_rate(DEFAULT_SAMPLE_RATE)
    }

    /// An input at `sample_rate` with gain control and noise suppression
    /// requested.
    pub fn with_sample_rate(sample_rate: u32) -> (input: Result<Self, EngineError>)
        ensures
            input matches Ok(i) && i@ == (CaptureConfig {
                sample_rate,
                enable_agc: true,
                enable_noise_suppression: true,
                enable_echo_cancellation: false,
            }),
    {
        Self::with_config(sample_rate, true, true)
    }

    /// An input with exactly the given configuration. Every sample rate is
    /// accepted.
    pub fn with_config(sample_rate: u32, enable_agc: bool, enable_noise_suppression: bool) -> (input:
        Result<Self, EngineError>)
        ensures
            input matches Ok(i) && i@ == (CaptureConfig {
                sample_rate,
                enable_agc,
                enable_noise_suppression,
                enable_echo_cancellation: false,
            }),
    {
        Ok(VoiceProcessingMicInput { sample_rate, enable_agc, enable_noise_suppression })
    }

    /// The configuration the input stands for.
    pub fn config(&self) -> (config: CaptureConfig)
        ensures
            config == self@,
    {
        CaptureConfig {
            sample_rate: self.sample_rate,
            enable_agc: self.enable_agc,
            enable_noise_suppression: self.enable_noise_suppression,
            enable_echo_cancellation: false,
        }
    }

    /// A session for this input: only the input direction is active.
    pub fn stream<W>(self) -> (session: CaptureSession<W>)
        ensures
            session.engine == CaptureEngine::spec_new(self@, false),
            session.stream@ == StreamView::<W>::empty(self@.sample_rate, CHANNEL_CAPACITY as nat),
            session.reference is None,
    {
        CaptureSession::open(self.config())
    }
}

} // verus!
