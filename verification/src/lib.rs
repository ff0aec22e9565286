//! Real-time voice capture: the lifecycle of a host voice-processing engine,
//! the bounded sample channel between the render callback and its consumer,
//! and the rules that decide where captured speech may be processed.
//!
//! The library never touches the host. A [`CaptureEngine`] says which host
//! request is pending and takes the host's answer; a [`CaptureSession`]
//! takes what the host rendered and hands samples to whoever polls it. The
//! owner of a session makes the calls and does the waking.
//!
//! - [`engine`], [`negotiator`]: the lifecycle and the negotiation of the
//!   optional features; [`engine_laws`]: what holds of every engine.
//! - [`channel`], [`waker`], [`stream`], [`reference`]: the path of the
//!   samples; [`stream_laws`]: what holds of it under every interleaving.
//! - [`apple_voice_processing`], [`voice_processing_mic`],
//!   [`integrated_voice_processing`], [`audio_input`]: the inputs.
//! - [`location`]: the Wi-Fi network the device is on, the networks that are
//!   trusted, and what follows for the use of the cloud.

pub mod apple_voice_processing;
pub mod audio_input;
pub mod audiounit;
pub mod channel;
pub mod engine;
pub mod engine_laws;
pub mod integrated_voice_processing;
pub mod language;
pub mod location;
pub mod negotiator;
pub mod reference;
pub mod sample;
pub mod stream;
pub mod stream_laws;
pub mod voice_processing_direct;
pub mod voice_processing_mic;
pub mod voice_processing_test;
pub mod waker;

pub use crate::apple_voice_processing::{
    create_speaker_reference_for_voice_processing,
    AppleVoiceProcessingInput,
};
pub use crate::audio_input::{AudioInput, AudioSource, AudioStream};
pub use crate::channel::SampleChannel;
pub use crate::engine::{
    CaptureConfig,
    CaptureEngine,
    EngineError,
    EnginePhase,
    EngineState,
    HostRequest,
};
pub use crate::integrated_voice_processing::IntegratedVoiceProcessing;
pub use crate::negotiator::{FeatureError, FeatureNegotiator, FeatureOutcome, FeatureSet};
pub use crate::reference::ReferenceRouter;
pub use crate::stream::{AsyncSampleStream, CaptureSession, RenderOutcome, SamplePoll};
pub use crate::voice_processing_mic::VoiceProcessingMicInput;
pub use crate::voice_processing_test::{ComparisonResults, TestResults, VoiceProcessingTester};
pub use crate::waker::WakerGate;
