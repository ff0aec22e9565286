//! Shortcuts to the three voice processing inputs and to the reference one
//! of them draws on.

use vstd::prelude::*;
use crate::apple_voice_processing::{AppleVoiceProcessingInput, DEFAULT_SAMPLE_RATE};
use crate::channel::{ChannelView, CHANNEL_CAPACITY};
use crate::engine::{CaptureConfig, EngineError};
use crate::integrated_voice_processing::{IntegratedView, IntegratedVoiceProcessing};
use crate::reference::ReferenceRouter;
use crate::voice_processing_mic::VoiceProcessingMicInput;

verus! {

/// A reference for echo cancellation, empty and of the usual capacity.
pub fn create_speaker_reference() -> (reference: ReferenceRouter)
    ensures
        reference@ == ChannelView::empty(CHANNEL_CAPACITY as nat),
{
    crate::apple_voice_processing::create_speaker_reference_for_voice_processing()
}

/// A microphone input at the default sample rate.
pub fn create_voice_processing_mic() -> (input: Result<VoiceProcessingMicInput, EngineError>)
    ensures
        input matches Ok(i) && i@ == (CaptureConfig {
            sample_rate: DEFAULT_SAMPLE_RATE,
            enable_agc: true,
            enable_noise_suppression: true,
            enable_echo_cancellation: false,
        }),
{
    VoiceProcessingMicInput::new()
}

/// A microphone input at `sample_rate`.
pub fn create_voice_processing_mic_with_sample_rate(sample_rate: u32) -> (input: Result<
    VoiceProcessingMicInput,
    EngineError,
>)
    ensures
        input matches Ok(i) && i@ == (CaptureConfig {
            sample_rate,
            enable_agc: true,
            enable_noise_suppression: true,
            enable_echo_cancellation: false,
        }),
{
    VoiceProcessingMicInput::with_sample_rate(sample_rate)
}

/// A full voice processing input at the default sample rate.
pub fn create_apple_voice_processing() -> (input: Result<AppleVoiceProcessingInput, EngineError>)
    ensures
        input matches Ok(i) && i@ == (CaptureConfig {
            sample_rate: DEFAULT_SAMPLE_RATE,
            enable_agc: true,
            enable_noise_suppression: true,
            enable_echo_cancellation: true,
        }),
{
    AppleVoiceProcessingInput::new()
}

/// A full voice processing input at `sample_rate`.
pub fn create_apple_voice_processing_with_sample_rate(sample_rate: u32) -> (input: Result<
    AppleVoiceProcessingInput,
    EngineError,
>)
    ensures
        input matches Ok(i) && i@ == (CaptureConfig {
            sample_rate,
            enable_agc: true,
            enable_noise_suppression: true,
            enable_echo_cancellation: true,
        }),
{
    AppleVoiceProcessingInput::with_sample_rate(sample_rate)
}

/// A full voice processing input with exactly the given configuration.
pub fn create_apple_voice_processing_with_config(
    sample_rate: u32,
    enable_agc: bool,
    enable_noise_suppression: bool,
    enable_echo_cancellation: bool,
) -> (input: Result<AppleVoiceProcessingInput, EngineError>)
    ensures
        input matches Ok(i) && i@ == (CaptureConfig {
            sample_rate,
            enable_agc,
            enable_noise_suppression,
            enable_echo_cancellation,
        }),
{
    AppleVoiceProcessingInput::with_config(
        sample_rate,
        enable_agc,
        enable_noise_suppression,
        enable_echo_cancellation,
    )
}

/// An integrated input at the default sample rate.
pub fn create_integrated_voice_processing() -> (input: Result<
    IntegratedVoiceProcessing,
    EngineError,
>)
    ensures
        input matches Ok(i) && i@ == (IntegratedView {
            sample_rate: DEFAULT_SAMPLE_RATE,
            speaker_sample_rate_override: None,
        }),
{
    IntegratedVoiceProcessing::new()
}

/// An integrated input at `sample_rate`, with the rate to read the speaker
/// at where one is given.
pub fn create_integrated_voice_processing_with_sample_rate(
    sample_rate: u32,
    speaker_sample_rate_override: Option<u32>,
) -> (input: Result<IntegratedVoiceProcessing, EngineError>)
    ensures
        input matches Ok(i) && i@ == (IntegratedView {
            sample_rate,
            speaker_sample_rate_override,
        }),
{
    IntegratedVoiceProcessing::with_sample_rate(sample_rate, speaker_sample_rate_override)
}

} // verus!
