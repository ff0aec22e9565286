//! One front for every source of audio: the microphone, the three voice
//! processing inputs, the speaker, and a recording.

use vstd::prelude::*;
use crate::apple_voice_processing::{AppleVoiceProcessingInput, DEFAULT_SAMPLE_RATE};
use crate::channel::{ChannelView, CHANNEL_CAPACITY};
use crate::engine::{CaptureConfig, CaptureEngine, EngineError};
use crate::integrated_voice_processing::{IntegratedView, IntegratedVoiceProcessing};
use crate::sample::{RecordedStream, RECORDED_SAMPLE_RATE};
use crate::stream::{CaptureSession, StreamView};
use crate::voice_processing_mic::VoiceProcessingMicInput;

verus! {

/// Where the audio of an input comes from.
#[derive(Clone, Copy, Debug, PartialEq, Eq, Structural)]
pub enum AudioSource {
    RealtimeMic,
    VoiceProcessingMic,
    AppleVoiceProcessing,
    IntegratedVoiceProcessing,
    RealtimeSpeaker,
    Recorded,
}

/// An audio input of any source. It holds what its source needs to be
/// streamed: the voice processing input, the rate to read the speaker at,
/// or the bytes of the recording.
pub struct AudioInput {
    pub source: AudioSource,
    pub voice_processing_mic: Option<VoiceProcessingMicInput>,
    pub apple_voice_processing: Option<AppleVoiceProcessingInput>,
    pub integrated_voice_processing: Option<IntegratedVoiceProcessing>,
    pub speaker_sample_rate_override: Option<u32>,
    pub data: Option<Vec<u8>>,
}

/// The stream of an input. The microphone and the speaker are devices, which
/// the owner of the stream opens; a voice processing source comes with its
/// session, a recording with its samples.
pub enum AudioStream<W> {
    RealtimeMic,
    VoiceProcessingMic { stream: CaptureSession<W> },
    AppleVoiceProcessing { stream: CaptureSession<W> },
    IntegratedVoiceProcessing { stream: CaptureSession<W> },
    RealtimeSpeaker { sample_rate_override: Option<u32> },
    Recorded { recording: RecordedStream },
}

impl AudioInput {
    /// An input that holds nothing but its source.
    pub open spec fn bare(source: AudioSource) -> AudioInput {
        AudioInput {
            source,
            voice_processing_mic: None,
            apple_voice_processing: None,
            integrated_voice_processing: None,
            speaker_sample_rate_override: None,
            data: None,
        }
    }

    /// Whether the input still holds what its source is streamed from. A
    /// voice processing input is given away with its stream.
    pub open spec fn can_stream(&self) -> bool {
        match self.source {
            AudioSource::RealtimeMic => true,
            AudioSource::VoiceProcessingMic => self.voice_processing_mic is Some,
            AudioSource::AppleVoiceProcessing => self.apple_voice_processing is Some,
            AudioSource::IntegratedVoiceProcessing => self.integrated_voice_processing is Some,
            AudioSource::RealtimeSpeaker => true,
            AudioSource::Recorded => self.data is Some,
        }
    }

    /// The default microphone.
    pub fn from_mic() -> (input: Self)
        ensures
            input == Self::bare(AudioSource::RealtimeMic),
    {
        AudioInput {
            source: AudioSource::RealtimeMic,
            voice_processing_mic: None,
            apple_voice_processing: None,
            integrated_voice_processing: None,
            speaker_sample_rate_override: None,
            data: None,
        }
    }

    /// The microphone with voice processing, at the default sample rate.
    pub fn from_voice_processing_mic() -> (input: Result<Self, EngineError>)
        ensures
            input matches Ok(i) && i.source == AudioSource::VoiceProcessingMic && i.can_stream()
                && i.voice_processing_mic.unwrap()@ == (CaptureConfig {
                sample_rate: DEFAULT_SAMPLE_RATE,
                enable_agc: true,
                enable_noise_suppression: true,
                enable_echo_cancellation: false,
            }) && i == (AudioInput {
                voice_processing_mic: i.voice_processing_mic,
                ..Self::bare(AudioSource::VoiceProcessingMic)
            }),
    {
        match VoiceProcessingMicInput::new() {
            Ok(mic) => Ok(
                AudioInput {
                    source: AudioSource::VoiceProcessingMic,
                    voice_processing_mic: Some(mic),
                    apple_voice_processing: None,
                    integrated_voice_processing: None,
                    speaker_sample_rate_override: None,
                    data: None,
                },
            ),
            Err(error) => Err(error),
        }
    }

    /// The voice processing microphone input itself, at the default sample
    /// rate.
    pub fn from_voice_processing_mic_direct() -> (input: Result<
        VoiceProcessingMicInput,
        EngineError,
    >)
        ensures
            input matches Ok(i) && i@ == (CaptureConfig {
                sample_rate: DEFAULT_SAMPLE_RATE,
                enable_agc: true,
                enable_noise_suppression: true,
                enable_echo_cancellation: false,
            }),
    {
        VoiceProcessingMicInput::new()
    }

    /// The voice processing microphone input itself, at `sample_rate`.
    pub fn from_voice_processing_mic_with_sample_rate(sample_rate: u32) -> (input: Result<
        VoiceProcessingMicInput,
        EngineError,
    >)
        ensures
            input matches Ok(i) && i@ == (CaptureConfig {
                sample_rate,
                enable_agc: true,
                enable_noise_suppression: true,
                enable_echo_cancellation: false,
            }),
    {
        VoiceProcessingMicInput::with_sample_rate(sample_rate)
    }

    /// The microphone with every voice processing feature requested, at the
    /// default sample rate.
    pub fn from_apple_voice_processing() -> (input: Result<Self, EngineError>)
        ensures
            input matches Ok(i) && i.source == AudioSource::AppleVoiceProcessing && i.can_stream()
                && i.apple_voice_processing.unwrap()@ == (CaptureConfig {
                sample_rate: DEFAULT_SAMPLE_RATE,
                enable_agc: true,
                enable_noise_suppression: true,
                enable_echo_cancellation: true,
            }) && i == (AudioInput {
                apple_voice_processing: i.apple_voice_processing,
                ..Self::bare(AudioSource::AppleVoiceProcessing)
            }),
    {
        match AppleVoiceProcessingInput::new() {
            Ok(apple) => Ok(
                AudioInput {
                    source: AudioSource::AppleVoiceProcessing,
                    voice_processing_mic: None,
                    apple_voice_processing: Some(apple),
                    integrated_voice_processing: None,
                    speaker_sample_rate_override: None,
                    data: None,
                },
            ),
            Err(error) => Err(error),
        }
    }

    /// The full voice processing input itself, at the default sample rate.
    pub fn from_apple_voice_processing_direct() -> (input: Result<
        AppleVoiceProcessingInput,
        EngineError,
    >)
        ensures
            input matches Ok(i) && i@ == (CaptureConfig {
                sample_rate: DEFAULT_SAMPLE_RATE,
                enable_agc: true,
                enable_noise_suppression: true,
                enable_echo_cancellation: true,
            }),
    {
        AppleVoiceProcessingInput::new()
    }

    /// The full voice processing input itself, at `sample_rate`.
    pub fn from_apple_voice_processing_with_sample_rate(sample_rate: u32) -> (input: Result<
        AppleVoiceProcessingInput,
        EngineError,
    >)
        ensures
            input matches Ok(i) && i@ == (CaptureConfig {
                sample_rate,
                enable_agc: true,
                enable_noise_suppression: true,
                enable_echo_cancellation: true,
            }),
    {
        AppleVoiceProcessingInput::with_sample_rate(sample_rate)
    }

    /// The full voice processing input itself, with exactly the given
    /// configuration.
    pub fn from_apple_voice_processing_with_config(
        sample_rate: u32,
        enable_agc: bool,
        enable_noise_suppression: bool,
        enable_echo_cancellation: bool,
    ) -> (input: Result<AppleVoiceProcessingInput, EngineError>)
        ensures
            input matches Ok(i) && i@ == (CaptureConfig {
                sample_rate,
                enable_agc,
                enable_noise_suppression,
                enable_echo_cancellation,
            }),
    {
        AppleVoiceProcessingInput::with_config(
            sample_rate,
            enable_agc,
            enable_noise_suppression,
            enable_echo_cancellation,
        )
    }

    /// Microphone and speaker through one unit, at the default sample rate.
    pub fn from_integrated_voice_processing() -> (input: Result<Self, EngineError>)
        ensures
            input matches Ok(i) && i.source == AudioSource::IntegratedVoiceProcessing
                && i.can_stream() && i.integrated_voice_processing.unwrap()@ == (IntegratedView {
                sample_rate: DEFAULT_SAMPLE_RATE,
                speaker_sample_rate_override: None,
            }) && i == (AudioInput {
                integrated_voice_processing: i.integrated_voice_processing,
                ..Self::bare(AudioSource::IntegratedVoiceProcessing)
            }),
    {
        match IntegratedVoiceProcessing::new() {
            Ok(integrated) => Ok(
                AudioInput {
                    source: AudioSource::IntegratedVoiceProcessing,
                    voice_processing_mic: None,
                    apple_voice_processing: None,
                    integrated_voice_processing: Some(integrated),
                    speaker_sample_rate_override: None,
                    data: None,
                },
            ),
            Err(error) => Err(error),
        }
    }

    /// The integrated input itself, at the default sample rate.
    pub fn from_integrated_voice_processing_direct() -> (input: Result<
        IntegratedVoiceProcessing,
        EngineError,
    >)
        ensures
            input matches Ok(i) && i@ == (IntegratedView {
                sample_rate: DEFAULT_SAMPLE_RATE,
                speaker_sample_rate_override: None,
            }),
    {
        IntegratedVoiceProcessing::new()
    }

    /// The integrated input itself, at `sample_rate`, with the rate to read
    /// the speaker at where one is given.
    pub fn from_integrated_voice_processing_with_sample_rate(
        sample_rate: u32,
        speaker_sample_rate_override: Option<u32>,
    ) -> (input: Result<IntegratedVoiceProcessing, EngineError>)
        ensures
            input matches Ok(i) && i@ == (IntegratedView {
                sample_rate,
                speaker_sample_rate_override,
            }),
    {
        IntegratedVoiceProcessing::with_sample_rate(sample_rate, speaker_sample_rate_override)
    }

    /// What the speaker plays, read at the given rate where one is given.
    pub fn from_speaker(sample_rate_override: Option<u32>) -> (input: Self)
        ensures
            input == (AudioInput {
                speaker_sample_rate_override: sample_rate_override,
                ..Self::bare(AudioSource::RealtimeSpeaker)
            }),
    {
        AudioInput {
            source: AudioSource::RealtimeSpeaker,
            voice_processing_mic: None,
            apple_voice_processing: None,
            integrated_voice_processing: None,
            speaker_sample_rate_override: sample_rate_override,
            data: None,
        }
    }

    /// A recording: raw signed 16-bit samples, least significant byte first.
    pub fn from_recording(data: Vec<u8>) -> (input: Self)
        ensures
            input == (AudioInput { data: Some(data), ..Self::bare(AudioSource::Recorded) }),
    {
        AudioInput {
            source: AudioSource::Recorded,
            voice_processing_mic: None,
            apple_voice_processing: None,
            integrated_voice_processing: None,
            speaker_sample_rate_override: None,
            data: Some(data),
        }
    }

    /// The stream of the input. A voice processing input is moved into its
    /// session, so such an input streams once; a recording is copied and
    /// starts at its first byte each time.
    pub fn stream<W>(&mut self) -> (stream: Result<AudioStream<W>, EngineError>)
        requires
            old(self).can_stream(),
        ensures
            final(self).source == old(self).source,
            final(self).speaker_sample_rate_override == old(self).speaker_sample_rate_override,
            final(self).data == old(self).data,
            stream is Ok,
            match old(self).source {
                AudioSource::RealtimeMic => stream.unwrap() is RealtimeMic && *final(self) == *old(
                    self,
                ),
                AudioSource::VoiceProcessingMic => {
                    &&& stream.unwrap() matches AudioStream::VoiceProcessingMic { stream: session }
                    &&& session.engine == CaptureEngine::spec_new(
                        old(self).voice_processing_mic.unwrap()@,
                        false,
                    )
                    &&& session.stream@ == StreamView::<W>::empty(
                        old(self).voice_processing_mic.unwrap()@.sample_rate,
                        CHANNEL_CAPACITY as nat,
                    )
                    &&& session.reference is None
                    &&& *final(self) == (AudioInput { voice_processing_mic: None, ..*old(self) })
                },
                AudioSource::AppleVoiceProcessing => {
                    &&& stream.unwrap() matches AudioStream::AppleVoiceProcessing {
                        stream: session,
                    }
                    &&& session.engine == CaptureEngine::spec_new(
                        old(self).apple_voice_processing.unwrap()@,
                        false,
                    )
                    &&& session.stream@ == StreamView::<W>::empty(
                        old(self).apple_voice_processing.unwrap()@.sample_rate,
                        CHANNEL_CAPACITY as nat,
                    )
                    &&& session.reference is None
                    &&& *final(self) == (AudioInput { apple_voice_processing: None, ..*old(self) })
                },
                AudioSource::IntegratedVoiceProcessing => {
                    &&& stream.unwrap() matches AudioStream::IntegratedVoiceProcessing {
                        stream: session,
                    }
                    &&& session.engine == CaptureEngine::spec_new(
                        old(self).integrated_voice_processing.unwrap()@.config(),
                        true,
                    )
                    &&& session.stream@ == StreamView::<W>::empty(
                        old(self).integrated_voice_processing.unwrap()@.sample_rate,
                        CHANNEL_CAPACITY as nat,
                    )
                    &&& session.reference matches Some(reference) && reference@
                        == ChannelView::empty(CHANNEL_CAPACITY as nat)
                    &&& *final(self) == (AudioInput {
                        integrated_voice_processing: None,
                        ..*old(self)
                    })
                },
                AudioSource::RealtimeSpeaker => stream.unwrap() == (AudioStream::<
                    W,
                >::RealtimeSpeaker {
                    sample_rate_override: old(self).speaker_sample_rate_override,
                }) && *final(self) == *old(self),
                AudioSource::Recorded => {
                    &&& stream.unwrap() matches AudioStream::Recorded { recording: recorded }
                    &&& recorded.data@ == old(self).data.unwrap()@
                    &&& recorded.position == 0
                    &&& *final(self) == *old(self)
                },
            },
    {
        match self.source {
            AudioSource::RealtimeMic => Ok(AudioStream::RealtimeMic),
            AudioSource::VoiceProcessingMic => {
                let input = self.voice_processing_mic.take().unwrap();
                Ok(AudioStream::VoiceProcessingMic { stream: input.stream() })
            },
            AudioSource::AppleVoiceProcessing => {
                let input = self.apple_voice_processing.take().unwrap();
                Ok(AudioStream::AppleVoiceProcessing { stream: input.stream() })
            },
            AudioSource::IntegratedVoiceProcessing => {
                let input = self.integrated_voice_processing.take().unwrap();
                Ok(AudioStream::IntegratedVoiceProcessing { stream: input.stream() })
            },
            AudioSource::RealtimeSpeaker => Ok(
                AudioStream::RealtimeSpeaker {
                    sample_rate_override: self.speaker_sample_rate_override,
                },
            ),
            AudioSource::Recorded => {
                let data = self.data.as_ref().unwrap().clone();
                Ok(AudioStream::Recorded { recording: RecordedStream::new(data) })
            },
        }
    }
}

impl<W> AudioStream<W> {
    /// The sample rate the stream is known to have: that of its session, or
    /// that of a recording. The rate of a device is the device's to say.
    pub open spec fn spec_sample_rate(&self) -> Option<u32> {
        match self {
            AudioStream::RealtimeMic => None,
            AudioStream::VoiceProcessingMic { stream } => Some(stream.stream@.sample_rate),
            AudioStream::AppleVoiceProcessing { stream } => Some(stream.stream@.sample_rate),
            AudioStream::IntegratedVoiceProcessing { stream } => Some(stream.stream@.sample_rate),
            AudioStream::RealtimeSpeaker { sample_rate_override } => None,
            AudioStream::Recorded { recording } => Some(RECORDED_SAMPLE_RATE),
        }
    }

    pub fn sample_rate(&self) -> (rate: Option<u32>)
        ensures
            rate == self.spec_sample_rate(),
    {
        match self {
            AudioStream::RealtimeMic => None,
            AudioStream::VoiceProcessingMic { stream } => Some(stream.sample_rate()),
            AudioStream::AppleVoiceProcessing { stream } => Some(stream.sample_rate()),
            AudioStream::IntegratedVoiceProcessing { stream } => Some(stream.sample_rate()),
            AudioStream::RealtimeSpeaker { sample_rate_override: _ } => None,
            AudioStream::Recorded { recording } => Some(recording.sample_rate()),
        }
    }
}

} // verus!
