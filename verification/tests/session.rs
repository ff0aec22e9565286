use voice_capture::apple_voice_processing::{
    create_speaker_reference_for_voice_processing, AppleVoiceProcessingInput,
};
use voice_capture::audiounit::{
    microphone_access_granted, render_buffer_bytes, render_precondition, status_description,
    status_ok, status_result, NO_ERR,
};
use voice_capture::engine::{CaptureConfig, EngineError, EngineState, HostRequest};
use voice_capture::integrated_voice_processing::IntegratedVoiceProcessing;
use voice_capture::sample::{count_audible, is_audible};
use voice_capture::stream::{CaptureSession, SamplePoll};
use voice_capture::voice_processing_mic::VoiceProcessingMicInput;
use voice_capture::voice_processing_test::{ComparisonResults, VoiceProcessingTester};

const FRAMES: u32 = 512;

/// A host that finds its component, accepts every feature, and renders a
/// tone of 1 kHz.
struct ToneHost {
    component_found: bool,
    supports_features: bool,
    render_status: i32,
    sample_rate: u32,
    rendered: u64,
    requests: Vec<HostRequest>,
    reference_seen: Vec<u32>,
}

impl ToneHost {
    fn new(sample_rate: u32) -> ToneHost {
        ToneHost {
            component_found: true,
            supports_features: true,
            render_status: 0,
            sample_rate,
            rendered: 0,
            requests: Vec::new(),
            reference_seen: Vec::new(),
        }
    }

    fn perform(&mut self, request: HostRequest) -> i32 {
        self.requests.push(request);
        match request {
            HostRequest::FindComponent(_) if !self.component_found => -50,
            HostRequest::QueryFeatureSupport(_) if !self.supports_features => -1,
            _ => 0,
        }
    }

    fn render(&mut self, frames: u32) -> (i32, Vec<u32>) {
        if self.render_status != 0 {
            return (self.render_status, Vec::new());
        }
        let mut samples = Vec::new();
        for _ in 0..frames {
            let t = self.rendered as f32 / self.sample_rate as f32;
            let value = (2.0 * std::f32::consts::PI * 1000.0 * t).sin() * 0.5;
            samples.push(value.to_bits());
            self.rendered += 1;
        }
        (0, samples)
    }
}

fn open_on(session: &mut CaptureSession<u32>, host: &mut ToneHost) -> Result<(), EngineError> {
    while session.engine.pending() != HostRequest::Idle {
        let status = host.perform(session.engine.pending());
        session.engine.advance(status);
    }
    session.engine.outcome().unwrap()
}

fn render_cycle(session: &mut CaptureSession<u32>, host: &mut ToneHost) -> (i32, Option<u32>) {
    assert_eq!(render_precondition(true, true), NO_ERR);
    if let Some(reference) = session.begin_render(FRAMES) {
        assert_eq!(reference.len(), FRAMES as usize);
        host.reference_seen.extend(reference);
    }
    let (status, samples) = host.render(FRAMES);
    let outcome = session.finish_render(status, &samples);
    (outcome.status, outcome.wake)
}

fn collect(session: &mut CaptureSession<u32>, host: &mut ToneHost, more_than: usize) -> Vec<f32> {
    let mut buffer = Vec::new();
    let mut parked = false;
    while buffer.len() <= more_than {
        match session.poll_next(1) {
            SamplePoll::Ready(sample) => {
                buffer.push(f32::from_bits(sample));
                parked = false;
            }
            SamplePoll::Pending => {
                assert!(!parked);
                parked = true;
                let (status, wake) = render_cycle(session, host);
                assert_eq!(status, 0);
                assert_eq!(wake, Some(1));
            }
            SamplePoll::Ended => panic!("a running session does not end"),
        }
    }
    buffer
}

#[test]
fn test_apple_voice_processing_basic() {
    let voice_input = AppleVoiceProcessingInput::new().unwrap();
    let mut stream: CaptureSession<u32> = voice_input.stream();
    let mut host = ToneHost::new(16000);
    open_on(&mut stream, &mut host).unwrap();

    let buffer = collect(&mut stream, &mut host, 6000);
    assert_eq!(buffer.len(), 6001);
    assert!(buffer.iter().any(|x| *x != 0.0));
}

#[test]
fn test_apple_voice_processing_with_speaker_reference() {
    let speaker_ref = create_speaker_reference_for_voice_processing();

    let voice_input = AppleVoiceProcessingInput::with_sample_rate(48000).unwrap();
    let mut stream: CaptureSession<u32> = voice_input.stream_with_speaker_reference(speaker_ref);
    let mut host = ToneHost::new(48000);
    open_on(&mut stream, &mut host).unwrap();

    assert_eq!(stream.sample_rate(), 48000);

    let buffer = collect(&mut stream, &mut host, 12000);
    assert!(buffer.iter().any(|x| *x != 0.0));
}

#[test]
fn test_apple_voice_processing_custom_config() {
    let voice_input = AppleVoiceProcessingInput::with_config(16000, true, true, false).unwrap();
    let mut stream: CaptureSession<u32> = voice_input.stream();
    let mut host = ToneHost::new(16000);
    open_on(&mut stream, &mut host).unwrap();

    let buffer = collect(&mut stream, &mut host, 6000);
    assert!(buffer.iter().any(|x| *x != 0.0));
    assert!(!host
        .requests
        .iter()
        .any(|r| matches!(r, HostRequest::QueryFeatureSupport(f) if *f == voice_capture::audiounit::Feature::EchoCancellation)));
}

#[test]
fn test_integrated_voice_processing() {
    let integrated = IntegratedVoiceProcessing::new().unwrap();
    let mut stream: CaptureSession<u32> = integrated.stream();
    let mut host = ToneHost::new(16000);
    open_on(&mut stream, &mut host).unwrap();

    let buffer = collect(&mut stream, &mut host, 6000);
    assert!(buffer.iter().any(|x| *x != 0.0));
}

#[test]
fn test_integrated_voice_processing_48khz() {
    let integrated = IntegratedVoiceProcessing::with_sample_rate(48000, Some(48000)).unwrap();
    assert_eq!(integrated.speaker_sample_rate_override(), Some(48000));
    let mut stream: CaptureSession<u32> = integrated.stream();
    let mut host = ToneHost::new(48000);
    open_on(&mut stream, &mut host).unwrap();

    assert_eq!(stream.sample_rate(), 48000);

    let buffer = collect(&mut stream, &mut host, 12000);
    assert!(buffer.iter().any(|x| *x != 0.0));
}

#[test]
fn test_voice_processing_mic() {
    let mic = VoiceProcessingMicInput::new().unwrap();
    let mut stream: CaptureSession<u32> = mic.stream();
    let mut host = ToneHost::new(16000);
    open_on(&mut stream, &mut host).unwrap();

    let mut buffer = Vec::new();
    let mut samples_received = 0;
    for sample in collect(&mut stream, &mut host, 6000) {
        buffer.push(sample);
        samples_received += 1;
    }
    assert!(samples_received > 6000);
    assert!(buffer.iter().any(|x| *x != 0.0), "Audio samples must contain non-zero data");
}

#[test]
fn test_voice_processing_mic_48khz() {
    let mic = VoiceProcessingMicInput::with_sample_rate(48000).unwrap();
    let mut stream: CaptureSession<u32> = mic.stream();
    let mut host = ToneHost::new(48000);
    open_on(&mut stream, &mut host).unwrap();

    assert_eq!(stream.sample_rate(), 48000);

    let buffer = collect(&mut stream, &mut host, 12000);
    assert!(buffer.iter().any(|x| *x != 0.0), "Audio samples must contain non-zero data");
}

fn collect_for(tester: &VoiceProcessingTester, session: &mut CaptureSession<u32>, host: &mut ToneHost) -> Vec<u32> {
    let mut samples = Vec::new();
    while tester.keeps_collecting(samples.len(), 0) {
        match session.poll_next(1) {
            SamplePoll::Ready(sample) => samples.push(sample),
            SamplePoll::Pending => {
                render_cycle(session, host);
            }
            SamplePoll::Ended => panic!("a running session does not end"),
        }
    }
    samples
}

#[test]
fn test_voice_processing_implementations() {
    let tester = VoiceProcessingTester::new(3, 16000);
    assert_eq!(tester.target_samples(), 48000);
    assert_eq!(tester.deadline_secs(), 5);

    let mut host = ToneHost::new(16000);
    let mut basic: CaptureSession<u32> =
        VoiceProcessingMicInput::with_sample_rate(16000).unwrap().stream();
    open_on(&mut basic, &mut host).unwrap();
    let basic_results = tester.summarize(&collect_for(&tester, &mut basic, &mut host));

    let mut apple: CaptureSession<u32> =
        AppleVoiceProcessingInput::with_sample_rate(16000).unwrap().stream();
    open_on(&mut apple, &mut host).unwrap();
    let apple_results = tester.summarize(&collect_for(&tester, &mut apple, &mut host));

    let mut integrated: CaptureSession<u32> =
        IntegratedVoiceProcessing::with_sample_rate(16000, Some(16000)).unwrap().stream();
    open_on(&mut integrated, &mut host).unwrap();
    let integrated_results = tester.summarize(&collect_for(&tester, &mut integrated, &mut host));

    let results = ComparisonResults {
        basic_voice_processing: basic_results,
        apple_voice_processing: apple_results,
        integrated_voice_processing: integrated_results,
        concurrent_mic: apple_results,
        concurrent_speaker: basic_results,
    };
    assert_eq!(results.basic_voice_processing.total_samples, 48000);
    assert!(results.format_mismatch_resolved());
    assert!(
        results.basic_voice_processing.non_zero_samples > 0
            || results.apple_voice_processing.non_zero_samples > 0
            || results.integrated_voice_processing.non_zero_samples > 0,
        "At least one voice processing implementation should work"
    );
    assert!(results.any_implementation_works());
}

#[test]
fn test_format_mismatch_resolution() {
    let tester = VoiceProcessingTester::new(2, 16000);
    let mut host = ToneHost::new(16000);
    let mut mic: CaptureSession<u32> =
        AppleVoiceProcessingInput::with_sample_rate(16000).unwrap().stream();
    open_on(&mut mic, &mut host).unwrap();
    let mic_results = tester.summarize(&collect_for(&tester, &mut mic, &mut host));
    let speaker_results = tester.summarize(&vec![0u32; 32000]);
    assert_eq!(mic_results.total_samples, 32000);
    assert!(mic_results.is_working());
    assert!(!speaker_results.is_working());
    let results = ComparisonResults {
        basic_voice_processing: mic_results,
        apple_voice_processing: mic_results,
        integrated_voice_processing: mic_results,
        concurrent_mic: mic_results,
        concurrent_speaker: speaker_results,
    };
    assert!(!results.format_mismatch_resolved());
}

#[test]
fn all_features_at_16khz_yield_sound() {
    let config = CaptureConfig {
        sample_rate: 16000,
        enable_agc: true,
        enable_noise_suppression: true,
        enable_echo_cancellation: true,
    };
    let mut session: CaptureSession<u32> = CaptureSession::open(config);
    let mut host = ToneHost::new(16000);
    assert_eq!(open_on(&mut session, &mut host), Ok(()));
    let mut polled = Vec::new();
    let mut polls = 0;
    while polls < 6001 {
        match session.poll_next(1) {
            SamplePoll::Ready(sample) => {
                polled.push(sample);
                polls += 1;
            }
            SamplePoll::Pending => {
                render_cycle(&mut session, &mut host);
            }
            SamplePoll::Ended => panic!("a running session does not end"),
        }
    }
    assert!(polled.iter().any(|sample| is_audible(*sample)));
    assert!(count_audible(&polled) > 0);
}

#[test]
fn session_at_48khz_without_echo_cancellation_reports_its_rate() {
    let config = CaptureConfig {
        sample_rate: 48000,
        enable_agc: true,
        enable_noise_suppression: true,
        enable_echo_cancellation: false,
    };
    let mut session: CaptureSession<u32> = CaptureSession::open(config);
    assert!(session.reference.is_none());
    let mut host = ToneHost::new(48000);
    assert_eq!(open_on(&mut session, &mut host), Ok(()));
    assert_eq!(session.sample_rate(), 48000);
    assert_eq!(session.stream.sample_rate(), 48000);
    assert_eq!(session.engine.sample_rate(), 48000);
    let buffer = collect(&mut session, &mut host, 100);
    assert!(buffer.iter().any(|x| *x != 0.0));
    assert!(host.reference_seen.is_empty());
}

#[test]
fn missing_component_ends_the_session() {
    let config = CaptureConfig {
        sample_rate: 16000,
        enable_agc: true,
        enable_noise_suppression: true,
        enable_echo_cancellation: true,
    };
    let mut session: CaptureSession<u32> = CaptureSession::open(config);
    let mut host = ToneHost::new(16000);
    host.component_found = false;
    assert_eq!(open_on(&mut session, &mut host), Err(EngineError::ComponentNotFound));
    assert_eq!(session.engine.state(), EngineState::Disposed);
    assert_eq!(session.engine.pending(), HostRequest::Idle);
    assert_eq!(host.requests.len(), 1);
}

#[test]
fn capture_goes_on_when_no_feature_is_supported() {
    let config = CaptureConfig {
        sample_rate: 16000,
        enable_agc: true,
        enable_noise_suppression: true,
        enable_echo_cancellation: true,
    };
    let mut session: CaptureSession<u32> = CaptureSession::open(config);
    let mut host = ToneHost::new(16000);
    host.supports_features = false;
    assert_eq!(open_on(&mut session, &mut host), Ok(()));
    let buffer = collect(&mut session, &mut host, 1000);
    assert!(buffer.iter().any(|x| *x != 0.0));
}

#[test]
fn capture_goes_on_with_a_starved_reference() {
    let config = CaptureConfig {
        sample_rate: 16000,
        enable_agc: true,
        enable_noise_suppression: true,
        enable_echo_cancellation: true,
    };
    let reference = create_speaker_reference_for_voice_processing();
    let mut session: CaptureSession<u32> = CaptureSession::open_with_reference(config, reference);
    let mut host = ToneHost::new(16000);
    assert_eq!(open_on(&mut session, &mut host), Ok(()));
    let buffer = collect(&mut session, &mut host, 2000);
    assert!(buffer.iter().any(|x| *x != 0.0));
    assert!(!host.reference_seen.is_empty());
    assert_eq!(host.reference_seen.len() % FRAMES as usize, 0);
    assert!(host.reference_seen.iter().all(|sample| *sample == 0));
}

#[test]
fn reference_samples_reach_the_render_cycle() {
    let config = CaptureConfig {
        sample_rate: 16000,
        enable_agc: false,
        enable_noise_suppression: false,
        enable_echo_cancellation: true,
    };
    let mut reference = create_speaker_reference_for_voice_processing();
    for sample in 1..=600u32 {
        assert_eq!(reference.fork(sample), sample);
    }
    let mut session: CaptureSession<u32> = CaptureSession::open_with_reference(config, reference);
    let mut host = ToneHost::new(16000);
    open_on(&mut session, &mut host).unwrap();
    render_cycle(&mut session, &mut host);
    render_cycle(&mut session, &mut host);
    let expected: Vec<u32> = (1..=600u32).chain(std::iter::repeat(0).take(424)).collect();
    assert_eq!(host.reference_seen, expected);
}

#[test]
fn failed_render_pushes_nothing_and_hands_the_status_back() {
    let config = CaptureConfig {
        sample_rate: 16000,
        enable_agc: false,
        enable_noise_suppression: false,
        enable_echo_cancellation: false,
    };
    let mut session: CaptureSession<u32> = CaptureSession::open(config);
    let mut host = ToneHost::new(16000);
    open_on(&mut session, &mut host).unwrap();
    assert_eq!(session.stream.poll_next(3), SamplePoll::Pending);
    let outcome = session.finish_render(-10863, &[1, 2, 3]);
    assert_eq!(outcome.status, -10863);
    assert_eq!(outcome.stored, 0);
    assert_eq!(outcome.lost, 0);
    assert_eq!(outcome.wake, None);
    assert_eq!(session.stream.poll_next(3), SamplePoll::Pending);
    let outcome = session.finish_render(0, &[1, 2, 3]);
    assert_eq!(outcome.status, 0);
    assert_eq!(outcome.stored, 3);
    assert_eq!(outcome.wake, Some(3));
    assert_eq!(session.stream.poll_next(3), SamplePoll::Ready(1));
}

#[test]
fn backpressure_drops_the_newest_and_counts_them() {
    let config = CaptureConfig {
        sample_rate: 16000,
        enable_agc: false,
        enable_noise_suppression: false,
        enable_echo_cancellation: false,
    };
    let mut session: CaptureSession<u32> = CaptureSession::open(config);
    let first: Vec<u32> = (0..8000u32).collect();
    let second: Vec<u32> = (8000..8500u32).collect();
    assert_eq!(session.finish_render(0, &first).stored, 8000);
    let outcome = session.finish_render(0, &second);
    assert_eq!(outcome.stored, 192);
    assert_eq!(outcome.lost, 308);
    assert_eq!(session.stream.dropped(), 308);
    for expected in 0..8192u32 {
        assert_eq!(session.stream.try_next(), Some(expected));
    }
    assert_eq!(session.stream.try_next(), None);
}

#[test]
fn render_helpers() {
    assert_eq!(render_precondition(false, true), -50);
    assert_eq!(render_precondition(true, false), -50);
    assert_eq!(render_precondition(false, false), -50);
    assert_eq!(render_buffer_bytes(512), Some(2048));
    assert_eq!(render_buffer_bytes(0), Some(0));
    assert_eq!(render_buffer_bytes(0x3FFF_FFFF), Some(0xFFFF_FFFC));
    assert_eq!(render_buffer_bytes(0x4000_0000), None);
    assert_eq!(status_result(0), Ok(()));
    assert_eq!(status_result(-50), Err(-50));
    assert!(status_ok(0));
    assert!(!status_ok(1));
    assert!(microphone_access_granted(3));
    assert!(!microphone_access_granted(0));
    assert!(!microphone_access_granted(2));
    assert_eq!(
        status_description(-10865),
        Some("kAudioUnitErr_FormatNotSupported - The audio format is not supported by this AudioUnit")
    );
    assert_eq!(
        status_description(-10866),
        Some("kAudioUnitErr_InvalidProperty - Invalid property for this AudioUnit")
    );
    assert_eq!(status_description(-50), Some("kAudioUnitErr_InvalidParameter - Invalid parameter"));
    assert_eq!(status_description(0), None);
    assert_eq!(status_description(-1), None);
}

#[test]
fn stream_ends_once_the_engine_has_stopped_and_the_buffer_is_drained() {
    let config = CaptureConfig {
        sample_rate: 16000,
        enable_agc: false,
        enable_noise_suppression: false,
        enable_echo_cancellation: false,
    };
    let mut session: CaptureSession<u32> = CaptureSession::open(config);
    assert_eq!(session.poll_next(1), SamplePoll::Pending);
    let mut host = ToneHost::new(16000);
    open_on(&mut session, &mut host).unwrap();
    assert_eq!(session.finish_render(0, &[7, 8]).wake, Some(1));
    session.engine.stop();
    assert_eq!(session.poll_next(2), SamplePoll::Ready(7));
    assert_eq!(session.engine.pending(), HostRequest::Stop);
    let status = host.perform(session.engine.pending());
    session.engine.advance(status);
    assert!(session.engine.renders_no_more());
    assert_eq!(session.poll_next(2), SamplePoll::Ready(8));
    assert_eq!(session.poll_next(2), SamplePoll::Ended);
    assert_eq!(session.poll_next(2), SamplePoll::Ended);
    session.engine.dispose();
    let status = host.perform(session.engine.pending());
    session.engine.advance(status);
    assert_eq!(session.engine.state(), EngineState::Disposed);
    assert_eq!(session.poll_next(2), SamplePoll::Ended);
}

#[test]
fn stream_of_a_failed_session_ends() {
    let config = CaptureConfig {
        sample_rate: 16000,
        enable_agc: true,
        enable_noise_suppression: true,
        enable_echo_cancellation: true,
    };
    let mut session: CaptureSession<u32> = CaptureSession::open(config);
    let mut host = ToneHost::new(16000);
    host.component_found = false;
    assert!(open_on(&mut session, &mut host).is_err());
    assert_eq!(session.poll_next(1), SamplePoll::Ended);
}
