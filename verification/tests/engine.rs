use voice_capture::audiounit::{
    AudioComponentDescription, AudioUnitScope, Feature, PropertyAddress, AU_INPUT_ELEMENT,
    AU_OUTPUT_ELEMENT, NO_ERR,
};
use voice_capture::engine::{
    is_recommended_sample_rate, CaptureConfig, CaptureEngine, EngineError, EnginePhase,
    EngineState, HostRequest,
};
use voice_capture::negotiator::{
    FeatureError, FeatureNegotiator, FeatureOutcome, FeatureRequest, FeatureSet,
};

/// A host that answers by a table and remembers what it was asked.
struct FakeHost {
    component_found: bool,
    create_instance: i32,
    enable_input: i32,
    configure_output: i32,
    supported: [bool; 3],
    enable_feature: [i32; 3],
    bind_callback: i32,
    initialize: i32,
    start: i32,
    initialized: bool,
    running: bool,
    instances: i32,
    enabled: [bool; 3],
    log: Vec<HostRequest>,
}

fn position(feature: Feature) -> usize {
    match feature {
        Feature::Agc => 0,
        Feature::NoiseSuppression => 1,
        Feature::EchoCancellation => 2,
    }
}

impl FakeHost {
    fn willing() -> FakeHost {
        FakeHost {
            component_found: true,
            create_instance: 0,
            enable_input: 0,
            configure_output: 0,
            supported: [true; 3],
            enable_feature: [0; 3],
            bind_callback: 0,
            initialize: 0,
            start: 0,
            initialized: false,
            running: false,
            instances: 0,
            enabled: [false; 3],
            log: Vec::new(),
        }
    }

    fn perform(&mut self, request: HostRequest) -> i32 {
        self.log.push(request);
        match request {
            HostRequest::FindComponent(description) => {
                assert_eq!(description, AudioComponentDescription::voice_processing_io());
                if self.component_found {
                    0
                } else {
                    -50
                }
            }
            HostRequest::CreateInstance => {
                if self.create_instance == 0 {
                    self.instances += 1;
                }
                self.create_instance
            }
            HostRequest::SetIoEnabled { scope, .. } => match scope {
                AudioUnitScope::Input => self.enable_input,
                _ => self.configure_output,
            },
            HostRequest::QueryFeatureSupport(feature) => {
                if self.supported[position(feature)] {
                    0
                } else {
                    -10879
                }
            }
            HostRequest::SetFeature { feature, enable } => {
                if self.initialized {
                    return -10849;
                }
                let status = self.enable_feature[position(feature)];
                if status == 0 {
                    self.enabled[position(feature)] = enable;
                }
                status
            }
            HostRequest::BindRenderCallback => self.bind_callback,
            HostRequest::Initialize => {
                if self.initialize == 0 {
                    self.initialized = true;
                }
                self.initialize
            }
            HostRequest::Start => {
                if self.start == 0 {
                    self.running = true;
                }
                self.start
            }
            HostRequest::Stop => {
                self.running = false;
                0
            }
            HostRequest::Dispose => {
                assert!(!self.running);
                self.instances -= 1;
                0
            }
            HostRequest::Idle => panic!("nothing was pending"),
        }
    }
}

fn drive(engine: &mut CaptureEngine, host: &mut FakeHost) {
    let mut steps = 0;
    while engine.pending() != HostRequest::Idle {
        let status = host.perform(engine.pending());
        engine.advance(status);
        steps += 1;
        assert!(steps <= 15);
    }
}

fn config(sample_rate: u32, agc: bool, ns: bool, ec: bool) -> CaptureConfig {
    CaptureConfig {
        sample_rate,
        enable_agc: agc,
        enable_noise_suppression: ns,
        enable_echo_cancellation: ec,
    }
}

#[test]
fn requests_come_in_the_order_of_the_lifecycle() {
    let mut engine = CaptureEngine::new(config(16000, true, true, true), false);
    let mut host = FakeHost::willing();
    drive(&mut engine, &mut host);
    assert_eq!(
        host.log,
        vec![
            HostRequest::FindComponent(AudioComponentDescription::voice_processing_io()),
            HostRequest::CreateInstance,
            HostRequest::SetIoEnabled {
                scope: AudioUnitScope::Input,
                element: AU_INPUT_ELEMENT,
                enable: true,
            },
            HostRequest::SetIoEnabled {
                scope: AudioUnitScope::Output,
                element: AU_OUTPUT_ELEMENT,
                enable: false,
            },
            HostRequest::QueryFeatureSupport(Feature::Agc),
            HostRequest::SetFeature { feature: Feature::Agc, enable: true },
            HostRequest::QueryFeatureSupport(Feature::NoiseSuppression),
            HostRequest::SetFeature { feature: Feature::NoiseSuppression, enable: true },
            HostRequest::QueryFeatureSupport(Feature::EchoCancellation),
            HostRequest::SetFeature { feature: Feature::EchoCancellation, enable: true },
            HostRequest::BindRenderCallback,
            HostRequest::Initialize,
            HostRequest::Start,
        ]
    );
    assert_eq!(engine.state(), EngineState::Running);
    assert_eq!(engine.outcome(), Some(Ok(())));
    assert!(engine.callback_bound);
    assert_eq!(host.enabled, [true, true, true]);
}

#[test]
fn states_follow_one_another() {
    let mut engine = CaptureEngine::new(config(16000, true, false, false), true);
    let expected = [
        EngineState::Created,
        EngineState::Created,
        EngineState::Created,
        EngineState::Created,
        EngineState::IOConfigured,
        EngineState::IOConfigured,
        EngineState::FeaturesConfigured,
        EngineState::CallbackBound,
        EngineState::Initialized,
        EngineState::Running,
    ];
    for state in expected {
        assert_eq!(engine.state(), state);
        assert_eq!(engine.outcome(), if state == EngineState::Running { Some(Ok(())) } else { None });
        engine.advance(NO_ERR);
    }
    assert_eq!(engine.state(), EngineState::Running);
    engine.stop();
    assert_eq!(engine.state(), EngineState::Stopped);
    assert_eq!(engine.pending(), HostRequest::Stop);
    engine.advance(NO_ERR);
    assert_eq!(engine.pending(), HostRequest::Idle);
    engine.dispose();
    assert_eq!(engine.pending(), HostRequest::Dispose);
    engine.advance(NO_ERR);
    assert_eq!(engine.state(), EngineState::Disposed);
    assert_eq!(engine.pending(), HostRequest::Idle);
}

#[test]
fn reference_switches_the_output_direction_on() {
    let mut engine = CaptureEngine::new(config(48000, false, false, false), true);
    engine.advance(NO_ERR);
    engine.advance(NO_ERR);
    engine.advance(NO_ERR);
    assert_eq!(
        engine.pending(),
        HostRequest::SetIoEnabled {
            scope: AudioUnitScope::Output,
            element: AU_OUTPUT_ELEMENT,
            enable: true,
        }
    );
    engine.advance(NO_ERR);
    assert_eq!(engine.pending(), HostRequest::BindRenderCallback);
}

#[test]
fn features_are_enabled_before_initialization_and_not_after() {
    for mask in 0..8u32 {
        let wanted = [mask & 1 != 0, mask & 2 != 0, mask & 4 != 0];
        let mut engine =
            CaptureEngine::new(config(16000, wanted[0], wanted[1], wanted[2]), false);
        let mut host = FakeHost::willing();
        drive(&mut engine, &mut host);
        assert_eq!(host.enabled, wanted);
        let initialize = host.log.iter().position(|r| *r == HostRequest::Initialize).unwrap();
        for (index, request) in host.log.iter().enumerate() {
            if let HostRequest::SetFeature { .. } | HostRequest::QueryFeatureSupport(_) = request {
                assert!(index < initialize);
            }
        }
        // The same request after initialization has no effect on the host.
        let before = host.enabled;
        for feature in [Feature::Agc, Feature::NoiseSuppression, Feature::EchoCancellation] {
            let status = host.perform(HostRequest::SetFeature { feature, enable: true });
            assert_ne!(status, 0);
        }
        assert_eq!(host.enabled, before);
        // And the engine asks for none, whatever happens to it from here on.
        let report = engine.report();
        engine.advance(0);
        engine.advance(-1);
        assert_eq!(engine.report(), report);
        engine.stop();
        assert_eq!(engine.pending(), HostRequest::Stop);
        engine.advance(0);
        engine.dispose();
        assert_eq!(engine.pending(), HostRequest::Dispose);
        engine.advance(0);
        assert_eq!(engine.pending(), HostRequest::Idle);
        assert_eq!(engine.report(), report);
    }
}

#[test]
fn unsupported_features_do_not_stop_the_opening() {
    let mut engine = CaptureEngine::new(config(16000, true, true, true), false);
    let mut host = FakeHost::willing();
    host.supported = [false; 3];
    drive(&mut engine, &mut host);
    assert_eq!(engine.outcome(), Some(Ok(())));
    assert_eq!(engine.state(), EngineState::Running);
    assert_eq!(host.enabled, [false; 3]);
    let report = engine.report();
    for feature in [Feature::Agc, Feature::NoiseSuppression, Feature::EchoCancellation] {
        assert_eq!(
            report.outcome(feature),
            FeatureOutcome::Degraded(FeatureError::Unsupported)
        );
    }
    assert!(!host.log.iter().any(|r| matches!(r, HostRequest::SetFeature { .. })));
}

#[test]
fn refused_features_do_not_stop_the_opening() {
    let mut engine = CaptureEngine::new(config(16000, true, true, true), false);
    let mut host = FakeHost::willing();
    host.enable_feature = [-1, 0, -3];
    host.bind_callback = -4;
    drive(&mut engine, &mut host);
    assert_eq!(engine.outcome(), Some(Ok(())));
    assert!(!engine.callback_bound);
    let report = engine.report();
    assert_eq!(report.agc, FeatureOutcome::Degraded(FeatureError::EnableFailed(-1)));
    assert_eq!(report.noise_suppression, FeatureOutcome::Enabled);
    assert_eq!(report.echo_cancellation, FeatureOutcome::Degraded(FeatureError::EnableFailed(-3)));
    assert_eq!(host.enabled, [false, true, false]);
}

#[test]
fn features_not_requested_are_not_touched() {
    let mut engine = CaptureEngine::new(config(16000, false, true, false), false);
    let mut host = FakeHost::willing();
    drive(&mut engine, &mut host);
    let report = engine.report();
    assert_eq!(report.agc, FeatureOutcome::NotRequested);
    assert_eq!(report.noise_suppression, FeatureOutcome::Enabled);
    assert_eq!(report.echo_cancellation, FeatureOutcome::NotRequested);
    assert_eq!(host.log.len(), 9);
}

#[test]
fn missing_component_fails_and_leaves_nothing_behind() {
    let mut engine = CaptureEngine::new(config(16000, true, true, true), false);
    let mut host = FakeHost::willing();
    host.component_found = false;
    drive(&mut engine, &mut host);
    assert_eq!(engine.outcome(), Some(Err(EngineError::ComponentNotFound)));
    assert_eq!(engine.state(), EngineState::Disposed);
    assert_eq!(host.log.len(), 1);
    assert_eq!(host.instances, 0);
    assert_eq!(EngineError::ComponentNotFound.status(), -50);
}

#[test]
fn failed_instance_creation_is_fatal() {
    let mut engine = CaptureEngine::new(config(16000, true, true, true), false);
    let mut host = FakeHost::willing();
    host.create_instance = -10;
    drive(&mut engine, &mut host);
    assert_eq!(engine.outcome(), Some(Err(EngineError::InstanceCreationFailed(-10))));
    assert_eq!(engine.state(), EngineState::Disposed);
    assert_eq!(host.log.len(), 2);
    assert_eq!(host.instances, 0);
}

#[test]
fn failed_direction_setup_is_fatal_and_releases_the_instance() {
    let mut engine = CaptureEngine::new(config(16000, true, true, true), false);
    let mut host = FakeHost::willing();
    host.enable_input = -11;
    drive(&mut engine, &mut host);
    assert_eq!(engine.outcome(), Some(Err(EngineError::InputEnableFailed(-11))));
    assert_eq!(host.instances, 0);
    assert_eq!(&host.log[3..], &[HostRequest::Stop, HostRequest::Dispose]);

    let mut engine = CaptureEngine::new(config(16000, true, true, true), true);
    let mut host = FakeHost::willing();
    host.configure_output = -12;
    drive(&mut engine, &mut host);
    assert_eq!(engine.outcome(), Some(Err(EngineError::OutputConfigurationFailed(-12))));
    assert_eq!(EngineError::OutputConfigurationFailed(-12).status(), -12);
    assert_eq!(host.instances, 0);
}

#[test]
fn failed_initialization_and_start_are_fatal() {
    let mut engine = CaptureEngine::new(config(16000, false, false, false), false);
    let mut host = FakeHost::willing();
    host.initialize = -13;
    drive(&mut engine, &mut host);
    assert_eq!(engine.outcome(), Some(Err(EngineError::InitializeFailed(-13))));
    assert_eq!(engine.state(), EngineState::Disposed);
    assert_eq!(host.instances, 0);

    let mut engine = CaptureEngine::new(config(16000, false, false, false), false);
    let mut host = FakeHost::willing();
    host.start = -14;
    drive(&mut engine, &mut host);
    assert_eq!(engine.outcome(), Some(Err(EngineError::StartFailed(-14))));
    assert_eq!(engine.state(), EngineState::Disposed);
    assert_eq!(host.instances, 0);
    assert!(!host.running);
}

#[test]
fn dispose_is_idempotent_and_stops_first() {
    let mut engine = CaptureEngine::new(config(16000, true, false, false), false);
    let mut host = FakeHost::willing();
    drive(&mut engine, &mut host);
    assert!(host.running);
    engine.dispose();
    let once = engine;
    engine.dispose();
    assert_eq!(engine, once);
    assert_eq!(engine.phase, EnginePhase::Unwinding);
    drive(&mut engine, &mut host);
    assert_eq!(engine.state(), EngineState::Disposed);
    assert_eq!(host.instances, 0);
    let n = host.log.len();
    assert_eq!(&host.log[n - 2..], &[HostRequest::Stop, HostRequest::Dispose]);
    let disposed = engine;
    engine.dispose();
    engine.stop();
    engine.advance(0);
    assert_eq!(engine, disposed);
    assert_eq!(engine.outcome(), Some(Ok(())));
}

#[test]
fn stop_only_stops_a_running_engine() {
    let mut engine = CaptureEngine::new(config(16000, true, false, false), false);
    let fresh = engine;
    engine.stop();
    assert_eq!(engine, fresh);
    engine.dispose();
    assert_eq!(engine.state(), EngineState::Disposed);
    assert_eq!(engine.outcome(), None);
}

#[test]
fn requests_address_the_right_properties() {
    let input = HostRequest::SetIoEnabled {
        scope: AudioUnitScope::Input,
        element: AU_INPUT_ELEMENT,
        enable: true,
    };
    assert_eq!(
        input.property(),
        Some(PropertyAddress { id: 2003, scope: AudioUnitScope::Input, element: 1 })
    );
    assert_eq!(input.value(), Some(1));
    let output = HostRequest::SetIoEnabled {
        scope: AudioUnitScope::Output,
        element: AU_OUTPUT_ELEMENT,
        enable: false,
    };
    assert_eq!(output.value(), Some(0));
    assert_eq!(
        HostRequest::QueryFeatureSupport(Feature::EchoCancellation).property(),
        Some(PropertyAddress { id: 2009, scope: AudioUnitScope::Global, element: 0 })
    );
    assert_eq!(HostRequest::QueryFeatureSupport(Feature::EchoCancellation).value(), None);
    let agc = HostRequest::SetFeature { feature: Feature::Agc, enable: true };
    assert_eq!(
        agc.property(),
        Some(PropertyAddress { id: 2010, scope: AudioUnitScope::Global, element: 0 })
    );
    assert_eq!(agc.value(), Some(1));
    assert_eq!(
        HostRequest::BindRenderCallback.property(),
        Some(PropertyAddress { id: 23, scope: AudioUnitScope::Input, element: 1 })
    );
    assert_eq!(HostRequest::Initialize.property(), None);
    assert_eq!(Feature::NoiseSuppression.property_id(), 2011);
    assert_eq!(AudioUnitScope::Global.code(), 0);
    assert_eq!(AudioUnitScope::Input.code(), 1);
    assert_eq!(AudioUnitScope::Output.code(), 2);
}

#[test]
fn component_description_names_the_voice_processing_unit() {
    let description = AudioComponentDescription::voice_processing_io();
    assert_eq!(description.component_type, 0x6175_6F75);
    assert_eq!(description.component_sub_type, 0x7670_696F);
    assert_eq!(description.component_manufacturer, 0x6170_706C);
    assert_eq!(description.component_flags, 0);
    assert_eq!(description.component_flags_mask, 0);
    assert_eq!(description.component_type.to_be_bytes(), *b"auou");
    assert_eq!(description.component_sub_type.to_be_bytes(), *b"vpio");
    assert_eq!(description.component_manufacturer.to_be_bytes(), *b"appl");
}

#[test]
fn recommended_sample_rates() {
    for rate in [8000u32, 16000, 24000, 48000] {
        assert!(is_recommended_sample_rate(rate));
    }
    for rate in [0u32, 44100, 22050, 96000, 16001] {
        assert!(!is_recommended_sample_rate(rate));
    }
}

#[test]
fn negotiator_takes_features_one_by_one() {
    let requested =
        FeatureSet { agc: true, noise_suppression: false, echo_cancellation: true };
    assert!(requested.contains(Feature::Agc));
    assert!(!requested.contains(Feature::NoiseSuppression));
    let mut negotiator = FeatureNegotiator::new(requested);
    assert_eq!(negotiator.pending(), Some(FeatureRequest::Supports(Feature::Agc)));
    negotiator.advance(0);
    assert_eq!(negotiator.pending(), Some(FeatureRequest::Enable(Feature::Agc)));
    negotiator.advance(0);
    assert_eq!(negotiator.pending(), Some(FeatureRequest::Supports(Feature::EchoCancellation)));
    negotiator.advance(-1);
    assert_eq!(negotiator.pending(), None);
    assert!(negotiator.is_done());
    assert_eq!(
        negotiator.enabled(),
        FeatureSet { agc: true, noise_suppression: false, echo_cancellation: false }
    );
    let settled = negotiator;
    negotiator.advance(0);
    assert_eq!(negotiator, settled);
}

#[test]
fn negotiator_with_nothing_requested_is_done() {
    let negotiator = FeatureNegotiator::new(FeatureSet {
        agc: false,
        noise_suppression: false,
        echo_cancellation: false,
    });
    assert!(negotiator.is_done());
    assert_eq!(negotiator.pending(), None);
}
