//! The lifecycle of a capture engine.
//!
//! The engine never calls the host itself. It says which host request is
//! pending, takes the status the host answered with, and moves on: the
//! directions that are active are declared first, then the optional features
//! are negotiated, then the render callback is bound, and only then is the
//! unit initialized and started. A host ignores features that are requested
//! after initialization, so the engine requests none then.

use vstd::prelude::*;
use crate::audiounit::{
    flag_value,
    spec_flag_value,
    AudioComponentDescription,
    AudioUnitScope,
    Feature,
    PropertyAddress,
    AU_INPUT_ELEMENT,
    AU_OUTPUT_ELEMENT,
    K_AUDIO_UNIT_ERR_INVALID_PARAMETER,
    NO_ERR,
};
use crate::negotiator::{FeatureNegotiator, FeatureReport, FeatureRequest, FeatureSet};

verus! {

/// What a capture session is asked to do.
#[derive(Clone, Copy, Debug, PartialEq, Eq, Structural)]
pub struct CaptureConfig {
    /// Advisory: the host decides the format it delivers.
    pub sample_rate: u32,
    pub enable_agc: bool,
    pub enable_noise_suppression: bool,
    pub enable_echo_cancellation: bool,
}

/// Whether a sample rate is one of those voice processing is tuned for.
pub open spec fn spec_is_recommended_sample_rate(sample_rate: u32) -> bool {
    sample_rate == 8000 || sample_rate == 16000 || sample_rate == 24000 || sample_rate == 48000
}

#[verifier::when_used_as_spec(spec_is_recommended_sample_rate)]
pub fn is_recommended_sample_rate(sample_rate: u32) -> (recommended: bool)
    ensures
        recommended == spec_is_recommended_sample_rate(sample_rate),
{
    sample_rate == 8000 || sample_rate == 16000 || sample_rate == 24000 || sample_rate == 48000
}

impl CaptureConfig {
    /// The features the configuration asks for.
    pub open spec fn spec_requested(&self) -> FeatureSet {
        FeatureSet {
            agc: self.enable_agc,
            noise_suppression: self.enable_noise_suppression,
            echo_cancellation: self.enable_echo_cancellation,
        }
    }

    #[verifier::when_used_as_spec(spec_requested)]
    pub fn requested(&self) -> (set: FeatureSet)
        ensures
            set == self.spec_requested(),
    {
        FeatureSet {
            agc: self.enable_agc,
            noise_suppression: self.enable_noise_suppression,
            echo_cancellation: self.enable_echo_cancellation,
        }
    }
}

/// The stages of an engine's life, in order.
#[derive(Clone, Copy, Debug, PartialEq, Eq, Structural)]
pub enum EngineState {
    Created,
    IOConfigured,
    FeaturesConfigured,
    CallbackBound,
    Initialized,
    Running,
    Stopped,
    Disposed,
}

impl EngineState {
    /// Position of the state in the order of an engine's life.
    pub open spec fn rank(self) -> int {
        match self {
            EngineState::Created => 0,
            EngineState::IOConfigured => 1,
            EngineState::FeaturesConfigured => 2,
            EngineState::CallbackBound => 3,
            EngineState::Initialized => 4,
            EngineState::Running => 5,
            EngineState::Stopped => 6,
            EngineState::Disposed => 7,
        }
    }
}

/// A failure that ends a session. The caller may open a new one.
#[derive(Clone, Copy, Debug, PartialEq, Eq, Structural)]
pub enum EngineError {
    ComponentNotFound,
    InstanceCreationFailed(i32),
    InputEnableFailed(i32),
    OutputConfigurationFailed(i32),
    InitializeFailed(i32),
    StartFailed(i32),
}

impl EngineError {
    pub open spec fn spec_status(&self) -> i32 {
        match *self {
            EngineError::ComponentNotFound => K_AUDIO_UNIT_ERR_INVALID_PARAMETER,
            EngineError::InstanceCreationFailed(status) => status,
            EngineError::InputEnableFailed(status) => status,
            EngineError::OutputConfigurationFailed(status) => status,
            EngineError::InitializeFailed(status) => status,
            EngineError::StartFailed(status) => status,
        }
    }

    /// The host status behind the failure. A component that was not found
    /// counts as an invalid parameter.
    #[verifier::when_used_as_spec(spec_status)]
    pub fn status(&self) -> (status: i32)
        ensures
            status == self.spec_status(),
    {
        match *self {
            EngineError::ComponentNotFound => K_AUDIO_UNIT_ERR_INVALID_PARAMETER,
            EngineError::InstanceCreationFailed(status) => status,
            EngineError::InputEnableFailed(status) => status,
            EngineError::OutputConfigurationFailed(status) => status,
            EngineError::InitializeFailed(status) => status,
            EngineError::StartFailed(status) => status,
        }
    }
}

/// A call the owner of the engine makes on the host on its behalf, and
/// answers with the status the host returned.
#[derive(Clone, Copy, Debug, PartialEq, Eq, Structural)]
pub enum HostRequest {
    /// Look the component up. Answer success where it was found.
    FindComponent(AudioComponentDescription),
    CreateInstance,
    SetIoEnabled { scope: AudioUnitScope, element: u32, enable: bool },
    /// Ask whether the feature's property exists in the global scope, on
    /// element 0. Answer success where it does.
    QueryFeatureSupport(Feature),
    SetFeature { feature: Feature, enable: bool },
    BindRenderCallback,
    Initialize,
    Start,
    Stop,
    /// Release the instance.
    Dispose,
    /// Nothing is pending.
    Idle,
}

/// Where exactly an engine stands: the host request it waits on, or the
/// resting place it has reached.
#[derive(Clone, Copy, Debug, PartialEq, Eq, Structural)]
pub enum EnginePhase {
    FindComponent,
    CreateInstance,
    EnableInput,
    ConfigureOutput,
    Negotiate,
    BindCallback,
    Initialize,
    Start,
    Running,
    /// A stop is pending; the engine then rests stopped.
    Stopping,
    /// A stop is pending; the instance is released after it.
    Unwinding,
    Stopped,
    /// The release of the instance is pending.
    Releasing,
    Disposed,
}

impl HostRequest {
    /// Whether the request asks about a feature or switches one.
    pub open spec fn is_feature_request(self) -> bool {
        self is QueryFeatureSupport || self is SetFeature
    }

    /// The property the request reads or writes, for the requests that are
    /// about a property.
    pub open spec fn spec_property(&self) -> Option<PropertyAddress> {
        match *self {
            HostRequest::SetIoEnabled { scope, element, enable } => Some(
                PropertyAddress::spec_enable_io(scope, element),
            ),
            HostRequest::QueryFeatureSupport(feature) => Some(
                PropertyAddress::spec_feature(feature),
            ),
            HostRequest::SetFeature { feature, enable } => Some(
                PropertyAddress::spec_feature(feature),
            ),
            HostRequest::BindRenderCallback => Some(PropertyAddress::spec_render_callback()),
            _ => None,
        }
    }

    /// The value the request writes, for the requests that switch something.
    pub open spec fn spec_value(&self) -> Option<u32> {
        match *self {
            HostRequest::SetIoEnabled { scope, element, enable } => Some(
                spec_flag_value(enable),
            ),
            HostRequest::SetFeature { feature, enable } => Some(spec_flag_value(enable)),
            _ => None,
        }
    }

    #[verifier::when_used_as_spec(spec_property)]
    pub fn property(&self) -> (address: Option<PropertyAddress>)
        ensures
            address == self.spec_property(),
    {
        match *self {
            HostRequest::SetIoEnabled { scope, element, enable: _ } => Some(
                PropertyAddress::enable_io(scope, element),
            ),
            HostRequest::QueryFeatureSupport(feature) => Some(PropertyAddress::feature(feature)),
            HostRequest::SetFeature { feature, enable: _ } => Some(
                PropertyAddress::feature(feature),
            ),
            HostRequest::BindRenderCallback => Some(PropertyAddress::render_callback()),
            _ => None,
        }
    }

    #[verifier::when_used_as_spec(spec_value)]
    pub fn value(&self) -> (value: Option<u32>)
        ensures
            value == self.spec_value(),
    {
        match *self {
            HostRequest::SetIoEnabled { scope: _, element: _, enable } => Some(
                flag_value(enable),
            ),
            HostRequest::SetFeature { feature: _, enable } => Some(flag_value(enable)),
            _ => None,
        }
    }
}

impl EnginePhase {
    pub open spec fn state(self) -> EngineState {
        match self {
            EnginePhase::FindComponent => EngineState::Created,
            EnginePhase::CreateInstance => EngineState::Created,
            EnginePhase::EnableInput => EngineState::Created,
            EnginePhase::ConfigureOutput => EngineState::Created,
            EnginePhase::Negotiate => EngineState::IOConfigured,
            EnginePhase::BindCallback => EngineState::FeaturesConfigured,
            EnginePhase::Initialize => EngineState::CallbackBound,
            EnginePhase::Start => EngineState::Initialized,
            EnginePhase::Running => EngineState::Running,
            EnginePhase::Stopping => EngineState::Stopped,
            EnginePhase::Unwinding => EngineState::Stopped,
            EnginePhase::Stopped => EngineState::Stopped,
            EnginePhase::Releasing => EngineState::Stopped,
            EnginePhase::Disposed => EngineState::Disposed,
        }
    }

    /// Whether the host has stopped the unit for good, or never got to
    /// start it: no render cycle comes any more.
    pub open spec fn renders_no_more(self) -> bool {
        self == EnginePhase::Stopped || self == EnginePhase::Releasing || self
            == EnginePhase::Disposed
    }

    /// Whether a host instance exists in this phase.
    pub open spec fn has_instance(self) -> bool {
        !(self == EnginePhase::FindComponent || self == EnginePhase::CreateInstance || self
            == EnginePhase::Disposed)
    }
}

/// The state machine of one capture engine.
#[derive(Clone, Copy, Debug, PartialEq, Eq, Structural)]
pub struct CaptureEngine {
    pub config: CaptureConfig,
    /// Whether a reference stream is attached, so that the output direction
    /// is active too.
    pub has_reference: bool,
    pub phase: EnginePhase,
    pub negotiator: FeatureNegotiator,
    /// Whether the host accepted the render callback.
    pub callback_bound: bool,
    /// Whether the host has started the unit.
    pub started: bool,
    pub error: Option<EngineError>,
}

impl CaptureEngine {
    pub open spec fn spec_new(config: CaptureConfig, has_reference: bool) -> CaptureEngine {
        CaptureEngine {
            config,
            has_reference,
            phase: EnginePhase::FindComponent,
            negotiator: FeatureNegotiator::spec_new(config.spec_requested()),
            callback_bound: false,
            started: false,
            error: None,
        }
    }

    pub open spec fn spec_state(&self) -> EngineState {
        self.phase.state()
    }

    pub open spec fn spec_pending(&self) -> HostRequest {
        match self.phase {
            EnginePhase::FindComponent => HostRequest::FindComponent(
                AudioComponentDescription::spec_voice_processing_io(),
            ),
            EnginePhase::CreateInstance => HostRequest::CreateInstance,
            EnginePhase::EnableInput => HostRequest::SetIoEnabled {
                scope: AudioUnitScope::Input,
                element: AU_INPUT_ELEMENT,
                enable: true,
            },
            EnginePhase::ConfigureOutput => HostRequest::SetIoEnabled {
                scope: AudioUnitScope::Output,
                element: AU_OUTPUT_ELEMENT,
                enable: self.has_reference,
            },
            EnginePhase::Negotiate => match self.negotiator.spec_pending() {
                Some(FeatureRequest::Supports(feature)) => HostRequest::QueryFeatureSupport(
                    feature,
                ),
                Some(FeatureRequest::Enable(feature)) => HostRequest::SetFeature {
                    feature,
                    enable: true,
                },
                None => HostRequest::Idle,
            },
            EnginePhase::BindCallback => HostRequest::BindRenderCallback,
            EnginePhase::Initialize => HostRequest::Initialize,
            EnginePhase::Start => HostRequest::Start,
            EnginePhase::Running => HostRequest::Idle,
            EnginePhase::Stopping => HostRequest::Stop,
            EnginePhase::Unwinding => HostRequest::Stop,
            EnginePhase::Stopped => HostRequest::Idle,
            EnginePhase::Releasing => HostRequest::Dispose,
            EnginePhase::Disposed => HostRequest::Idle,
        }
    }

    /// The engine after a failure that ends the session: the error is kept,
    /// and the instance, where there is one, is stopped and then released.
    pub open spec fn failed(self, error: EngineError) -> CaptureEngine {
        CaptureEngine {
            phase: if self.phase.has_instance() {
                EnginePhase::Unwinding
            } else {
                EnginePhase::Disposed
            },
            error: Some(error),
            ..self
        }
    }

    /// The phase that follows the configuration of the directions, and each
    /// step of the negotiation.
    pub open spec fn after_features(negotiator: FeatureNegotiator) -> EnginePhase {
        if negotiator.spec_is_done() {
            EnginePhase::BindCallback
        } else {
            EnginePhase::Negotiate
        }
    }

    /// The engine after the host answered the pending request with `status`.
    pub open spec fn advanced(self, status: i32) -> CaptureEngine {
        match self.phase {
            EnginePhase::FindComponent => if status == NO_ERR {
                CaptureEngine { phase: EnginePhase::CreateInstance, ..self }
            } else {
                self.failed(EngineError::ComponentNotFound)
            },
            EnginePhase::CreateInstance => if status == NO_ERR {
                CaptureEngine { phase: EnginePhase::EnableInput, ..self }
            } else {
                self.failed(EngineError::InstanceCreationFailed(status))
            },
            EnginePhase::EnableInput => if status == NO_ERR {
                CaptureEngine { phase: EnginePhase::ConfigureOutput, ..self }
            } else {
                self.failed(EngineError::InputEnableFailed(status))
            },
            EnginePhase::ConfigureOutput => if status == NO_ERR {
                CaptureEngine { phase: Self::after_features(self.negotiator), ..self }
            } else {
                self.failed(EngineError::OutputConfigurationFailed(status))
            },
            EnginePhase::Negotiate => {
                let negotiator = self.negotiator.advanced(status);
                CaptureEngine { phase: Self::after_features(negotiator), negotiator, ..self }
            },
            EnginePhase::BindCallback => CaptureEngine {
                phase: EnginePhase::Initialize,
                callback_bound: status == NO_ERR,
                ..self
            },
            EnginePhase::Initialize => if status == NO_ERR {
                CaptureEngine { phase: EnginePhase::Start, ..self }
            } else {
                self.failed(EngineError::InitializeFailed(status))
            },
            EnginePhase::Start => if status == NO_ERR {
                CaptureEngine { phase: EnginePhase::Running, started: true, ..self }
            } else {
                self.failed(EngineError::StartFailed(status))
            },
            EnginePhase::Running => self,
            EnginePhase::Stopping => CaptureEngine { phase: EnginePhase::Stopped, ..self },
            EnginePhase::Unwinding => CaptureEngine { phase: EnginePhase::Releasing, ..self },
            EnginePhase::Stopped => self,
            EnginePhase::Releasing => CaptureEngine { phase: EnginePhase::Disposed, ..self },
            EnginePhase::Disposed => self,
        }
    }

    /// The engine after a request to stop: a running engine gets a stop
    /// pending, any other is left as it is.
    pub open spec fn stop_requested(self) -> CaptureEngine {
        if self.phase == EnginePhase::Running {
            CaptureEngine { phase: EnginePhase::Stopping, ..self }
        } else {
            self
        }
    }

    /// The engine after a request to dispose of it. The instance is always
    /// stopped before it is released; an engine without an instance is
    /// disposed at once; one that is disposed, or on its way, is left as it is.
    pub open spec fn dispose_requested(self) -> CaptureEngine {
        match self.phase {
            EnginePhase::FindComponent => CaptureEngine { phase: EnginePhase::Disposed, ..self },
            EnginePhase::CreateInstance => CaptureEngine { phase: EnginePhase::Disposed, ..self },
            EnginePhase::Stopped => CaptureEngine { phase: EnginePhase::Releasing, ..self },
            EnginePhase::Releasing => self,
            EnginePhase::Unwinding => self,
            EnginePhase::Disposed => self,
            _ => CaptureEngine { phase: EnginePhase::Unwinding, ..self },
        }
    }

    /// How the opening of the session ended: `None` while it is under way.
    pub open spec fn spec_outcome(&self) -> Option<Result<(), EngineError>> {
        match self.error {
            Some(error) => Some(Err(error)),
            None => if self.started {
                Some(Ok(()))
            } else {
                None
            },
        }
    }

    /// An upper bound on the host answers the engine still waits for.
    pub open spec fn remaining(self) -> nat {
        match self.phase {
            EnginePhase::FindComponent => 15,
            EnginePhase::CreateInstance => 14,
            EnginePhase::EnableInput => 13,
            EnginePhase::ConfigureOutput => 12,
            EnginePhase::Negotiate => 5 + self.negotiator.remaining(),
            EnginePhase::BindCallback => 5,
            EnginePhase::Initialize => 4,
            EnginePhase::Start => 3,
            EnginePhase::Running => 0,
            EnginePhase::Stopping => 1,
            EnginePhase::Unwinding => 2,
            EnginePhase::Stopped => 0,
            EnginePhase::Releasing => 1,
            EnginePhase::Disposed => 0,
        }
    }

    /// A new engine for `config`. Its first pending request is the lookup of
    /// the voice-processing component.
    pub fn new(config: CaptureConfig, has_reference: bool) -> (engine: CaptureEngine)
        ensures
            engine == Self::spec_new(config, has_reference),
    {
        CaptureEngine {
            config,
            has_reference,
            phase: EnginePhase::FindComponent,
            negotiator: FeatureNegotiator::new(config.requested()),
            callback_bound: false,
            started: false,
            error: None,
        }
    }

    #[verifier::when_used_as_spec(spec_state)]
    pub fn state(&self) -> (state: EngineState)
        ensures
            state == self.spec_state(),
    {
        match self.phase {
            EnginePhase::FindComponent => EngineState::Created,
            EnginePhase::CreateInstance => EngineState::Created,
            EnginePhase::EnableInput => EngineState::Created,
            EnginePhase::ConfigureOutput => EngineState::Created,
            EnginePhase::Negotiate => EngineState::IOConfigured,
            EnginePhase::BindCallback => EngineState::FeaturesConfigured,
            EnginePhase::Initialize => EngineState::CallbackBound,
            EnginePhase::Start => EngineState::Initialized,
            EnginePhase::Running => EngineState::Running,
            EnginePhase::Stopping => EngineState::Stopped,
            EnginePhase::Unwinding => EngineState::Stopped,
            EnginePhase::Stopped => EngineState::Stopped,
            EnginePhase::Releasing => EngineState::Stopped,
            EnginePhase::Disposed => EngineState::Disposed,
        }
    }

    /// The host request the engine waits on, or [`HostRequest::Idle`].
    #[verifier::when_used_as_spec(spec_pending)]
    pub fn pending(&self) -> (request: HostRequest)
        ensures
            request == self.spec_pending(),
    {
        match self.phase {
            EnginePhase::FindComponent => HostRequest::FindComponent(
                AudioComponentDescription::voice_processing_io(),
            ),
            EnginePhase::CreateInstance => HostRequest::CreateInstance,
            EnginePhase::EnableInput => HostRequest::SetIoEnabled {
                scope: AudioUnitScope::Input,
                element: AU_INPUT_ELEMENT,
                enable: true,
            },
            EnginePhase::ConfigureOutput => HostRequest::SetIoEnabled {
                scope: AudioUnitScope::Output,
                element: AU_OUTPUT_ELEMENT,
                enable: self.has_reference,
            },
            EnginePhase::Negotiate => match self.negotiator.pending() {
                Some(FeatureRequest::Supports(feature)) => HostRequest::QueryFeatureSupport(
                    feature,
                ),
                Some(FeatureRequest::Enable(feature)) => HostRequest::SetFeature {
                    feature,
                    enable: true,
                },
                None => HostRequest::Idle,
            },
            EnginePhase::BindCallback => HostRequest::BindRenderCallback,
            EnginePhase::Initialize => HostRequest::Initialize,
            EnginePhase::Start => HostRequest::Start,
            EnginePhase::Running => HostRequest::Idle,
            EnginePhase::Stopping => HostRequest::Stop,
            EnginePhase::Unwinding => HostRequest::Stop,
            EnginePhase::Stopped => HostRequest::Idle,
            EnginePhase::Releasing => HostRequest::Dispose,
            EnginePhase::Disposed => HostRequest::Idle,
        }
    }

    fn fail(&mut self, error: EngineError)
        ensures
            *final(self) == old(self).failed(error),
    {
        self.phase = match self.phase {
            EnginePhase::FindComponent => EnginePhase::Disposed,
            EnginePhase::CreateInstance => EnginePhase::Disposed,
            EnginePhase::Disposed => EnginePhase::Disposed,
            _ => EnginePhase::Unwinding,
        };
        self.error = Some(error);
    }

    fn phase_after_features(&self) -> (phase: EnginePhase)
        ensures
            phase == Self::after_features(self.negotiator),
    {
        if self.negotiator.is_done() {
            EnginePhase::BindCallback
        } else {
            EnginePhase::Negotiate
        }
    }

    /// Takes the host's answer to the pending request and moves to the next
    /// one. The answers to a feature request and to the binding of the
    /// callback never end the session; a failure of any other step of the
    /// opening does. Where nothing is pending, nothing changes.
    pub fn advance(&mut self, status: i32)
        ensures
            *final(self) == old(self).advanced(status),
    {
        match self.phase {
            EnginePhase::FindComponent => {
                if status == NO_ERR {
                    self.phase = EnginePhase::CreateInstance;
                } else {
                    self.fail(EngineError::ComponentNotFound);
                }
            },
            EnginePhase::CreateInstance => {
                if status == NO_ERR {
                    self.phase = EnginePhase::EnableInput;
                } else {
                    self.fail(EngineError::InstanceCreationFailed(status));
                }
            },
            EnginePhase::EnableInput => {
                if status == NO_ERR {
                    self.phase = EnginePhase::ConfigureOutput;
                } else {
                    self.fail(EngineError::InputEnableFailed(status));
                }
            },
            EnginePhase::ConfigureOutput => {
                if status == NO_ERR {
                    self.phase = self.phase_after_features();
                } else {
                    self.fail(EngineError::OutputConfigurationFailed(status));
                }
            },
            EnginePhase::Negotiate => {
                self.negotiator.advance(status);
                self.phase = self.phase_after_features();
            },
            EnginePhase::BindCallback => {
                self.callback_bound = status == NO_ERR;
                self.phase = EnginePhase::Initialize;
            },
            EnginePhase::Initialize => {
                if status == NO_ERR {
                    self.phase = EnginePhase::Start;
                } else {
                    self.fail(EngineError::InitializeFailed(status));
                }
            },
            EnginePhase::Start => {
                if status == NO_ERR {
                    self.phase = EnginePhase::Running;
                    self.started = true;
                } else {
                    self.fail(EngineError::StartFailed(status));
                }
            },
            EnginePhase::Running => {},
            EnginePhase::Stopping => {
                self.phase = EnginePhase::Stopped;
            },
            EnginePhase::Unwinding => {
                self.phase = EnginePhase::Releasing;
            },
            EnginePhase::Stopped => {},
            EnginePhase::Releasing => {
                self.phase = EnginePhase::Disposed;
            },
            EnginePhase::Disposed => {},
        }
    }

    /// Asks a running engine to stop. The stop is then pending.
    pub fn stop(&mut self)
        ensures
            *final(self) == old(self).stop_requested(),
    {
        if let EnginePhase::Running = self.phase {
            self.phase = EnginePhase::Stopping;
        }
    }

    /// Asks for the engine to be torn down: stopped first, then released.
    /// Calling it again changes nothing.
    pub fn dispose(&mut self)
        ensures
            *final(self) == old(self).dispose_requested(),
    {
        self.phase = match self.phase {
            EnginePhase::FindComponent => EnginePhase::Disposed,
            EnginePhase::CreateInstance => EnginePhase::Disposed,
            EnginePhase::Stopped => EnginePhase::Releasing,
            EnginePhase::Releasing => EnginePhase::Releasing,
            EnginePhase::Unwinding => EnginePhase::Unwinding,
            EnginePhase::Disposed => EnginePhase::Disposed,
            _ => EnginePhase::Unwinding,
        };
    }

    /// How the opening ended: `Some(Ok(()))` once the engine has been
    /// started, `Some(Err(..))` once a step failed, `None` before either.
    #[verifier::when_used_as_spec(spec_outcome)]
    pub fn outcome(&self) -> (outcome: Option<Result<(), EngineError>>)
        ensures
            outcome == self.spec_outcome(),
    {
        match self.error {
            Some(error) => Some(Err(error)),
            None => if self.started {
                Some(Ok(()))
            } else {
                None
            },
        }
    }

    /// Whether no render cycle comes any more: the host has confirmed the
    /// stop, or the engine was disposed of.
    pub fn renders_no_more(&self) -> (over: bool)
        ensures
            over == self.phase.renders_no_more(),
    {
        match self.phase {
            EnginePhase::Stopped => true,
            EnginePhase::Releasing => true,
            EnginePhase::Disposed => true,
            _ => false,
        }
    }

    /// What became of each optional feature.
    pub fn report(&self) -> (report: FeatureReport)
        ensures
            report == self.negotiator.report,
    {
        self.negotiator.report
    }

    /// The advisory sample rate of the configuration.
    pub fn sample_rate(&self) -> (rate: u32)
        ensures
            rate == self.config.sample_rate,
    {
        self.config.sample_rate
    }
}

} // verus!
