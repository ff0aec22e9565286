//! Plain-value vocabulary of the host voice-processing unit: scopes, elements,
//! property identifiers, status codes and the component description.

use vstd::prelude::*;

verus! {

/// Element (bus) of the unit that carries microphone input.
pub const AU_INPUT_ELEMENT: u32 = 1;

/// Element (bus) of the unit that carries speaker output.
pub const AU_OUTPUT_ELEMENT: u32 = 0;

pub const K_AU_VOICE_IO_PROPERTY_VOICE_PROCESSING_ENABLE_AGC: u32 = 2010;

pub const K_AU_VOICE_IO_PROPERTY_VOICE_PROCESSING_ENABLE_NOISE_SUPPRESSION: u32 = 2011;

pub const K_AU_VOICE_IO_PROPERTY_VOICE_PROCESSING_ENABLE_ECHO_CANCEL: u32 = 2009;

pub const K_AUDIO_UNIT_PROPERTY_STREAM_FORMAT: u32 = 8;

pub const K_AUDIO_OUTPUT_UNIT_PROPERTY_ENABLE_IO: u32 = 2003;

pub const K_AUDIO_UNIT_PROPERTY_SET_RENDER_CALLBACK: u32 = 23;

pub const K_AUDIO_UNIT_PROPERTY_SET_INPUT_CALLBACK: u32 = 7;

/// Four-character code `auou`.
pub const K_AUDIO_UNIT_TYPE_OUTPUT: u32 = 0x61756F75;

/// Four-character code `vpio`.
pub const K_AUDIO_UNIT_SUB_TYPE_VOICE_PROCESSING_IO: u32 = 0x7670696F;

/// Four-character code `appl`.
pub const K_AUDIO_UNIT_MANUFACTURER_APPLE: u32 = 0x6170706C;

pub const K_AUDIO_UNIT_ERR_INVALID_PARAMETER: i32 = -50;

/// Status code a host call reports on success.
pub const NO_ERR: i32 = 0;

/// Scope a property of the unit is addressed in.
#[derive(Clone, Copy, Debug, PartialEq, Eq, Structural)]
pub enum AudioUnitScope {
    Global,
    Input,
    Output,
}

impl AudioUnitScope {
    /// The number the host knows the scope by.
    pub open spec fn spec_code(self) -> u32 {
        match self {
            AudioUnitScope::Global => 0,
            AudioUnitScope::Input => 1,
            AudioUnitScope::Output => 2,
        }
    }

    #[verifier::when_used_as_spec(spec_code)]
    pub fn code(self) -> (code: u32)
        ensures
            code == self.spec_code(),
    {
        match self {
            AudioUnitScope::Global => 0,
            AudioUnitScope::Input => 1,
            AudioUnitScope::Output => 2,
        }
    }
}

/// The optional processing features a voice-processing unit offers.
#[derive(Clone, Copy, Debug, PartialEq, Eq, Structural)]
pub enum Feature {
    Agc,
    NoiseSuppression,
    EchoCancellation,
}

impl Feature {
    /// Identifier of the property that switches the feature.
    pub open spec fn spec_property_id(self) -> u32 {
        match self {
            Feature::Agc => K_AU_VOICE_IO_PROPERTY_VOICE_PROCESSING_ENABLE_AGC,
            Feature::NoiseSuppression =>
                K_AU_VOICE_IO_PROPERTY_VOICE_PROCESSING_ENABLE_NOISE_SUPPRESSION,
            Feature::EchoCancellation => K_AU_VOICE_IO_PROPERTY_VOICE_PROCESSING_ENABLE_ECHO_CANCEL,
        }
    }

    #[verifier::when_used_as_spec(spec_property_id)]
    pub fn property_id(self) -> (id: u32)
        ensures
            id == self.spec_property_id(),
    {
        match self {
            Feature::Agc => K_AU_VOICE_IO_PROPERTY_VOICE_PROCESSING_ENABLE_AGC,
            Feature::NoiseSuppression =>
                K_AU_VOICE_IO_PROPERTY_VOICE_PROCESSING_ENABLE_NOISE_SUPPRESSION,
            Feature::EchoCancellation => K_AU_VOICE_IO_PROPERTY_VOICE_PROCESSING_ENABLE_ECHO_CANCEL,
        }
    }

    /// Position of the feature in the order features are negotiated in.
    pub open spec fn spec_index(self) -> int {
        match self {
            Feature::Agc => 0,
            Feature::NoiseSuppression => 1,
            Feature::EchoCancellation => 2,
        }
    }
}

/// Identifies a kind of audio component to the host.
#[derive(Clone, Copy, Debug, PartialEq, Eq, Structural)]
pub struct AudioComponentDescription {
    pub component_type: u32,
    pub component_sub_type: u32,
    pub component_manufacturer: u32,
    pub component_flags: u32,
    pub component_flags_mask: u32,
}

impl AudioComponentDescription {
    pub open spec fn spec_voice_processing_io() -> Self {
        AudioComponentDescription {
            component_type: K_AUDIO_UNIT_TYPE_OUTPUT,
            component_sub_type: K_AUDIO_UNIT_SUB_TYPE_VOICE_PROCESSING_IO,
            component_manufacturer: K_AUDIO_UNIT_MANUFACTURER_APPLE,
            component_flags: 0,
            component_flags_mask: 0,
        }
    }

    /// The description of the voice-processing I/O unit.
    #[verifier::when_used_as_spec(spec_voice_processing_io)]
    pub fn voice_processing_io() -> (desc: Self)
        ensures
            desc == Self::spec_voice_processing_io(),
    {
        AudioComponentDescription {
            component_type: K_AUDIO_UNIT_TYPE_OUTPUT,
            component_sub_type: K_AUDIO_UNIT_SUB_TYPE_VOICE_PROCESSING_IO,
            component_manufacturer: K_AUDIO_UNIT_MANUFACTURER_APPLE,
            component_flags: 0,
            component_flags_mask: 0,
        }
    }
}

/// The value a property takes to switch something on or off.
pub open spec fn spec_flag_value(enable: bool) -> u32 {
    if enable {
        1
    } else {
        0
    }
}

#[verifier::when_used_as_spec(spec_flag_value)]
pub fn flag_value(enable: bool) -> (value: u32)
    ensures
        value == spec_flag_value(enable),
{
    if enable {
        1
    } else {
        0
    }
}

/// Where a property of the unit is written: its identifier, and the scope
/// and element it is addressed in.
#[derive(Clone, Copy, Debug, PartialEq, Eq, Structural)]
pub struct PropertyAddress {
    pub id: u32,
    pub scope: AudioUnitScope,
    pub element: u32,
}

impl PropertyAddress {
    /// The property that switches a direction of the unit on or off.
    pub open spec fn spec_enable_io(scope: AudioUnitScope, element: u32) -> PropertyAddress {
        PropertyAddress { id: K_AUDIO_OUTPUT_UNIT_PROPERTY_ENABLE_IO, scope, element }
    }

    /// The property that switches a feature: it lives in the global scope,
    /// on element 0.
    pub open spec fn spec_feature(feature: Feature) -> PropertyAddress {
        PropertyAddress {
            id: feature.spec_property_id(),
            scope: AudioUnitScope::Global,
            element: 0,
        }
    }

    /// The property that holds the render callback of the input.
    pub open spec fn spec_render_callback() -> PropertyAddress {
        PropertyAddress {
            id: K_AUDIO_UNIT_PROPERTY_SET_RENDER_CALLBACK,
            scope: AudioUnitScope::Input,
            element: AU_INPUT_ELEMENT,
        }
    }

    #[verifier::when_used_as_spec(spec_enable_io)]
    pub fn enable_io(scope: AudioUnitScope, element: u32) -> (address: PropertyAddress)
        ensures
            address == Self::spec_enable_io(scope, element),
    {
        PropertyAddress { id: K_AUDIO_OUTPUT_UNIT_PROPERTY_ENABLE_IO, scope, element }
    }

    #[verifier::when_used_as_spec(spec_feature)]
    pub fn feature(feature: Feature) -> (address: PropertyAddress)
        ensures
            address == Self::spec_feature(feature),
    {
        PropertyAddress { id: feature.property_id(), scope: AudioUnitScope::Global, element: 0 }
    }

    #[verifier::when_used_as_spec(spec_render_callback)]
    pub fn render_callback() -> (address: PropertyAddress)
        ensures
            address == Self::spec_render_callback(),
    {
        PropertyAddress {
            id: K_AUDIO_UNIT_PROPERTY_SET_RENDER_CALLBACK,
            scope: AudioUnitScope::Input,
            element: AU_INPUT_ELEMENT,
        }
    }
}

/// The size in bytes of a buffer of `frames` mono samples of four bytes
/// each, or `None` where that size cannot be held in 32 bits.
pub fn render_buffer_bytes(frames: u32) -> (bytes: Option<u32>)
    ensures
        bytes is Some <==> frames * 4 <= u32::MAX,
        bytes matches Some(size) ==> size == frames * 4,
{
    frames.checked_mul(4)
}

/// The status a render callback starts out with: it can go on only where
/// it was handed its context and the context knows its unit, and reports an
/// invalid parameter otherwise.
pub fn render_precondition(context_present: bool, unit_present: bool) -> (status: i32)
    ensures
        status == if context_present && unit_present {
            NO_ERR
        } else {
            K_AUDIO_UNIT_ERR_INVALID_PARAMETER
        },
{
    if context_present && unit_present {
        NO_ERR
    } else {
        K_AUDIO_UNIT_ERR_INVALID_PARAMETER
    }
}

/// The host's answer as a result: success, or the status of the failure.
pub fn status_result(status: i32) -> (result: Result<(), i32>)
    ensures
        result == if status == NO_ERR {
            Ok::<(), i32>(())
        } else {
            Err::<(), i32>(status)
        },
{
    if status == NO_ERR {
        Ok(())
    } else {
        Err(status)
    }
}

/// The status by which the host says that it does not support a format.
pub const K_AUDIO_UNIT_ERR_FORMAT_NOT_SUPPORTED: i32 = -10865;

/// The status by which the host says that a property is invalid.
pub const K_AUDIO_UNIT_ERR_INVALID_PROPERTY: i32 = -10866;

/// What a status of the host means, for the statuses that have a name.
pub open spec fn spec_status_description(status: i32) -> Option<Seq<char>> {
    if status == K_AUDIO_UNIT_ERR_FORMAT_NOT_SUPPORTED {
        Some(
            "kAudioUnitErr_FormatNotSupported - The audio format is not supported by this AudioUnit"@,
        )
    } else if status == K_AUDIO_UNIT_ERR_INVALID_PROPERTY {
        Some("kAudioUnitErr_InvalidProperty - Invalid property for this AudioUnit"@)
    } else if status == K_AUDIO_UNIT_ERR_INVALID_PARAMETER {
        Some("kAudioUnitErr_InvalidParameter - Invalid parameter"@)
    } else {
        None
    }
}

/// Says what a status of the host means, where the status has a name.
pub fn status_description(status: i32) -> (description: Option<&'static str>)
    ensures
        description is Some <==> spec_status_description(status) is Some,
        description matches Some(text) ==> Some(text@) == spec_status_description(status),
{
    if status == K_AUDIO_UNIT_ERR_FORMAT_NOT_SUPPORTED {
        Some("kAudioUnitErr_FormatNotSupported - The audio format is not supported by this AudioUnit")
    } else if status == K_AUDIO_UNIT_ERR_INVALID_PROPERTY {
        Some("kAudioUnitErr_InvalidProperty - Invalid property for this AudioUnit")
    } else if status == K_AUDIO_UNIT_ERR_INVALID_PARAMETER {
        Some("kAudioUnitErr_InvalidParameter - Invalid parameter")
    } else {
        None
    }
}

/// The authorization status that grants access to the microphone.
pub const AUTHORIZATION_STATUS_AUTHORIZED: i32 = 3;

/// Whether an authorization status grants access to the microphone.
pub fn microphone_access_granted(authorization_status: i32) -> (granted: bool)
    ensures
        granted == (authorization_status == AUTHORIZATION_STATUS_AUTHORIZED),
{
    authorization_status == AUTHORIZATION_STATUS_AUTHORIZED
}

/// Whether a host status code means success.
pub fn status_ok(status: i32) -> (ok: bool)
    ensures
        ok == (status == NO_ERR),
{
    status == NO_ERR
}

} // verus!
