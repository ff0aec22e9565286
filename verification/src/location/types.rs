//! The status of the device's location, and the events that report its
//! changes.

use vstd::prelude::*;
use crate::location::text::text_of;

verus! {

/// What a list of strings holds, as a value.
pub open spec fn texts_of(list: Seq<String>) -> Seq<Seq<char>> {
    list.map_values(|text: String| text@)
}

/// Whether two optional strings hold the same.
pub fn same_text(left: &Option<String>, right: &Option<String>) -> (same: bool)
    ensures
        same == (text_of(*left) == text_of(*right)),
{
    match (left, right) {
        (Some(a), Some(b)) => *a == *b,
        (None, None) => true,
        _ => false,
    }
}

/// Whether `ssid` is one of `list`.
pub fn is_listed(list: &Vec<String>, ssid: &String) -> (listed: bool)
    ensures
        listed == texts_of(list@).contains(ssid@),
{
    let mut i: usize = 0;
    while i < list.len()
        invariant
            i <= list@.len(),
            forall|j: int| 0 <= j < i ==> texts_of(list@)[j] != ssid@,
        decreases list@.len() - i,
    {
        if list[i] == *ssid {
            assert(texts_of(list@)[i as int] == ssid@);
            return true;
        }
        i = i + 1;
    }
    false
}

/// Where the device is and what follows from it.
#[derive(Debug, Clone)]
pub struct LocationStatus {
    /// Whether the location decides at all.
    pub is_enabled: bool,
    pub current_ssid: Option<String>,
    pub is_in_trusted_location: bool,
    pub trusted_ssids: Vec<String>,
    /// Whether speech may be sent to the cloud.
    pub should_use_cloud: bool,
}

/// What a status is, as a value.
pub struct LocationStatusView {
    pub is_enabled: bool,
    pub current_ssid: Option<Seq<char>>,
    pub is_in_trusted_location: bool,
    pub trusted_ssids: Seq<Seq<char>>,
    pub should_use_cloud: bool,
}

impl View for LocationStatus {
    type V = LocationStatusView;

    open spec fn view(&self) -> LocationStatusView {
        LocationStatusView {
            is_enabled: self.is_enabled,
            current_ssid: text_of(self.current_ssid),
            is_in_trusted_location: self.is_in_trusted_location,
            trusted_ssids: texts_of(self.trusted_ssids@),
            should_use_cloud: self.should_use_cloud,
        }
    }
}

impl LocationStatusView {
    /// The status before anything is known: nothing enabled, no network, no
    /// trusted network, no cloud.
    pub open spec fn unknown() -> LocationStatusView {
        LocationStatusView {
            is_enabled: false,
            current_ssid: None,
            is_in_trusted_location: false,
            trusted_ssids: Seq::empty(),
            should_use_cloud: false,
        }
    }

    /// The status that follows from the setting, the current network and
    /// the trusted networks: the location is trusted where the device is on
    /// a network that is trusted, and the cloud may be used where the
    /// setting is on and the location is trusted.
    pub open spec fn evaluated(
        is_enabled: bool,
        current_ssid: Option<Seq<char>>,
        trusted_ssids: Seq<Seq<char>>,
    ) -> LocationStatusView {
        let trusted = current_ssid is Some && trusted_ssids.contains(current_ssid.unwrap());
        LocationStatusView {
            is_enabled,
            current_ssid,
            is_in_trusted_location: trusted,
            trusted_ssids,
            should_use_cloud: is_enabled && trusted,
        }
    }

    /// Whether the status differs from `previous` in something an observer
    /// is told of: the network, the trust, the use of the cloud, or the
    /// setting. The list of trusted networks alone is no such thing.
    pub open spec fn differs_from(self, previous: LocationStatusView) -> bool {
        ||| self.current_ssid != previous.current_ssid
        ||| self.is_in_trusted_location != previous.is_in_trusted_location
        ||| self.should_use_cloud != previous.should_use_cloud
        ||| self.is_enabled != previous.is_enabled
    }
}

impl Default for LocationStatus {
    fn default() -> (status: Self)
        ensures
            status@ == LocationStatusView::unknown(),
    {
        let status = LocationStatus {
            is_enabled: false,
            current_ssid: None,
            is_in_trusted_location: false,
            trusted_ssids: Vec::new(),
            should_use_cloud: false,
        };
        assert(texts_of(status.trusted_ssids@) =~= Seq::<Seq<char>>::empty());
        status
    }
}

impl LocationStatus {
    /// Works the status out from the setting, the current network and the
    /// trusted networks.
    pub fn evaluate(is_enabled: bool, current_ssid: Option<String>, trusted_ssids: Vec<String>) -> (status:
        LocationStatus)
        ensures
            status@ == LocationStatusView::evaluated(
                is_enabled,
                text_of(current_ssid),
                texts_of(trusted_ssids@),
            ),
    {
        let is_in_trusted_location = match &current_ssid {
            Some(ssid) => is_listed(&trusted_ssids, ssid),
            None => false,
        };
        LocationStatus {
            is_enabled,
            current_ssid,
            is_in_trusted_location,
            trusted_ssids,
            should_use_cloud: is_enabled && is_in_trusted_location,
        }
    }

    /// Whether an observer is to be told of the change from `previous`.
    pub fn differs_from(&self, previous: &LocationStatus) -> (changed: bool)
        ensures
            changed == self@.differs_from(previous@),
    {
        !same_text(&self.current_ssid, &previous.current_ssid) || self.is_in_trusted_location
            != previous.is_in_trusted_location || self.should_use_cloud
            != previous.should_use_cloud || self.is_enabled != previous.is_enabled
    }
}

/// A network the user trusts.
#[derive(Debug, Clone)]
pub struct TrustedLocation {
    pub ssid: String,
    pub name: Option<String>,
    pub added_at: String,
}

/// What an event reports.
#[derive(Clone, Copy, Debug, PartialEq, Eq, Structural)]
pub enum LocationEventType {
    LocationChanged,
    TrustStatusChanged,
    SettingsChanged,
}

impl LocationEventType {
    /// The name of the kind on the wire.
    pub open spec fn spec_as_str(&self) -> Seq<char> {
        match self {
            LocationEventType::LocationChanged => "location_changed"@,
            LocationEventType::TrustStatusChanged => "trust_status_changed"@,
            LocationEventType::SettingsChanged => "settings_changed"@,
        }
    }

    pub fn as_str(&self) -> (name: &'static str)
        ensures
            name@ == self.spec_as_str(),
    {
        match self {
            LocationEventType::LocationChanged => "location_changed",
            LocationEventType::TrustStatusChanged => "trust_status_changed",
            LocationEventType::SettingsChanged => "settings_changed",
        }
    }
}

/// What observers are told when the status changed.
#[derive(Debug, Clone)]
pub struct LocationEvent {
    pub event_type: LocationEventType,
    pub current_ssid: Option<String>,
    pub is_trusted: bool,
    pub should_use_cloud: bool,
}

/// What an event is, as a value.
pub struct LocationEventView {
    pub event_type: LocationEventType,
    pub current_ssid: Option<Seq<char>>,
    pub is_trusted: bool,
    pub should_use_cloud: bool,
}

impl View for LocationEvent {
    type V = LocationEventView;

    open spec fn view(&self) -> LocationEventView {
        LocationEventView {
            event_type: self.event_type,
            current_ssid: text_of(self.current_ssid),
            is_trusted: self.is_trusted,
            should_use_cloud: self.should_use_cloud,
        }
    }
}

impl LocationEvent {
    /// The event of the given kind that reports `status`.
    pub fn from_status(event_type: LocationEventType, status: &LocationStatus) -> (event:
        LocationEvent)
        ensures
            event@ == (LocationEventView {
                event_type,
                current_ssid: status@.current_ssid,
                is_trusted: status@.is_in_trusted_location,
                should_use_cloud: status@.should_use_cloud,
            }),
    {
        LocationEvent {
            event_type,
            current_ssid: status.current_ssid.clone(),
            is_trusted: status.is_in_trusted_location,
            should_use_cloud: status.should_use_cloud,
        }
    }
}

/// The name under which events are sent.
pub const LOCATION_EVENT_NAME: &'static str = "location-connectivity://location-changed";

/// How often the sending of an event is tried.
pub const MAX_EMIT_ATTEMPTS: usize = 3;

/// How long to wait between two tries, in milliseconds.
pub const EMIT_RETRY_DELAY_MS: u64 = 100;

/// How many seconds lie between two looks at the network where nothing
/// else is configured.
pub const DEFAULT_CHECK_INTERVAL_SECS: u64 = 5;

/// What to do after a try to send an event.
#[derive(Clone, Copy, Debug, PartialEq, Eq, Structural)]
pub enum EmitStep {
    /// The event is out.
    Delivered,
    /// Wait this many milliseconds and try again.
    RetryAfter(u64),
    /// Enough was tried.
    GiveUp,
}

/// What follows the try of number `attempt`, counted from 0.
pub open spec fn spec_after_emit_attempt(attempt: usize, delivered: bool) -> EmitStep {
    if delivered {
        EmitStep::Delivered
    } else if attempt + 1 < MAX_EMIT_ATTEMPTS {
        EmitStep::RetryAfter(EMIT_RETRY_DELAY_MS)
    } else {
        EmitStep::GiveUp
    }
}

/// Decides what follows the try of number `attempt`, counted from 0: a
/// failed try is repeated after a pause, until the last try has failed.
#[verifier::when_used_as_spec(spec_after_emit_attempt)]
pub fn after_emit_attempt(attempt: usize, delivered: bool) -> (step: EmitStep)
    ensures
        step == spec_after_emit_attempt(attempt, delivered),
{
    if delivered {
        EmitStep::Delivered
    } else if attempt < MAX_EMIT_ATTEMPTS - 1 {
        EmitStep::RetryAfter(EMIT_RETRY_DELAY_MS)
    } else {
        EmitStep::GiveUp
    }
}

/// The number of seconds between two looks at the network: the configured
/// number, or the default where none is configured.
pub fn check_interval_secs(configured: Option<u64>) -> (secs: u64)
    ensures
        secs == match configured {
            Some(secs) => secs,
            None => DEFAULT_CHECK_INTERVAL_SECS,
        },
{
    match configured {
        Some(secs) => secs,
        None => DEFAULT_CHECK_INTERVAL_SECS,
    }
}

} // verus!
