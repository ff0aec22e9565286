//! What can go wrong around locations.

use vstd::prelude::*;

verus! {

/// An error of the location rules, of the store behind them, or of the
/// detection of the network.
#[derive(Debug)]
pub enum LocationConnectivityError {
    Store(String),
    WifiDetection(String),
    PlatformNotSupported,
    PermissionDenied,
    NetworkUnavailable,
    InvalidSsid(String),
    Json(String),
    Unknown(String),
}

impl LocationConnectivityError {
    /// The text of the error.
    pub open spec fn spec_message(&self) -> Seq<char> {
        match self {
            LocationConnectivityError::Store(detail) => "Store error: "@ + detail@,
            LocationConnectivityError::WifiDetection(detail) => "WiFi detection error: "@
                + detail@,
            LocationConnectivityError::PlatformNotSupported =>
                "Location detection not supported on this platform"@,
            LocationConnectivityError::PermissionDenied =>
                "Permission denied for location access"@,
            LocationConnectivityError::NetworkUnavailable => "Network interface not available"@,
            LocationConnectivityError::InvalidSsid(detail) => "Invalid SSID format: "@ + detail@,
            LocationConnectivityError::Json(detail) => "JSON error: "@ + detail@,
            LocationConnectivityError::Unknown(detail) => "Unknown error: "@ + detail@,
        }
    }

    /// The text of the error: what kind it is, and the detail where it has
    /// one.
    pub fn message(&self) -> (text: String)
        ensures
            text@ == self.spec_message(),
    {
        match self {
            LocationConnectivityError::Store(detail) => String::from_str("Store error: ").concat(
                detail.as_str(),
            ),
            LocationConnectivityError::WifiDetection(detail) => String::from_str(
                "WiFi detection error: ",
            ).concat(detail.as_str()),
            LocationConnectivityError::PlatformNotSupported => String::from_str(
                "Location detection not supported on this platform",
            ),
            LocationConnectivityError::PermissionDenied => String::from_str(
                "Permission denied for location access",
            ),
            LocationConnectivityError::NetworkUnavailable => String::from_str(
                "Network interface not available",
            ),
            LocationConnectivityError::InvalidSsid(detail) => String::from_str(
                "Invalid SSID format: ",
            ).concat(detail.as_str()),
            LocationConnectivityError::Json(detail) => String::from_str("JSON error: ").concat(
                detail.as_str(),
            ),
            LocationConnectivityError::Unknown(detail) => String::from_str(
                "Unknown error: ",
            ).concat(detail.as_str()),
        }
    }
}

} // verus!
