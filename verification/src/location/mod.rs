//! Where the device is, as far as its Wi-Fi network tells, and whether
//! that place is trusted.

pub mod text;
pub mod json;
pub mod error;
pub mod wifi;
pub mod types;
pub mod store;
