//! The shapes of requests and responses.

use crate::gpio::PinStatus;
use vstd::prelude::*;

verus! {

/// A request in the query-string form that older clients send.
#[derive(Clone, Debug, PartialEq, Eq)]
pub struct LegacyGpioRequest {
    pub cmd_type: String,
    pub cmd_action: String,
    pub v_action: String,
    pub m_pin: u32,
    pub m_pulse_pin: Option<u32>,
    pub m_mon_pin: Option<u32>,
    pub n_cycle: Option<u32>,
}

/// A request to switch an appliance.
#[derive(Clone, Debug, PartialEq, Eq)]
pub struct FireplaceControlRequest {
    /// `ON` or `OFF`, in any letter case.
    pub action: String,
    /// `fireplace` or `fan`, in any letter case.
    pub device: String,
    pub room: Option<String>,
}

/// The answer to a request that switched an appliance.
#[derive(Clone, Debug, PartialEq, Eq)]
pub struct ApiResponse {
    pub success: bool,
    pub action: String,
    pub pin: u32,
    pub device: Option<String>,
    pub timestamp: String,
}

/// The answer of the health check.
#[derive(Clone, Debug, PartialEq, Eq)]
pub struct HealthResponse {
    pub status: String,
    pub version: String,
    pub uptime_ms: u64,
}

/// The answer to a status query: every pin on record.
#[derive(Clone, Debug, PartialEq, Eq)]
pub struct StatusResponse {
    pub room: String,
    pub pins: Vec<PinStatus>,
}

/// The answer to a request to reload the configuration.
#[derive(Clone, Debug, PartialEq, Eq)]
pub struct ReloadResponse {
    pub success: bool,
    pub message: String,
    pub timestamp: String,
}

} // verus!
