//! What each endpoint decides: which requests it refuses, what it asks of
//! the controller, and what it answers.

use crate::api::models::{
    ApiResponse, FireplaceControlRequest, HealthResponse, LegacyGpioRequest, ReloadResponse,
    StatusResponse,
};
use crate::clock::local_timestamp;
use crate::config::{Config, PinConfig};
use crate::error::{ApiError, ApiErrorView};
use crate::gpio::{is_snapshot, status_views, GpioController, PinState};
use crate::text::{option_text, same_text};
use vstd::prelude::*;

verus! {

/// What a request asks of the controller: which pin to switch, and whether
/// on or off.
#[derive(Clone, Debug, PartialEq, Eq)]
pub struct PinOrder {
    pub pin: u32,
    pub on: bool,
    /// The action as the answer reports it: in upper case.
    pub action: String,
    /// The device as the answer reports it.
    pub device: Option<String>,
}

/// A [`PinOrder`] as plain text.
pub struct PinOrderView {
    pub pin: u32,
    pub on: bool,
    pub action: Seq<char>,
    pub device: Option<Seq<char>>,
}

impl View for PinOrder {
    type V = PinOrderView;

    open spec fn view(&self) -> PinOrderView {
        PinOrderView {
            pin: self.pin,
            on: self.on,
            action: self.action@,
            device: option_text(self.device),
        }
    }
}

/// What was decided of a request, as plain text.
pub open spec fn decision(result: Result<PinOrder, ApiError>) -> Result<
    PinOrderView,
    ApiErrorView,
> {
    match result {
        Ok(order) => Ok(order@),
        Err(error) => Err(error@),
    }
}

/// `text` with every character in lower case, as Unicode maps it.
pub uninterp spec fn lowercase(text: Seq<char>) -> Seq<char>;

/// `text` with every character in upper case, as Unicode maps it.
pub uninterp spec fn uppercase(text: Seq<char>) -> Seq<char>;

/// Trusted: `str::to_lowercase` from the standard library. The contract
/// claims only that the result is a function of the text, named
/// [`lowercase`].
#[verifier::external_body]
fn to_lowercase(text: &str) -> (lower: String)
    ensures
        lower@ == lowercase(text@),
{
    text.to_lowercase()
}

/// Trusted: `str::to_uppercase` from the standard library. The contract
/// claims only that the result is a function of the text, named
/// [`uppercase`].
#[verifier::external_body]
fn to_uppercase(text: &str) -> (upper: String)
    ensures
        upper@ == uppercase(text@),
{
    text.to_uppercase()
}

/// Whether an action, in upper case, switches on or off.
pub open spec fn on_off(action: Seq<char>) -> Option<bool> {
    if action == "ON"@ {
        Some(true)
    } else if action == "OFF"@ {
        Some(false)
    } else {
        None
    }
}

/// What a legacy request with command type `cmd_type` (in lower case) and
/// action `action` (in upper case) for `pin` comes to. Only the command type
/// `toggle` is served, and it sets the pin as the action says.
pub open spec fn legacy_decision(
    cmd_type: Seq<char>,
    action: Seq<char>,
    pin: u32,
    pins: PinConfig,
) -> Result<PinOrderView, ApiErrorView> {
    if cmd_type != "toggle"@ {
        Err(ApiErrorView::InvalidCommand)
    } else {
        match on_off(action) {
            None => Err(ApiErrorView::InvalidAction),
            Some(on) => Ok(PinOrderView { pin, on, action, device: pins.name_of(pin) }),
        }
    }
}

/// The pin of the device that a control request names, in lower case.
pub open spec fn device_pin(device: Seq<char>, pins: PinConfig) -> Option<u32> {
    if device == "fireplace"@ {
        Some(pins.fireplace)
    } else if device == "fan"@ {
        Some(pins.fireplace_fan)
    } else {
        None
    }
}

/// What a control request comes to, given its device as sent (`named`) and
/// in lower case (`device`), and its action in upper case. An unknown
/// device is refused before the action is looked at.
pub open spec fn control_decision(
    named: Seq<char>,
    device: Seq<char>,
    action: Seq<char>,
    pins: PinConfig,
) -> Result<PinOrderView, ApiErrorView> {
    match device_pin(device, pins) {
        None => Err(ApiErrorView::InvalidPin),
        Some(pin) => match on_off(action) {
            None => Err(ApiErrorView::InvalidAction),
            Some(on) => Ok(PinOrderView { pin, on, action, device: Some(named) }),
        },
    }
}

/// Reads an action that is already in upper case.
pub fn parse_action(action: &str) -> (on: Option<bool>)
    ensures
        on == on_off(action@),
{
    if same_text(action, "ON") {
        Some(true)
    } else if same_text(action, "OFF") {
        Some(false)
    } else {
        None
    }
}

/// Decides a legacy request whose command type is already in lower case and
/// whose action is already in upper case.
pub fn decide_legacy(cmd_type: &str, action: String, pin: u32, config: &Config) -> (result: Result<
    PinOrder,
    ApiError,
>)
    ensures
        decision(result) == legacy_decision(cmd_type@, action@, pin, config.pins),
{
    if !same_text(cmd_type, "toggle") {
        return Err(ApiError::InvalidCommand);
    }
    match parse_action(action.as_str()) {
        None => Err(ApiError::InvalidAction),
        Some(on) => Ok(PinOrder { pin, on, action, device: config.get_pin_name(pin) }),
    }
}

/// Decides a control request whose device is given as sent and in lower
/// case, and whose action is already in upper case.
pub fn decide_control(named: String, device: &str, action: String, config: &Config) -> (result:
    Result<PinOrder, ApiError>)
    ensures
        decision(result) == control_decision(named@, device@, action@, config.pins),
{
    let pin = if same_text(device, "fireplace") {
        config.pins.fireplace
    } else if same_text(device, "fan") {
        config.pins.fireplace_fan
    } else {
        return Err(ApiError::InvalidPin);
    };
    match parse_action(action.as_str()) {
        None => Err(ApiError::InvalidAction),
        Some(on) => Ok(PinOrder { pin, on, action, device: Some(named) }),
    }
}

/// Decides a request of the legacy endpoint: the command type must be
/// `toggle` and the action `ON` or `OFF`, both in any letter case.
pub fn handle_legacy_gpio(req: &LegacyGpioRequest, config: &Config) -> (result: Result<
    PinOrder,
    ApiError,
>)
    ensures
        decision(result) == legacy_decision(
            lowercase(req.cmd_type@),
            uppercase(req.cmd_action@),
            req.m_pin,
            config.pins,
        ),
{
    let cmd_type = to_lowercase(req.cmd_type.as_str());
    let action = to_uppercase(req.cmd_action.as_str());
    decide_legacy(cmd_type.as_str(), action, req.m_pin, config)
}

/// Decides a request of the control endpoint: the device must be
/// `fireplace` or `fan` and the action `ON` or `OFF`, all in any letter
/// case.
pub fn handle_fireplace_control(req: &FireplaceControlRequest, config: &Config) -> (result:
    Result<PinOrder, ApiError>)
    ensures
        decision(result) == control_decision(
            req.device@,
            lowercase(req.device@),
            uppercase(req.action@),
            config.pins,
        ),
{
    let device = to_lowercase(req.device.as_str());
    let action = to_uppercase(req.action.as_str());
    decide_control(req.device.clone(), device.as_str(), action, config)
}

impl PinOrder {
    /// The answer to the request, once the pin has been switched, stamped
    /// with `timestamp`.
    pub fn response_at(self, timestamp: String) -> (response: ApiResponse)
        ensures
            response.success,
            response.action@ == self.action@,
            response.pin == self.pin,
            option_text(response.device) == option_text(self.device),
            response.timestamp@ == timestamp@,
    {
        ApiResponse {
            success: true,
            action: self.action,
            pin: self.pin,
            device: self.device,
            timestamp,
        }
    }

    /// The answer to the request, once the pin has been switched, stamped
    /// with the time of the call.
    pub fn response(self) -> (response: ApiResponse)
        ensures
            response.success,
            response.action@ == self.action@,
            response.pin == self.pin,
            option_text(response.device) == option_text(self.device),
    {
        let timestamp = local_timestamp();
        self.response_at(timestamp)
    }
}

/// Answers a status query: the room's name and every pin on record.
pub fn handle_gpio_status(config: &Config, controller: &GpioController) -> (response:
    StatusResponse)
    ensures
        response.room@ == config.room.name@,
        exists|stamp: Seq<char>| is_snapshot(status_views(response.pins@), controller@, stamp),
        forall|i: int|
            0 <= i < response.pins.len() ==> (#[trigger] response.pins[i]).state
                != PinState::Unknown,
{
    let pins = controller.get_all_pin_states();
    let ghost stamp = choose|stamp: Seq<char>|
        is_snapshot(status_views(pins@), controller@, stamp);
    let response = StatusResponse { room: config.room.name.clone(), pins };
    assert(is_snapshot(status_views(response.pins@), controller@, stamp));
    response
}

/// Answers a request to reload the configuration, stamped with `timestamp`.
/// Nothing is reloaded: the request is only acknowledged.
pub fn reload_response_at(timestamp: String) -> (response: ReloadResponse)
    ensures
        response.success,
        response.message@ == "Configuration reload requested"@,
        response.timestamp@ == timestamp@,
{
    ReloadResponse {
        success: true,
        message: String::from_str("Configuration reload requested"),
        timestamp,
    }
}

/// Answers a request to reload the configuration. Nothing is reloaded: the
/// request is only acknowledged.
pub fn handle_reload_config() -> (response: ReloadResponse)
    ensures
        response.success,
        response.message@ == "Configuration reload requested"@,
{
    reload_response_at(local_timestamp())
}

/// Answers the health check.
pub fn handle_health() -> (response: HealthResponse)
    ensures
        response.status@ == "healthy"@,
        response.version@ == "1.0.0"@,
        response.uptime_ms == 0,
{
    HealthResponse {
        status: String::from_str("healthy"),
        version: String::from_str("1.0.0"),
        uptime_ms: 0,
    }
}

} // verus!
