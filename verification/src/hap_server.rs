//! The HomeKit bridge: what it announces, and what it asks of the
//! controller when a switch is flipped in the Home app.
//!
//! Fireplace and fan both appear as light bulbs. Serving the protocol is
//! left to the caller.

use crate::config::Config;
use vstd::prelude::*;

verus! {

/// One appliance as the bridge shows it.
#[derive(Clone, Debug, PartialEq, Eq)]
pub struct Accessory {
    /// The accessory's number on the bridge.
    pub id: u64,
    pub name: String,
    pub manufacturer: String,
    pub model: String,
    pub serial_number: String,
    pub firmware_revision: String,
    /// The pin that switches the appliance.
    pub pin: u32,
}

/// Everything the bridge is started with.
#[derive(Clone, Debug, PartialEq, Eq)]
pub struct Bridge {
    /// The name under which the bridge is announced.
    pub name: String,
    /// The eight digits of the pairing code.
    pub pairing_code: [u8; 8],
    /// The bridge's device identifier, in the form of a MAC address.
    pub device_id: [u8; 6],
    /// The directory that keeps the pairing data.
    pub storage: String,
    pub fireplace: Accessory,
    pub fan: Accessory,
    /// Whether the relays are wired active-low.
    pub active_low: bool,
}

/// What a change of an accessory's power state asks of the controller.
#[derive(Clone, Copy, Debug, PartialEq, Eq)]
pub struct SwitchRequest {
    pub pin: u32,
    pub logical_on: bool,
    pub active_low: bool,
}

/// The accessory that stands for an appliance of `room`.
fn accessory(id: u64, name: &str, model: &str, serial_prefix: &str, room: &str, pin: u32) -> (made:
    Accessory)
    ensures
        made.id == id,
        made.name@ == name@,
        made.manufacturer@ == "Custom"@,
        made.model@ == model@,
        made.serial_number@ == serial_prefix@ + room@,
        made.firmware_revision@ == "1.0.0"@,
        made.pin == pin,
{
    Accessory {
        id,
        name: String::from_str(name),
        manufacturer: String::from_str("Custom"),
        model: String::from_str(model),
        serial_number: String::from_str(serial_prefix).concat(room),
        firmware_revision: String::from_str("1.0.0"),
        pin,
    }
}

/// Plans the bridge for a deployment: its name and pairing data, and the
/// two accessories with the pins they switch.
pub fn start_hap_server(config: &Config) -> (bridge: Bridge)
    ensures
        bridge.name@ == config.room.name@ + " Fireplace Control"@,
        bridge.pairing_code@ == seq![1u8, 2u8, 3u8, 4u8, 5u8, 6u8, 7u8, 8u8],
        bridge.device_id@ == seq![0x11u8, 0x22u8, 0x33u8, 0x44u8, 0x55u8, 0x66u8],
        bridge.storage@ == "homekit_data"@,
        bridge.active_low == config.pins.active_low,
        bridge.fireplace.id == 1,
        bridge.fireplace.name@ == "Fireplace"@,
        bridge.fireplace.manufacturer@ == "Custom"@,
        bridge.fireplace.model@ == "GPIO-Fireplace-v1"@,
        bridge.fireplace.serial_number@ == "FP-"@ + config.room.name@,
        bridge.fireplace.firmware_revision@ == "1.0.0"@,
        bridge.fireplace.pin == config.pins.fireplace,
        bridge.fan.id == 2,
        bridge.fan.name@ == "Fireplace Fan"@,
        bridge.fan.manufacturer@ == "Custom"@,
        bridge.fan.model@ == "GPIO-Fan-v1"@,
        bridge.fan.serial_number@ == "FAN-"@ + config.room.name@,
        bridge.fan.firmware_revision@ == "1.0.0"@,
        bridge.fan.pin == config.pins.fireplace_fan,
{
    let room = config.room.name.as_str();
    Bridge {
        name: String::from_str(room).concat(" Fireplace Control"),
        pairing_code: [1, 2, 3, 4, 5, 6, 7, 8],
        device_id: [0x11, 0x22, 0x33, 0x44, 0x55, 0x66],
        storage: String::from_str("homekit_data"),
        fireplace: accessory(
            1,
            "Fireplace",
            "GPIO-Fireplace-v1",
            "FP-",
            room,
            config.pins.fireplace,
        ),
        fan: accessory(2, "Fireplace Fan", "GPIO-Fan-v1", "FAN-", room, config.pins.fireplace_fan),
        active_low: config.pins.active_low,
    }
}

impl Bridge {
    /// What is asked of the controller when the power state of `accessory`
    /// goes from `current` to `new`: nothing where the state stays as it
    /// is, else switching the accessory's pin to the new state.
    pub fn on_update(&self, accessory: &Accessory, current: bool, new: bool) -> (request: Option<
        SwitchRequest,
    >)
        ensures
            request == (if current != new {
                Some(
                    SwitchRequest {
                        pin: accessory.pin,
                        logical_on: new,
                        active_low: self.active_low,
                    },
                )
            } else {
                None
            }),
    {
        if current != new {
            Some(SwitchRequest { pin: accessory.pin, logical_on: new, active_low: self.active_low })
        } else {
            None
        }
    }
}

} // verus!
