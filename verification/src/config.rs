//! The settings of a deployment: the room, the pins of its appliances and
//! the safety limits.

use crate::text::option_text;
use vstd::prelude::*;

verus! {

/// The room that the service controls.
#[derive(Clone, Debug, PartialEq, Eq)]
pub struct RoomConfig {
    pub name: String,
    pub device_ip: Option<String>,
}

/// Which pin switches which appliance, and how the relays are wired.
#[derive(Clone, Copy, Debug, PartialEq, Eq)]
pub struct PinConfig {
    pub fireplace: u32,
    pub fireplace_fan: u32,
    pub lights: Option<u32>,
    pub secondary_device: Option<u32>,
    /// With active-low wiring an appliance is on while its pin is low.
    pub active_low: bool,
}

/// Limits that guard the appliances.
#[derive(Clone, Copy, Debug, PartialEq, Eq)]
pub struct SafetyConfig {
    pub max_pulse_duration_ms: u32,
    pub require_confirmation: bool,
}

/// All settings of a deployment.
#[derive(Clone, Debug, PartialEq, Eq)]
pub struct Config {
    pub room: RoomConfig,
    pub pins: PinConfig,
    pub safety: SafetyConfig,
}

impl PinConfig {
    /// The appliance that `pin` switches: the first of fireplace, fan, lights
    /// and secondary device that is wired to it.
    pub open spec fn name_of(&self, pin: u32) -> Option<Seq<char>> {
        if pin == self.fireplace {
            Some("fireplace"@)
        } else if pin == self.fireplace_fan {
            Some("fireplace_fan"@)
        } else if self.lights == Some(pin) {
            Some("lights"@)
        } else if self.secondary_device == Some(pin) {
            Some("secondary_device"@)
        } else {
            None
        }
    }
}

impl Config {
    /// The settings used where no configuration file is found.
    pub fn default() -> (config: Config)
        ensures
            config.room.name@ == "family_room"@,
            option_text(config.room.device_ip) == Some("127.0.0.1"@),
            config.pins == (PinConfig {
                fireplace: 17,
                fireplace_fan: 27,
                lights: Some(22),
                secondary_device: Some(23),
                active_low: false,
            }),
            config.safety == (SafetyConfig {
                max_pulse_duration_ms: 5000,
                require_confirmation: false,
            }),
    {
        Config {
            room: RoomConfig {
                name: String::from_str("family_room"),
                device_ip: Some(String::from_str("127.0.0.1")),
            },
            pins: PinConfig {
                fireplace: 17,
                fireplace_fan: 27,
                lights: Some(22),
                secondary_device: Some(23),
                active_low: false,
            },
            safety: SafetyConfig { max_pulse_duration_ms: 5000, require_confirmation: false },
        }
    }

    /// The name of the appliance that `pin` switches, if any.
    pub fn get_pin_name(&self, pin: u32) -> (name: Option<String>)
        ensures
            option_text(name) == self.pins.name_of(pin),
    {
        if pin == self.pins.fireplace {
            return Some(String::from_str("fireplace"));
        }
        if pin == self.pins.fireplace_fan {
            return Some(String::from_str("fireplace_fan"));
        }
        if let Some(lights_pin) = self.pins.lights {
            if pin == lights_pin {
                return Some(String::from_str("lights"));
            }
        }
        if let Some(secondary_pin) = self.pins.secondary_device {
            if pin == secondary_pin {
                return Some(String::from_str("secondary_device"));
            }
        }
        None
    }
}

} // verus!
