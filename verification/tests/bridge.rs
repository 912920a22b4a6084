use fireplace_api::config::Config;
use fireplace_api::hap_server::{start_hap_server, Accessory, SwitchRequest};

#[test]
fn bridge_of_the_default_settings() {
    let bridge = start_hap_server(&Config::default());
    assert_eq!(bridge.name, "family_room Fireplace Control");
    assert_eq!(bridge.pairing_code, [1, 2, 3, 4, 5, 6, 7, 8]);
    assert_eq!(bridge.device_id, [0x11, 0x22, 0x33, 0x44, 0x55, 0x66]);
    assert_eq!(bridge.storage, "homekit_data");
    assert!(!bridge.active_low);
    assert_eq!(
        bridge.fireplace,
        Accessory {
            id: 1,
            name: "Fireplace".to_string(),
            manufacturer: "Custom".to_string(),
            model: "GPIO-Fireplace-v1".to_string(),
            serial_number: "FP-family_room".to_string(),
            firmware_revision: "1.0.0".to_string(),
            pin: 17,
        }
    );
    assert_eq!(
        bridge.fan,
        Accessory {
            id: 2,
            name: "Fireplace Fan".to_string(),
            manufacturer: "Custom".to_string(),
            model: "GPIO-Fan-v1".to_string(),
            serial_number: "FAN-family_room".to_string(),
            firmware_revision: "1.0.0".to_string(),
            pin: 27,
        }
    );
}

#[test]
fn bridge_follows_the_settings() {
    let mut config = Config::default();
    config.room.name = "master_bedroom".to_string();
    config.pins.fireplace = 37;
    config.pins.fireplace_fan = 38;
    config.pins.active_low = true;
    let bridge = start_hap_server(&config);
    assert_eq!(bridge.name, "master_bedroom Fireplace Control");
    assert_eq!(bridge.fireplace.serial_number, "FP-master_bedroom");
    assert_eq!(bridge.fan.serial_number, "FAN-master_bedroom");
    assert_eq!(bridge.fireplace.pin, 37);
    assert_eq!(bridge.fan.pin, 38);
    assert!(bridge.active_low);
}

#[test]
fn only_a_change_asks_for_a_switch() {
    let mut config = Config::default();
    config.pins.active_low = true;
    let bridge = start_hap_server(&config);
    assert_eq!(bridge.on_update(&bridge.fireplace, false, false), None);
    assert_eq!(bridge.on_update(&bridge.fireplace, true, true), None);
    assert_eq!(
        bridge.on_update(&bridge.fireplace, false, true),
        Some(SwitchRequest { pin: 17, logical_on: true, active_low: true })
    );
    assert_eq!(
        bridge.on_update(&bridge.fan, true, false),
        Some(SwitchRequest { pin: 27, logical_on: false, active_low: true })
    );
}
