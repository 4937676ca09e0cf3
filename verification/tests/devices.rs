use synapsed::station::state::devices::{ConfigCache, Device, DeviceManager, InternalSettingsCache};
use synapsed::station::act::call::call_mqtt_event::DeviceType;

fn manager() -> DeviceManager {
    DeviceManager::new(None, None)
}

fn names(devices: &[Device]) -> Vec<(String, String, i32)> {
    devices
        .iter()
        .map(|d| (d.device_name.clone(), d.device_short_name.clone(), d.device_id))
        .collect()
}

#[test]
fn defaults_hold_three_floors() {
    let m = manager();
    assert_eq!(
        names(&m.get_all_devices()),
        vec![
            ("1st Floor".to_string(), "1".to_string(), 1),
            ("2nd Floor".to_string(), "2".to_string(), 2),
            ("3rd Floor".to_string(), "3".to_string(), 3),
        ]
    );
    assert_eq!(m.get_location_id(), 1);
    assert_eq!(m.get_pref_call_id(1), 2);
    assert_eq!(m.get_pref_call_id(2), 3);
    assert_eq!(m.get_pref_call_id(3), -1);
    assert_eq!(m.get_pref_call_id(0), -1);
    assert_eq!(m.get_pref_call_id(4), -1);
}

#[test]
fn loaded_settings_replace_defaults() {
    let config = ConfigCache {
        devices: vec![Device { device_name: "Door".to_string(), device_short_name: "D".to_string(), device_id: 7 }],
    };
    let settings = InternalSettingsCache { location_id: 9, pref1_call_id: 7, pref2_call_id: -1, pref3_call_id: -1 };
    let m = DeviceManager::new(Some(config), Some(settings));
    assert_eq!(names(&m.get_all_devices()), vec![("Door".to_string(), "D".to_string(), 7)]);
    assert_eq!(m.get_location_id(), 9);
    assert_eq!(m.get_device_short_name(1), "D");
    assert_eq!(m.get_device_short_name(2), "");
}

#[test]
fn device_names_and_unknown_ids() {
    let m = manager();
    assert_eq!(m.get_device_name(2), "2nd Floor");
    assert_eq!(m.get_device_name(42), "Unknown...");
    assert!(m.get_device_config(3).is_some());
    assert!(m.get_device_config(-1).is_none());
}

#[test]
fn short_names_of_buttons() {
    let mut m = manager();
    assert_eq!(m.get_device_short_name(1), "2");
    assert_eq!(m.get_device_short_name(2), "3");
    assert_eq!(m.get_device_short_name(3), "");
    m.set_pref_call_id(3, 99);
    assert_eq!(m.get_device_short_name(3), "?");
}

#[test]
fn icon_only_for_assigned_buttons() {
    let m = manager();
    assert_eq!(m.get_pref_icon_path(1), "qrc:/qt/qml/UiBridge/assets/icons/button/call.svg");
    assert_eq!(m.get_pref_icon_path(3), "");
    assert_eq!(m.get_pref_icon_path(5), "");
}

#[test]
fn pref_model_leaves_out_the_station() {
    let m = manager();
    assert_eq!(
        names(&m.get_pref_model()),
        vec![
            ("Unassigned".to_string(), "".to_string(), -1),
            ("2nd Floor".to_string(), "2".to_string(), 2),
            ("3rd Floor".to_string(), "3".to_string(), 3),
        ]
    );
}

#[test]
fn setting_a_button_moves_the_device() {
    let mut m = manager();
    // Device 3 is behind button 2; putting it behind button 3 clears button 2.
    m.set_pref_call_id(3, 3);
    assert_eq!(m.get_pref_call_id(3), 3);
    assert_eq!(m.get_pref_call_id(2), -1);
    assert_eq!(m.get_pref_call_id(1), 2);
    // Unassigning never clears other buttons.
    m.set_pref_call_id(1, -1);
    assert_eq!(m.get_pref_call_id(1), -1);
    assert_eq!(m.get_pref_call_id(3), 3);
}

#[test]
fn setting_a_button_twice_changes_nothing_more() {
    let mut a = manager();
    let mut b = manager();
    a.set_pref_call_id(2, 2);
    b.set_pref_call_id(2, 2);
    b.set_pref_call_id(2, 2);
    for num in 1..=3 {
        assert_eq!(a.get_pref_call_id(num), b.get_pref_call_id(num));
    }
    assert_eq!(b.get_pref_call_id(2), 2);
    assert_eq!(b.get_pref_call_id(1), -1);
}

#[test]
fn unknown_button_only_clears() {
    let mut m = manager();
    m.set_pref_call_id(7, 2);
    assert_eq!(m.get_pref_call_id(1), -1);
    assert_eq!(m.get_pref_call_id(2), 3);
}

#[test]
fn moving_the_station_clears_its_button() {
    let mut m = manager();
    m.set_location_id(2);
    assert_eq!(m.get_location_id(), 2);
    assert_eq!(m.get_pref_call_id(1), -1);
    assert_eq!(m.get_pref_call_id(2), 3);
    // Staying at the same place changes nothing.
    m.set_pref_call_id(1, 2);
    m.set_location_id(2);
    assert_eq!(m.get_pref_call_id(1), 2);
}

#[test]
fn configured_devices_are_stations() {
    let m = manager();
    assert_eq!(m.get_device_type(1), Some(DeviceType::Device));
    assert_eq!(m.get_device_type(8), None);
}

#[test]
fn caches_reflect_changes() {
    let mut m = manager();
    m.set_location_id(3);
    let s = m.internal_settings_cache();
    assert_eq!((s.location_id, s.pref1_call_id, s.pref2_call_id, s.pref3_call_id), (3, 2, -1, -1));
    assert_eq!(m.config_cache().devices.len(), 3);
}
