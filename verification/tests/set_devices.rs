use synapsed::station::set::devices::{DeviceData, DeviceManager};

fn ids(devices: &[DeviceData]) -> Vec<i32> {
    devices.iter().map(|d| d.device_id).collect()
}

#[test]
fn ffi_manager_defaults() {
    let m = DeviceManager::new(None, None);
    assert_eq!(ids(&m.get_all_devices()), vec![1, 2, 3]);
    assert_eq!(m.get_location_id(), 1);
    assert_eq!(ids(&m.get_pref_model()), vec![-1, 2, 3]);
    assert_eq!(m.get_pref_model()[0].device_name, "Unassigned");
}

#[test]
fn ffi_short_name_by_device_id() {
    let m = DeviceManager::new(None, None);
    assert_eq!(m.get_device_short_name(3), "3");
    assert_eq!(m.get_device_short_name(-1), "");
    assert_eq!(m.get_device_short_name(12), "?");
    assert_eq!(m.get_device_name(1), "1st Floor");
    assert_eq!(m.get_device_name(12), "Unknown...");
}

#[test]
fn ffi_setters() {
    let mut m = DeviceManager::new(None, None);
    m.set_pref_call_id(3, 2);
    assert_eq!((m.get_pref_call_id(1), m.get_pref_call_id(2), m.get_pref_call_id(3)), (-1, 3, 2));
    m.set_location_id(3);
    assert_eq!((m.get_pref_call_id(1), m.get_pref_call_id(2), m.get_pref_call_id(3)), (-1, -1, 2));
    assert_eq!(m.get_pref_icon_path(2), "");
    assert_eq!(m.get_pref_icon_path(3), "qrc:/qt/qml/UiBridge/assets/icons/button/call.svg");
    let s = m.internal_settings_cache();
    assert_eq!((s.location_id, s.pref_call_id1, s.pref_call_id2, s.pref_call_id3), (3, -1, -1, 2));
}
