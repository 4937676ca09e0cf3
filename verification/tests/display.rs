use synapsed::platform::linux::display_controller::DspCtrl;
use synapsed::station::display::brightness::{DisplayError, DisplayManager, InternalDisplaySettingsCache};

#[test]
fn defaults_are_full_brightness_and_one_minute() {
    let m = DisplayManager::new(None);
    assert_eq!(m.get_brightness(), 100);
    assert_eq!(m.get_display_time(), 60);
}

#[test]
fn loaded_settings_are_used() {
    let m = DisplayManager::new(Some(InternalDisplaySettingsCache { brightness: 30, display_time: 15 }));
    assert_eq!(m.get_brightness(), 30);
    assert_eq!(m.get_display_time(), 15);
    assert_eq!(m.settings().brightness, 30);
    assert_eq!(m.settings().display_time, 15);
}

#[test]
fn brightness_over_100_is_refused() {
    let mut m = DisplayManager::new(None);
    assert_eq!(m.set_brightness(101), Err(DisplayError::BrightnessOutOfRange));
    assert_eq!(m.get_brightness(), 100);
    assert_eq!(m.set_brightness(0), Ok(()));
    assert_eq!(m.get_brightness(), 0);
    assert_eq!(m.set_brightness(100), Ok(()));
    assert_eq!(m.get_brightness(), 100);
}

#[test]
fn display_time_is_stored() {
    let mut m = DisplayManager::new(None);
    m.set_display_time(300);
    assert_eq!(m.get_display_time(), 300);
    assert_eq!(m.get_brightness(), 100);
}

#[test]
fn backlight_values() {
    let d = DspCtrl::new();
    assert_eq!(d.power_value(true), "1");
    assert_eq!(d.power_value(false), "0");
    assert_eq!(d.brightness_value(true, 100), Some(32));
    assert_eq!(d.brightness_value(true, 50), Some(16));
    assert_eq!(d.brightness_value(true, 3), Some(0));
    assert_eq!(d.brightness_value(true, 0), Some(0));
    assert_eq!(d.brightness_value(true, 101), None);
    assert_eq!(d.brightness_value(false, 50), None);
    assert_eq!(DspCtrl::PATH_POWER, "/sys/class/backlight/panel_backlight@1/bl_power");
    assert_eq!(DspCtrl::PATH_BRIGHT, "/sys/class/backlight/panel_backlight@1/brightness");
}

#[test]
fn stored_brightness_above_100_is_taken_as_100() {
    let m = DisplayManager::new(Some(InternalDisplaySettingsCache { brightness: 200, display_time: 15 }));
    assert_eq!(m.get_brightness(), 100);
    assert_eq!(m.get_display_time(), 15);
    let m = DisplayManager::new(Some(InternalDisplaySettingsCache { brightness: 100, display_time: 15 }));
    assert_eq!(m.get_brightness(), 100);
}
