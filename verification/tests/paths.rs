use std::path::PathBuf;
use synapsed::networking::mqtt::mqtt_config;
use synapsed::station::display::brightness;
use synapsed::station::set::devices as set_devices;
use synapsed::station::state::{devices, ringtone};
use synapsed::text::join_dir;

fn std_join(base: &str, parts: &[&str]) -> String {
    let mut p = PathBuf::from(base);
    for part in parts {
        p = p.join(part);
    }
    p.to_string_lossy().into_owned()
}

#[test]
fn join_matches_path_join() {
    for base in ["/opt/synapsed", "/opt/synapsed/", "rel/dir", ""] {
        assert_eq!(join_dir(base, "internal"), std_join(base, &["internal"]));
    }
}

#[test]
fn file_locations_below_the_project_directory() {
    for base in ["/opt/synapsed", "/opt/synapsed/"] {
        assert_eq!(
            ringtone::setup_path(base),
            (std_join(base, &["internal", "ringtone.json"]), std_join(base, &["assets", "audio", "ringtones"]))
        );
        assert_eq!(
            devices::setup_paths(base),
            (std_join(base, &["config", "devices.json"]), std_join(base, &["internal", "settings.json"]))
        );
        assert_eq!(set_devices::setup_paths(base), devices::setup_paths(base));
        assert_eq!(brightness::setup_path(base), std_join(base, &["internal", "display.json"]));
        assert_eq!(mqtt_config::setup_path(base), std_join(base, &["config", "mqtt.json"]));
    }
    assert_eq!(brightness::setup_path("/srv"), "/srv/internal/display.json");
}
