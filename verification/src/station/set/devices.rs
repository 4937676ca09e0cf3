//! The device settings as the UI process sees them through its foreign
//! function interface: the same device list and preferences, with device
//! records in the interface's own shape and settings that are only changed in
//! memory.
use vstd::prelude::*;
use crate::text::{join_dir, join_path};

use crate::station::state::devices::{
    default_devices, device_name_of, find_device, icon_path_of, lemma_find_device, pref_model_of, pref_of,
    short_name_for_id, unassigned_device, with_location, with_pref, DeviceManagerView, DeviceView,
};

verus! {

/// One device of the configuration.
pub struct Device {
    pub device_name: String,
    pub device_short_name: String,
    pub device_id: i32,
}

/// A device as the UI process receives it.
pub struct DeviceData {
    pub device_name: String,
    pub device_short_name: String,
    pub device_id: i32,
}

impl View for Device {
    type V = DeviceView;

    open spec fn view(&self) -> DeviceView {
        DeviceView { name: self.device_name@, short_name: self.device_short_name@, id: self.device_id }
    }
}

impl View for DeviceData {
    type V = DeviceView;

    open spec fn view(&self) -> DeviceView {
        DeviceView { name: self.device_name@, short_name: self.device_short_name@, id: self.device_id }
    }
}

/// Data for the user to set in the device configuration.
pub struct ConfigCache {
    pub devices: Vec<Device>,
}

/// Internal data set by the UI.
pub struct InternalSettingsCache {
    pub location_id: i32,
    pub pref_call_id1: i32,
    pub pref_call_id2: i32,
    pub pref_call_id3: i32,
}

pub open spec fn view_devices(s: Seq<Device>) -> Seq<DeviceView> {
    s.map_values(|d: Device| d@)
}

pub open spec fn view_device_data(s: Seq<DeviceData>) -> Seq<DeviceView> {
    s.map_values(|d: DeviceData| d@)
}

impl ConfigCache {
    pub open spec fn devices_view(&self) -> Seq<DeviceView> {
        view_devices(self.devices@)
    }
}

impl InternalSettingsCache {
    pub open spec fn prefs_view(&self) -> (i32, i32, i32, i32) {
        (self.location_id, self.pref_call_id1, self.pref_call_id2, self.pref_call_id3)
    }
}

/// The device list and the station's own settings.
pub struct DeviceManager {
    config_cache: ConfigCache,
    internal_settings_cache: InternalSettingsCache,
}

impl View for DeviceManager {
    type V = DeviceManagerView;

    closed spec fn view(&self) -> DeviceManagerView {
        DeviceManagerView {
            devices: view_devices(self.config_cache.devices@),
            location_id: self.internal_settings_cache.location_id,
            pref1: self.internal_settings_cache.pref_call_id1,
            pref2: self.internal_settings_cache.pref_call_id2,
            pref3: self.internal_settings_cache.pref_call_id3,
        }
    }
}

fn device_data(d: &Device) -> (r: DeviceData)
    ensures
        r@ == d@,
{
    DeviceData {
        device_name: d.device_name.clone(),
        device_short_name: d.device_short_name.clone(),
        device_id: d.device_id,
    }
}

fn device_from(name: &str, short_name: &str, id: i32) -> (r: Device)
    ensures
        r@ == (DeviceView { name: name@, short_name: short_name@, id }),
{
    Device { device_name: name.to_owned(), device_short_name: short_name.to_owned(), device_id: id }
}

impl DeviceManager {
    /// The manager over the configuration and settings read from disk; what was
    /// not there starts from the defaults.
    pub fn new(config: Option<ConfigCache>, internal_settings: Option<InternalSettingsCache>) -> (r:
        Self)
        ensures
            r@.devices == (match config {
                Some(c) => c.devices_view(),
                None => default_devices(),
            }),
            (r@.location_id, r@.pref1, r@.pref2, r@.pref3) == (match internal_settings {
                Some(s) => s.prefs_view(),
                None => (1i32, 2i32, 3i32, -1i32),
            }),
    {
        let (default_config, default_settings) = Self::setup_defaults();
        let config_cache = match config {
            Some(c) => c,
            None => default_config,
        };
        let internal_settings_cache = match internal_settings {
            Some(s) => s,
            None => default_settings,
        };
        DeviceManager { config_cache, internal_settings_cache }
    }

    /// The configuration and settings of a fresh installation.
    pub fn setup_defaults() -> (r: (ConfigCache, InternalSettingsCache))
        ensures
            r.0.devices_view() == default_devices(),
            r.1.prefs_view() == (1i32, 2i32, 3i32, -1i32),
    {
        let mut devices: Vec<Device> = Vec::new();
        devices.push(device_from("1st Floor", "1", 1));
        devices.push(device_from("2nd Floor", "2", 2));
        devices.push(device_from("3rd Floor", "3", 3));
        let config = ConfigCache { devices };
        assert(view_devices(config.devices@) =~= default_devices());
        (
            config,
            InternalSettingsCache { location_id: 1, pref_call_id1: 2, pref_call_id2: 3, pref_call_id3: -1 },
        )
    }

    /// The configuration cache, for writing it back to disk.
    pub fn config_cache(&self) -> (r: &ConfigCache)
        ensures
            r.devices_view() == self@.devices,
    {
        &self.config_cache
    }

    /// The internal settings cache, for writing it back to disk.
    pub fn internal_settings_cache(&self) -> (r: &InternalSettingsCache)
        ensures
            r.prefs_view() == (self@.location_id, self@.pref1, self@.pref2, self@.pref3),
    {
        &self.internal_settings_cache
    }

    /// Every configured device, in configuration order.
    pub fn get_all_devices(&self) -> (r: Vec<DeviceData>)
        ensures
            view_device_data(r@) == self@.devices,
    {
        let devices = &self.config_cache.devices;
        let mut r: Vec<DeviceData> = Vec::new();
        let mut i: usize = 0;
        while i < devices.len()
            invariant
                i <= devices@.len(),
                self@.devices == view_devices(devices@),
                r@.len() == i,
                forall|k: int| 0 <= k < i ==> (#[trigger] r@[k])@ == self@.devices[k],
            decreases devices@.len() - i,
        {
            r.push(device_data(&devices[i]));
            i = i + 1;
        }
        assert(view_device_data(r@) =~= self@.devices);
        r
    }

    /// The id of this station.
    pub fn get_location_id(&self) -> (r: i32)
        ensures
            r == self@.location_id,
    {
        self.internal_settings_cache.location_id
    }

    /// The first configured device with id `device_id`.
    pub fn get_device_config(&self, device_id: i32) -> (r: Option<&Device>)
        ensures
            match find_device(self@.devices, device_id) {
                Some(i) => r matches Some(d) && d@ == self@.devices[i],
                None => r is None,
            },
    {
        let devices = &self.config_cache.devices;
        let mut i: usize = 0;
        while i < devices.len()
            invariant
                i <= devices@.len(),
                self@.devices == view_devices(devices@),
                forall|k: int| 0 <= k < i ==> (#[trigger] self@.devices[k]).id != device_id,
            decreases devices@.len() - i,
        {
            if devices[i].device_id == device_id {
                proof {
                    lemma_find_device(self@.devices, device_id, i as int);
                }
                return Some(&devices[i]);
            }
            i = i + 1;
        }
        proof {
            lemma_find_device(self@.devices, device_id, i as int);
        }
        None
    }

    /// The name to show for device `device_id` during a call.
    pub fn get_device_name(&self, device_id: i32) -> (r: String)
        ensures
            r@ == device_name_of(self@, device_id),
    {
        match self.get_device_config(device_id) {
            Some(device) => device.device_name.clone(),
            None => "Unknown...".to_owned(),
        }
    }

    /// The short label of device `device_id`: empty for `-1`, `"?"` for an
    /// unknown device.
    pub fn get_device_short_name(&self, device_id: i32) -> (r: String)
        ensures
            r@ == short_name_for_id(self@, device_id),
    {
        if device_id == -1 {
            return String::new();
        }
        match self.get_device_config(device_id) {
            Some(device) => device.device_short_name.clone(),
            None => "?".to_owned(),
        }
    }

    /// The device behind call button `num` (1, 2 or 3); `-1` for none.
    pub fn get_pref_call_id(&self, num: i32) -> (r: i32)
        ensures
            r == pref_of(self@, num),
    {
        match num {
            1 => self.internal_settings_cache.pref_call_id1,
            2 => self.internal_settings_cache.pref_call_id2,
            3 => self.internal_settings_cache.pref_call_id3,
            _ => -1,
        }
    }

    /// The choices for a call button: "Unassigned" first, then every device
    /// except this station, in configuration order.
    pub fn get_pref_model(&self) -> (r: Vec<DeviceData>)
        ensures
            view_device_data(r@) == pref_model_of(self@),
    {
        let location_id = self.get_location_id();
        let devices = &self.config_cache.devices;
        let mut model: Vec<DeviceData> = Vec::new();
        model.push(DeviceData {
            device_name: "Unassigned".to_owned(),
            device_short_name: String::new(),
            device_id: -1,
        });
        let ghost keep = |d: DeviceView| d.id != location_id;
        let ghost mut expected: Seq<DeviceView> = seq![unassigned_device()];
        let mut i: usize = 0;
        while i < devices.len()
            invariant
                i <= devices@.len(),
                self@.devices == view_devices(devices@),
                location_id == self@.location_id,
                keep == (|d: DeviceView| d.id != location_id),
                expected == seq![unassigned_device()] + self@.devices.take(i as int).filter(keep),
                model@.len() == expected.len(),
                forall|k: int| 0 <= k < model@.len() ==> (#[trigger] model@[k])@ == expected[k],
            decreases devices@.len() - i,
        {
            proof {
                self@.devices.take(i as int).lemma_filter_push(self@.devices[i as int], keep);
                assert(self@.devices.take(i as int).push(self@.devices[i as int]) =~= self@.devices.take(
                    i + 1,
                ));
            }
            if devices[i].device_id != location_id {
                model.push(device_data(&devices[i]));
                proof {
                    assert(expected.push(self@.devices[i as int]) =~= seq![unassigned_device()]
                        + self@.devices.take(i + 1).filter(keep));
                    expected = expected.push(self@.devices[i as int]);
                }
            } else {
                assert(expected =~= seq![unassigned_device()] + self@.devices.take(i + 1).filter(keep));
            }
            i = i + 1;
        }
        assert(self@.devices.take(devices@.len() as int) =~= self@.devices);
        assert(view_device_data(model@) =~= expected);
        model
    }

    /// The icon of call button `num`: empty when nothing is assigned.
    pub fn get_pref_icon_path(&self, num: i32) -> (r: String)
        ensures
            r@ == icon_path_of(self@, num),
    {
        let pref_call_id = self.get_pref_call_id(num);
        if pref_call_id == -1 {
            String::new()
        } else {
            "qrc:/qt/qml/UiBridge/assets/icons/button/call.svg".to_owned()
        }
    }

    /// Moves this station to `device_id`; a call button that called that
    /// device is cleared.
    pub fn set_location_id(&mut self, device_id: i32)
        ensures
            final(self)@ == with_location(old(self)@, device_id),
    {
        if self.get_location_id() != device_id {
            self.internal_settings_cache.location_id = device_id;
            if self.internal_settings_cache.pref_call_id1 == device_id {
                self.internal_settings_cache.pref_call_id1 = -1;
            }
            if self.internal_settings_cache.pref_call_id2 == device_id {
                self.internal_settings_cache.pref_call_id2 = -1;
            }
            if self.internal_settings_cache.pref_call_id3 == device_id {
                self.internal_settings_cache.pref_call_id3 = -1;
            }
        }
    }

    /// Puts `device_id` behind call button `num`; another button that called
    /// the same device is cleared.
    pub fn set_pref_call_id(&mut self, num: i32, device_id: i32)
        ensures
            final(self)@ == with_pref(old(self)@, num, device_id),
    {
        if self.get_pref_call_id(num) == device_id {
            return;
        }
        if device_id != -1 {
            if num != 1 && self.internal_settings_cache.pref_call_id1 == device_id {
                self.internal_settings_cache.pref_call_id1 = -1;
            }
            if num != 2 && self.internal_settings_cache.pref_call_id2 == device_id {
                self.internal_settings_cache.pref_call_id2 = -1;
            }
            if num != 3 && self.internal_settings_cache.pref_call_id3 == device_id {
                self.internal_settings_cache.pref_call_id3 = -1;
            }
        }
        match num {
            1 => self.internal_settings_cache.pref_call_id1 = device_id,
            2 => self.internal_settings_cache.pref_call_id2 = device_id,
            3 => self.internal_settings_cache.pref_call_id3 = device_id,
            _ => {},
        }
    }
}

/// The device configuration and the station's own settings below the project
/// directory `base_dir`: `config/devices.json` and `internal/settings.json`.
pub fn setup_paths(base_dir: &str) -> (r: (String, String))
    ensures
        r.0@ == join_path(join_path(base_dir@, "config"@), "devices.json"@),
        r.1@ == join_path(join_path(base_dir@, "internal"@), "settings.json"@),
{
    let config = join_dir(base_dir, "config");
    let config_path = join_dir(config.as_str(), "devices.json");
    let internal = join_dir(base_dir, "internal");
    let internal_settings_path = join_dir(internal.as_str(), "settings.json");
    (config_path, internal_settings_path)
}

} // verus!
