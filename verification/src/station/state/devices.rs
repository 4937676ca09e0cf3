//! The devices of the installation and the preferences that the UI sets:
//! where this station stands, and which devices sit behind the three
//! call buttons.
use vstd::prelude::*;

use crate::station::act::call::call_mqtt_event::DeviceType;
use crate::text::{join_dir, join_path};

verus! {

/// One device of the installation, as listed in the device configuration.
pub struct Device {
    pub device_name: String,
    pub device_short_name: String,
    pub device_id: i32,
}

/// A device as plain values.
pub struct DeviceView {
    pub name: Seq<char>,
    pub short_name: Seq<char>,
    pub id: i32,
}

impl View for Device {
    type V = DeviceView;

    open spec fn view(&self) -> DeviceView {
        DeviceView { name: self.device_name@, short_name: self.device_short_name@, id: self.device_id }
    }
}

/// Data for the user to set in the device configuration.
pub struct ConfigCache {
    pub devices: Vec<Device>,
}

/// Internal data set by the UI.
pub struct InternalSettingsCache {
    pub location_id: i32,
    pub pref1_call_id: i32,
    pub pref2_call_id: i32,
    pub pref3_call_id: i32,
}

/// The device list and the station's own settings.
pub struct DeviceManager {
    config_cache: ConfigCache,
    internal_settings_cache: InternalSettingsCache,
}

/// The state of a [`DeviceManager`] as plain values.
pub struct DeviceManagerView {
    pub devices: Seq<DeviceView>,
    pub location_id: i32,
    pub pref1: i32,
    pub pref2: i32,
    pub pref3: i32,
}

impl View for DeviceManager {
    type V = DeviceManagerView;

    closed spec fn view(&self) -> DeviceManagerView {
        DeviceManagerView {
            devices: view_devices(self.config_cache.devices@),
            location_id: self.internal_settings_cache.location_id,
            pref1: self.internal_settings_cache.pref1_call_id,
            pref2: self.internal_settings_cache.pref2_call_id,
            pref3: self.internal_settings_cache.pref3_call_id,
        }
    }
}

/// The plain values of a list of devices.
pub open spec fn view_devices(s: Seq<Device>) -> Seq<DeviceView> {
    s.map_values(|d: Device| d@)
}

impl ConfigCache {
    pub open spec fn devices_view(&self) -> Seq<DeviceView> {
        view_devices(self.devices@)
    }
}

impl InternalSettingsCache {
    pub open spec fn prefs_view(&self) -> (i32, i32, i32, i32) {
        (self.location_id, self.pref1_call_id, self.pref2_call_id, self.pref3_call_id)
    }
}

/// The devices that a fresh installation knows.
pub open spec fn default_devices() -> Seq<DeviceView> {
    seq![
        DeviceView { name: "1st Floor"@, short_name: "1"@, id: 1 },
        DeviceView { name: "2nd Floor"@, short_name: "2"@, id: 2 },
        DeviceView { name: "3rd Floor"@, short_name: "3"@, id: 3 },
    ]
}

/// The preferred call id behind button `num`; `-1` for no device or no such button.
pub open spec fn pref_of(v: DeviceManagerView, num: i32) -> i32 {
    if num == 1 {
        v.pref1
    } else if num == 2 {
        v.pref2
    } else if num == 3 {
        v.pref3
    } else {
        -1i32
    }
}

/// Index of the first device with id `id`.
pub open spec fn find_device(devices: Seq<DeviceView>, id: i32) -> Option<int>
    decreases devices.len(),
{
    if devices.len() == 0 {
        None
    } else if devices[0].id == id {
        Some(0)
    } else {
        match find_device(devices.drop_first(), id) {
            Some(i) => Some(i + 1),
            None => None,
        }
    }
}

/// The name shown for device `id`.
pub open spec fn device_name_of(v: DeviceManagerView, id: i32) -> Seq<char> {
    match find_device(v.devices, id) {
        Some(i) => v.devices[i].name,
        None => "Unknown..."@,
    }
}

/// The short label of device `id`: empty for no device (`-1`), `"?"` for an
/// unknown one.
pub open spec fn short_name_for_id(v: DeviceManagerView, id: i32) -> Seq<char> {
    if id == -1 {
        Seq::empty()
    } else {
        match find_device(v.devices, id) {
            Some(i) => v.devices[i].short_name,
            None => "?"@,
        }
    }
}

/// The label on call button `num`.
pub open spec fn short_name_of(v: DeviceManagerView, num: i32) -> Seq<char> {
    short_name_for_id(v, pref_of(v, num))
}

pub open spec fn call_icon_path() -> Seq<char> {
    "qrc:/qt/qml/UiBridge/assets/icons/button/call.svg"@
}

/// The icon on call button `num`: none for an unassigned button.
pub open spec fn icon_path_of(v: DeviceManagerView, num: i32) -> Seq<char> {
    if pref_of(v, num) == -1 {
        Seq::empty()
    } else {
        call_icon_path()
    }
}

pub open spec fn unassigned_device() -> DeviceView {
    DeviceView { name: "Unassigned"@, short_name: Seq::empty(), id: -1i32 }
}

/// The choices for a call button: "Unassigned", then every device but this station.
pub open spec fn pref_model_of(v: DeviceManagerView) -> Seq<DeviceView> {
    seq![unassigned_device()] + v.devices.filter(|d: DeviceView| d.id != v.location_id)
}

/// Moving this station to `device_id`: a button that called that device is cleared.
pub open spec fn with_location(v: DeviceManagerView, device_id: i32) -> DeviceManagerView {
    if v.location_id == device_id {
        v
    } else {
        DeviceManagerView {
            location_id: device_id,
            pref1: if v.pref1 == device_id { -1i32 } else { v.pref1 },
            pref2: if v.pref2 == device_id { -1i32 } else { v.pref2 },
            pref3: if v.pref3 == device_id { -1i32 } else { v.pref3 },
            ..v
        }
    }
}

/// Slot `slot` after button `num` took `device_id`: a different button that held
/// the same device is cleared.
pub open spec fn cleared_slot(p: i32, slot: i32, num: i32, device_id: i32) -> i32 {
    if device_id != -1 && slot != num && p == device_id {
        -1i32
    } else {
        p
    }
}

/// Button `num` calling `device_id`; no two buttons call the same device.
pub open spec fn with_pref(v: DeviceManagerView, num: i32, device_id: i32) -> DeviceManagerView {
    if pref_of(v, num) == device_id {
        v
    } else {
        DeviceManagerView {
            pref1: if num == 1 { device_id } else { cleared_slot(v.pref1, 1, num, device_id) },
            pref2: if num == 2 { device_id } else { cleared_slot(v.pref2, 2, num, device_id) },
            pref3: if num == 3 { device_id } else { cleared_slot(v.pref3, 3, num, device_id) },
            ..v
        }
    }
}

/// No device sits behind two call buttons.
pub open spec fn prefs_distinct(v: DeviceManagerView) -> bool {
    &&& (v.pref1 == v.pref2 ==> v.pref1 == -1)
    &&& (v.pref1 == v.pref3 ==> v.pref1 == -1)
    &&& (v.pref2 == v.pref3 ==> v.pref2 == -1)
}

/// Reading call button `num` after putting `device_id` behind it gives `device_id`.
pub proof fn lemma_pref_read_after_write(v: DeviceManagerView, num: i32, device_id: i32)
    requires
        1 <= num <= 3,
    ensures
        pref_of(with_pref(v, num, device_id), num) == device_id,
{
}

/// Once a device is behind call button `num`, no other button calls it. (When
/// the device already sat behind `num`, nothing changes: the law needs that no
/// other button held it then.)
pub proof fn lemma_pref_unique_after_write(v: DeviceManagerView, num: i32, device_id: i32)
    requires
        1 <= num <= 3,
        device_id != -1,
        pref_of(v, num) == device_id ==> forall|other: i32|
            1 <= other <= 3 && other != num ==> pref_of(v, other) != device_id,
    ensures
        forall|other: i32|
            1 <= other <= 3 && other != num ==> pref_of(with_pref(v, num, device_id), other)
                != device_id,
{
    assert forall|other: i32| 1 <= other <= 3 && other != num implies pref_of(
        with_pref(v, num, device_id),
        other,
    ) != device_id by {
        if other == 1 {
        } else if other == 2 {
        } else {
        }
    }
}

/// Setting a call button keeps the buttons pairwise distinct.
pub proof fn lemma_pref_write_keeps_distinct(v: DeviceManagerView, num: i32, device_id: i32)
    requires
        prefs_distinct(v),
    ensures
        prefs_distinct(with_pref(v, num, device_id)),
{
}

/// Setting a call button changes neither the devices nor the station's location.
pub proof fn lemma_pref_write_frame(v: DeviceManagerView, num: i32, device_id: i32)
    ensures
        with_pref(v, num, device_id).devices == v.devices,
        with_pref(v, num, device_id).location_id == v.location_id,
{
}

/// After the station moves to `device_id`, no call button calls the station
/// itself. (A move to where the station already is changes nothing, and `-1`
/// is what an unassigned button holds: there the law needs that no button
/// held `device_id` before.)
pub proof fn lemma_location_write_clears_buttons(v: DeviceManagerView, device_id: i32)
    requires
        v.location_id == device_id || device_id == -1 ==> forall|n: i32|
            1 <= n <= 3 ==> pref_of(v, n) != device_id,
    ensures
        with_location(v, device_id).location_id == device_id,
        forall|n: i32| 1 <= n <= 3 ==> pref_of(with_location(v, device_id), n) != device_id,
        with_location(v, device_id).devices == v.devices,
{
    assert forall|n: i32| 1 <= n <= 3 implies pref_of(with_location(v, device_id), n) != device_id by {
        assert(v.location_id == device_id || device_id == -1 ==> pref_of(v, n) != device_id);
        if n == 1 {
        } else if n == 2 {
        } else {
        }
    }
}

/// Moving the station keeps the call buttons pairwise distinct.
pub proof fn lemma_location_write_keeps_distinct(v: DeviceManagerView, device_id: i32)
    requires
        prefs_distinct(v),
    ensures
        prefs_distinct(with_location(v, device_id)),
{
}

/// Repeating a setting changes nothing.
pub proof fn lemma_writes_idempotent(v: DeviceManagerView, num: i32, device_id: i32, location_id: i32)
    ensures
        with_pref(with_pref(v, num, device_id), num, device_id) == with_pref(v, num, device_id),
        with_location(with_location(v, location_id), location_id) == with_location(v, location_id),
{
}

/// The choices for a call button start with "Unassigned" and never offer the
/// station itself.
pub proof fn lemma_pref_model_excludes_station(v: DeviceManagerView)
    ensures
        pref_model_of(v).len() >= 1,
        pref_model_of(v)[0] == unassigned_device(),
        forall|k: int| 1 <= k < pref_model_of(v).len() ==> (#[trigger] pref_model_of(v)[k]).id != v.location_id,
{
    let keep = |d: DeviceView| d.id != v.location_id;
    assert forall|k: int| 1 <= k < pref_model_of(v).len() implies (#[trigger] pref_model_of(v)[k]).id
        != v.location_id by {
        v.devices.lemma_filter_pred(keep, k - 1);
    }
}

/// How many of `devices` are not the station at `location_id`.
pub open spec fn count_others(devices: Seq<DeviceView>, location_id: i32) -> nat
    decreases devices.len(),
{
    if devices.len() == 0 {
        0
    } else {
        count_others(devices.drop_last(), location_id) + if devices.last().id != location_id {
            1nat
        } else {
            0nat
        }
    }
}

proof fn lemma_count_others_prefix(s: Seq<DeviceView>, location_id: i32, i: int)
    requires
        0 <= i < s.len(),
    ensures
        count_others(s.take(i), location_id) + (if s[i].id != location_id { 1int } else { 0int })
            <= count_others(s, location_id),
    decreases s.len(),
{
    let n = s.len() - 1;
    if i < n {
        lemma_count_others_prefix(s.drop_last(), location_id, i);
        assert(s.drop_last().take(i) =~= s.take(i));
    } else {
        assert(s.take(i) =~= s.drop_last());
    }
}

/// The choices for a call button are "Unassigned" followed by every device
/// of the configuration but the station itself, in configuration order: the
/// device at index `i` comes right after those before it that are not the
/// station, and nothing else is listed.
pub proof fn lemma_pref_model_lists_every_other_device(v: DeviceManagerView)
    ensures
        pref_model_of(v).len() == 1 + count_others(v.devices, v.location_id),
        pref_model_of(v)[0] == unassigned_device(),
        forall|i: int|
            0 <= i < v.devices.len() && v.devices[i].id != v.location_id ==> pref_model_of(v)[(1 + count_others(
                #[trigger] v.devices.take(i),
                v.location_id,
            )) as int] == v.devices[i],
    decreases v.devices.len(),
{
    if v.devices.len() > 0 {
        let n = v.devices.len() - 1;
        let w = DeviceManagerView { devices: v.devices.drop_last(), ..v };
        lemma_pref_model_lists_every_other_device(w);
        assert(v.devices.take(n) =~= w.devices);
        let f = |d: DeviceView| d.id != v.location_id;
        let last = v.devices.last();
        assert(pref_model_of(v) == seq![unassigned_device()] + v.devices.filter(f));
        assert(pref_model_of(w) == seq![unassigned_device()] + w.devices.filter(f));
        assert(v.devices.drop_last() == w.devices);
        assert(w.devices.push(last) =~= v.devices);
        w.devices.lemma_filter_push(last, f);
        if f(last) {
            assert(v.devices.filter(f) == w.devices.filter(f).push(last));
            assert(pref_model_of(v) =~= pref_model_of(w).push(last));
        } else {
            assert(v.devices.filter(f) == w.devices.filter(f));
            assert(pref_model_of(v) =~= pref_model_of(w));
        }
        assert forall|i: int|
            0 <= i < v.devices.len() && v.devices[i].id != v.location_id implies pref_model_of(v)[(1
                + count_others(#[trigger] v.devices.take(i), v.location_id)) as int] == v.devices[i] by {
            if i < n {
                assert(v.devices.take(i) =~= w.devices.take(i));
                assert(w.devices[i] == v.devices[i]);
                lemma_count_others_prefix(w.devices, v.location_id, i);
                assert(pref_model_of(w)[(1 + count_others(w.devices.take(i), w.location_id)) as int] == w.devices[i]);
            } else {
                assert(v.devices.take(i) =~= w.devices);
            }
        }
    }
}

/// A button shows an icon exactly when a device is behind it, and no label
/// when none is.
pub proof fn lemma_unassigned_button_is_blank(v: DeviceManagerView, num: i32)
    ensures
        (icon_path_of(v, num).len() == 0) == (pref_of(v, num) == -1),
        pref_of(v, num) == -1 ==> short_name_of(v, num).len() == 0,
{
    reveal_strlit("qrc:/qt/qml/UiBridge/assets/icons/button/call.svg");
}

fn copy_device(d: &Device) -> (r: Device)
    ensures
        r@ == d@,
{
    Device {
        device_name: d.device_name.clone(),
        device_short_name: d.device_short_name.clone(),
        device_id: d.device_id,
    }
}

fn device_from(name: &str, short_name: &str, id: i32) -> (r: Device)
    ensures
        r@ == (DeviceView { name: name@, short_name: short_name@, id }),
{
    Device { device_name: name.to_owned(), device_short_name: short_name.to_owned(), device_id: id }
}

pub proof fn lemma_find_device(devices: Seq<DeviceView>, id: i32, i: int)
    requires
        0 <= i <= devices.len(),
        forall|k: int| 0 <= k < i ==> (#[trigger] devices[k]).id != id,
    ensures
        i < devices.len() && devices[i].id == id ==> find_device(devices, id) == Some(i),
        i == devices.len() ==> find_device(devices, id) is None,
    decreases i,
{
    if i > 0 {
        lemma_find_device(devices.drop_first(), id, i - 1);
    }
}

impl DeviceManager {
    /// The manager over the configuration and settings read from disk; what was
    /// not there starts from the defaults.
    pub fn new(config: Option<ConfigCache>, internal_settings: Option<InternalSettingsCache>) -> (r:
        Self)
        ensures
            r@.devices == (match config {
                Some(c) => c.devices_view(),
                None => default_devices(),
            }),
            (r@.location_id, r@.pref1, r@.pref2, r@.pref3) == (match internal_settings {
                Some(s) => s.prefs_view(),
                None => (1i32, 2i32, 3i32, -1i32),
            }),
            internal_settings is None ==> prefs_distinct(r@),
    {
        let (default_config, default_settings) = Self::setup_defaults();
        let config_cache = match config {
            Some(c) => c,
            None => default_config,
        };
        let internal_settings_cache = match internal_settings {
            Some(s) => s,
            None => default_settings,
        };
        DeviceManager { config_cache, internal_settings_cache }
    }

    /// The configuration and settings of a fresh installation.
    pub fn setup_defaults() -> (r: (ConfigCache, InternalSettingsCache))
        ensures
            r.0.devices_view() == default_devices(),
            r.1.prefs_view() == (1i32, 2i32, 3i32, -1i32),
    {
        let mut devices: Vec<Device> = Vec::new();
        devices.push(device_from("1st Floor", "1", 1));
        devices.push(device_from("2nd Floor", "2", 2));
        devices.push(device_from("3rd Floor", "3", 3));
        let config = ConfigCache { devices };
        assert(view_devices(config.devices@) =~= default_devices());
        (
            config,
            InternalSettingsCache {
                location_id: 1,
                pref1_call_id: 2,
                pref2_call_id: 3,
                pref3_call_id: -1,
            },
        )
    }

    /// The configuration cache, for writing it back to disk.
    pub fn config_cache(&self) -> (r: &ConfigCache)
        ensures
            r.devices_view() == self@.devices,
    {
        &self.config_cache
    }

    /// The internal settings cache, for writing it back to disk.
    pub fn internal_settings_cache(&self) -> (r: &InternalSettingsCache)
        ensures
            r.prefs_view() == (self@.location_id, self@.pref1, self@.pref2, self@.pref3),
    {
        &self.internal_settings_cache
    }

    /// Every configured device, in configuration order.
    pub fn get_all_devices(&self) -> (r: Vec<Device>)
        ensures
            view_devices(r@) == self@.devices,
    {
        let devices = &self.config_cache.devices;
        let mut r: Vec<Device> = Vec::new();
        let mut i: usize = 0;
        while i < devices.len()
            invariant
                i <= devices@.len(),
                self@.devices == view_devices(devices@),
                r@.len() == i,
                forall|k: int| 0 <= k < i ==> (#[trigger] r@[k])@ == self@.devices[k],
            decreases devices@.len() - i,
        {
            r.push(copy_device(&devices[i]));
            i = i + 1;
        }
        assert(view_devices(r@) =~= self@.devices);
        r
    }

    /// The id of this station.
    pub fn get_location_id(&self) -> (r: i32)
        ensures
            r == self@.location_id,
    {
        self.internal_settings_cache.location_id
    }

    /// The first configured device with id `device_id`.
    pub fn get_device_config(&self, device_id: i32) -> (r: Option<&Device>)
        ensures
            match find_device(self@.devices, device_id) {
                Some(i) => r matches Some(d) && d@ == self@.devices[i],
                None => r is None,
            },
    {
        let devices = &self.config_cache.devices;
        let mut i: usize = 0;
        while i < devices.len()
            invariant
                i <= devices@.len(),
                self@.devices == view_devices(devices@),
                forall|k: int| 0 <= k < i ==> (#[trigger] self@.devices[k]).id != device_id,
            decreases devices@.len() - i,
        {
            if devices[i].device_id == device_id {
                proof {
                    lemma_find_device(self@.devices, device_id, i as int);
                }
                return Some(&devices[i]);
            }
            i = i + 1;
        }
        proof {
            lemma_find_device(self@.devices, device_id, i as int);
        }
        None
    }

    /// The name to show for device `device_id` during a call.
    pub fn get_device_name(&self, device_id: i32) -> (r: String)
        ensures
            r@ == device_name_of(self@, device_id),
    {
        match self.get_device_config(device_id) {
            Some(device) => device.device_name.clone(),
            None => "Unknown...".to_owned(),
        }
    }

    /// The short label on call button `num`.
    pub fn get_device_short_name(&self, num: i32) -> (r: String)
        ensures
            r@ == short_name_of(self@, num),
    {
        let pref_call_id = self.get_pref_call_id(num);
        if pref_call_id == -1 {
            return String::new();
        }
        match self.get_device_config(pref_call_id) {
            Some(device) => device.device_short_name.clone(),
            None => "?".to_owned(),
        }
    }

    /// The device behind call button `num` (1, 2 or 3); `-1` for none.
    pub fn get_pref_call_id(&self, num: i32) -> (r: i32)
        ensures
            r == pref_of(self@, num),
    {
        match num {
            1 => self.internal_settings_cache.pref1_call_id,
            2 => self.internal_settings_cache.pref2_call_id,
            3 => self.internal_settings_cache.pref3_call_id,
            _ => -1,
        }
    }

    /// The choices for a call button: "Unassigned" first, then every device
    /// except this station, in configuration order.
    pub fn get_pref_model(&self) -> (r: Vec<Device>)
        ensures
            view_devices(r@) == pref_model_of(self@),
    {
        let location_id = self.get_location_id();
        let devices = &self.config_cache.devices;
        let mut model: Vec<Device> = Vec::new();
        model.push(Device {
            device_name: "Unassigned".to_owned(),
            device_short_name: String::new(),
            device_id: -1,
        });
        let ghost keep = |d: DeviceView| d.id != location_id;
        let ghost mut expected: Seq<DeviceView> = seq![unassigned_device()];
        let mut i: usize = 0;
        while i < devices.len()
            invariant
                i <= devices@.len(),
                self@.devices == view_devices(devices@),
                location_id == self@.location_id,
                keep == (|d: DeviceView| d.id != location_id),
                expected == seq![unassigned_device()] + self@.devices.take(i as int).filter(keep),
                model@.len() == expected.len(),
                forall|k: int| 0 <= k < model@.len() ==> (#[trigger] model@[k])@ == expected[k],
            decreases devices@.len() - i,
        {
            proof {
                self@.devices.take(i as int).lemma_filter_push(self@.devices[i as int], keep);
                assert(self@.devices.take(i as int).push(self@.devices[i as int]) =~= self@.devices.take(
                    i + 1,
                ));
            }
            if devices[i].device_id != location_id {
                model.push(copy_device(&devices[i]));
                proof {
                    assert(expected.push(self@.devices[i as int]) =~= seq![unassigned_device()]
                        + self@.devices.take(i + 1).filter(keep));
                    expected = expected.push(self@.devices[i as int]);
                }
            } else {
                assert(expected =~= seq![unassigned_device()] + self@.devices.take(i + 1).filter(keep));
            }
            i = i + 1;
        }
        assert(self@.devices.take(devices@.len() as int) =~= self@.devices);
        assert(view_devices(model@) =~= expected);
        model
    }

    /// The icon of call button `num`: empty when nothing is assigned.
    pub fn get_pref_icon_path(&self, num: i32) -> (r: String)
        ensures
            r@ == icon_path_of(self@, num),
    {
        let pref_call_id = self.get_pref_call_id(num);
        if pref_call_id == -1 {
            String::new()
        } else {
            "qrc:/qt/qml/UiBridge/assets/icons/button/call.svg".to_owned()
        }
    }

    /// Moves this station to `device_id`; a call button that called that
    /// device is cleared.
    pub fn set_location_id(&mut self, device_id: i32)
        ensures
            final(self)@ == with_location(old(self)@, device_id),
    {
        if self.get_location_id() != device_id {
            self.internal_settings_cache.location_id = device_id;
            if self.internal_settings_cache.pref1_call_id == device_id {
                self.internal_settings_cache.pref1_call_id = -1;
            }
            if self.internal_settings_cache.pref2_call_id == device_id {
                self.internal_settings_cache.pref2_call_id = -1;
            }
            if self.internal_settings_cache.pref3_call_id == device_id {
                self.internal_settings_cache.pref3_call_id = -1;
            }
        }
    }

    /// Puts `device_id` behind call button `num`; another button that called
    /// the same device is cleared.
    pub fn set_pref_call_id(&mut self, num: i32, device_id: i32)
        ensures
            final(self)@ == with_pref(old(self)@, num, device_id),
    {
        if self.get_pref_call_id(num) == device_id {
            return;
        }
        if device_id != -1 {
            let mut i: i32 = 1;
            while i <= 3
                invariant
                    1 <= i <= 4,
                    device_id != -1,
                    pref_of(old(self)@, num) != device_id,
                    self@.devices == old(self)@.devices,
                    self@.location_id == old(self)@.location_id,
                    self@.pref1 == (if i > 1 { cleared_slot(old(self)@.pref1, 1, num, device_id) } else { old(self)@.pref1 }),
                    self@.pref2 == (if i > 2 { cleared_slot(old(self)@.pref2, 2, num, device_id) } else { old(self)@.pref2 }),
                    self@.pref3 == (if i > 3 { cleared_slot(old(self)@.pref3, 3, num, device_id) } else { old(self)@.pref3 }),
                decreases 4 - i,
            {
                if i != num && self.get_pref_call_id(i) == device_id {
                    match i {
                        1 => self.internal_settings_cache.pref1_call_id = -1,
                        2 => self.internal_settings_cache.pref2_call_id = -1,
                        3 => self.internal_settings_cache.pref3_call_id = -1,
                        _ => {},
                    }
                }
                i = i + 1;
            }
        }
        match num {
            1 => self.internal_settings_cache.pref1_call_id = device_id,
            2 => self.internal_settings_cache.pref2_call_id = device_id,
            3 => self.internal_settings_cache.pref3_call_id = device_id,
            _ => {},
        }
    }

    /// The kind of device `device_id`: the configuration lists stations with a
    /// display, so a configured device is a [`DeviceType::Device`] and an
    /// unknown id has no type.
    pub fn get_device_type(&self, device_id: i32) -> (r: Option<DeviceType>)
        ensures
            r == (if find_device(self@.devices, device_id) is Some {
                Some(DeviceType::Device)
            } else {
                None::<DeviceType>
            }),
    {
        match self.get_device_config(device_id) {
            Some(_) => Some(DeviceType::Device),
            None => None,
        }
    }
}

/// The device configuration and the station's own settings below the project
/// directory `base_dir`: `config/devices.json` and `internal/settings.json`.
pub fn setup_paths(base_dir: &str) -> (r: (String, String))
    ensures
        r.0@ == join_path(join_path(base_dir@, "config"@), "devices.json"@),
        r.1@ == join_path(join_path(base_dir@, "internal"@), "settings.json"@),
{
    let config = join_dir(base_dir, "config");
    let config_path = join_dir(config.as_str(), "devices.json");
    let internal = join_dir(base_dir, "internal");
    let internal_settings_path = join_dir(internal.as_str(), "settings.json");
    (config_path, internal_settings_path)
}

} // verus!
