//! The labels of the call icons.
use vstd::prelude::*;

use crate::station::state::devices::{short_name_of, DeviceManager};

verus! {

/// The labels on top of the three call icons. The device manager is shared
/// with other services; each request hands it over.
pub struct CallIcons {}

impl CallIcons {
    pub fn new() -> (r: Self) {
        CallIcons {}
    }

    pub fn get_pref1_short_name(&self, manager: &DeviceManager) -> (r: String)
        ensures
            r@ == short_name_of(manager@, 1),
    {
        manager.get_device_short_name(1)
    }

    pub fn get_pref2_short_name(&self, manager: &DeviceManager) -> (r: String)
        ensures
            r@ == short_name_of(manager@, 2),
    {
        manager.get_device_short_name(2)
    }

    pub fn get_pref3_short_name(&self, manager: &DeviceManager) -> (r: String)
        ensures
            r@ == short_name_of(manager@, 3),
    {
        manager.get_device_short_name(3)
    }
}

} // verus!
