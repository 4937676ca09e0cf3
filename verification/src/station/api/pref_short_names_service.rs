//! The short names shown on top of the call buttons.
use vstd::prelude::*;

use crate::station::state::devices::{short_name_of, DeviceManager};

verus! {

/// The service for the short names on top of the three call buttons. The
/// device manager is shared with other services; each request hands it over.
pub struct PrefShortNamesService {}

impl PrefShortNamesService {
    pub fn new() -> (r: Self) {
        PrefShortNamesService {}
    }

    pub fn get_pref1_short_name(&self, manager: &DeviceManager) -> (r: String)
        ensures
            r@ == short_name_of(manager@, 1),
    {
        manager.get_device_short_name(1)
    }

    pub fn get_pref2_short_name(&self, manager: &DeviceManager) -> (r: String)
        ensures
            r@ == short_name_of(manager@, 2),
    {
        manager.get_device_short_name(2)
    }

    pub fn get_pref3_short_name(&self, manager: &DeviceManager) -> (r: String)
        ensures
            r@ == short_name_of(manager@, 3),
    {
        manager.get_device_short_name(3)
    }
}

} // verus!
