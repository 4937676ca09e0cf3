//! The icons of the call buttons.
use vstd::prelude::*;

use crate::station::state::devices::{icon_path_of, DeviceManager};

verus! {

/// The service for the icons of the three call buttons. The device manager is
/// shared with other services; each request hands it over.
pub struct PrefIconPathsService {}

impl PrefIconPathsService {
    pub fn new() -> (r: Self) {
        PrefIconPathsService {}
    }

    pub fn get_pref1_icon_path(&self, manager: &DeviceManager) -> (r: String)
        ensures
            r@ == icon_path_of(manager@, 1),
    {
        manager.get_pref_icon_path(1)
    }

    pub fn get_pref2_icon_path(&self, manager: &DeviceManager) -> (r: String)
        ensures
            r@ == icon_path_of(manager@, 2),
    {
        manager.get_pref_icon_path(2)
    }

    pub fn get_pref3_icon_path(&self, manager: &DeviceManager) -> (r: String)
        ensures
            r@ == icon_path_of(manager@, 3),
    {
        manager.get_pref_icon_path(3)
    }
}

} // verus!
