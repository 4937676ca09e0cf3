//! The devices that can be put behind a call button.
use vstd::prelude::*;

use crate::station::state::devices::{pref_model_of, view_devices, Device, DeviceManager};

verus! {

/// The service for the choice of devices behind the call buttons. The device
/// manager is shared with other services; each request hands it over.
pub struct PrefModelService {}

impl PrefModelService {
    pub fn new() -> (r: Self) {
        PrefModelService {}
    }

    /// "Unassigned" first, then every device but this station.
    pub fn get_pref_model(&self, manager: &DeviceManager) -> (r: Vec<Device>)
        ensures
            view_devices(r@) == pref_model_of(manager@),
    {
        manager.get_pref_model()
    }
}

} // verus!
