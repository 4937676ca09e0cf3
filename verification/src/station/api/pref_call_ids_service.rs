//! The devices behind the call buttons, as the user interface reads and sets them.
use vstd::prelude::*;

use crate::station::state::devices::{pref_of, with_pref, DeviceManager};

verus! {

/// The service for the devices behind the three call buttons. The device
/// manager is shared with other services; each request hands it over.
pub struct PrefCallIdsService {}

impl PrefCallIdsService {
    pub fn new() -> (r: Self) {
        PrefCallIdsService {}
    }

    /// The device behind button `num`; `-1` for none.
    pub fn get_pref_call_id(&self, manager: &DeviceManager, num: i32) -> (r: i32)
        ensures
            r == pref_of(manager@, num),
    {
        manager.get_pref_call_id(num)
    }

    /// Puts device `device_id` behind button `num`, taking it off any other button.
    pub fn set_pref_call_id(&self, manager: &mut DeviceManager, num: i32, device_id: i32)
        ensures
            final(manager)@ == with_pref(old(manager)@, num, device_id),
    {
        manager.set_pref_call_id(num, device_id)
    }
}

} // verus!
