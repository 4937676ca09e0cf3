//! The label of the current call, as the user interface shows it.
use vstd::prelude::*;

use crate::station::act::call::call_handler::{call_label, CallHandler};
use crate::station::state::devices::{device_name_of, DeviceManager};

verus! {

/// The call helpers of the user interface. The call handler and the device
/// manager are shared with other services; each request hands them over.
pub struct CallApi {}

impl CallApi {
    pub fn new() -> (r: Self) {
        CallApi {}
    }

    /// The label that names the current call: built from the state of the
    /// call and the name of the other station.
    pub fn get_call_label(&self, call_handler: &CallHandler, device_manager: &DeviceManager) -> (r: String)
        ensures
            r@ == call_label(call_handler@.call_state, device_name_of(device_manager@, call_handler@.call_device_id)),
    {
        let call_device_id = call_handler.get_call_device_id();
        let device_name = device_manager.get_device_name(call_device_id);
        call_handler.get_call_label(device_name.as_str())
    }
}

} // verus!
