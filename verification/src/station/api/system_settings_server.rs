//! The system settings offered to the user interface: where this station stands.
use vstd::prelude::*;

use crate::networking::mqtt::mqtt_handler::{MqttError, MqttHandler};
use crate::station::act::call::call_setup::{call_topic, subscribe_to_call_message};
use crate::station::state::devices::{view_devices, with_location, Device, DeviceManager};

verus! {

/// The system settings service. The device manager and the MQTT handler are
/// shared with other services; each request hands them over.
pub struct SystemSettingsServer {}

impl SystemSettingsServer {
    pub fn new() -> (r: Self) {
        SystemSettingsServer {}
    }

    /// Every device of the configuration.
    pub fn get_all_devices(&self, manager: &DeviceManager) -> (r: Vec<Device>)
        ensures
            view_devices(r@) == manager@.devices,
    {
        manager.get_all_devices()
    }

    /// Where this station stands.
    pub fn get_location_id(&self, manager: &DeviceManager) -> (r: i32)
        ensures
            r == manager@.location_id,
    {
        manager.get_location_id()
    }

    /// Moves this station to location `device_id`: the buttons that called
    /// that device are cleared, and the station listens to the call subtopic of
    /// its new location alone.
    pub fn set_location_id(&self, manager: &mut DeviceManager, mqtt_handler: &mut MqttHandler, device_id: i32) -> (r:
        Result<(), MqttError>)
        ensures
            final(manager)@ == with_location(old(manager)@, device_id),
            final(mqtt_handler).prefix() == old(mqtt_handler).prefix(),
            r is Ok ==> final(mqtt_handler).subtopic_set() == set![call_topic(device_id)],
            r is Err ==> final(mqtt_handler).subtopic_set().subset_of(old(mqtt_handler).subtopic_set()),
    {
        manager.set_location_id(device_id);
        subscribe_to_call_message(mqtt_handler, device_id)
    }
}

} // verus!
