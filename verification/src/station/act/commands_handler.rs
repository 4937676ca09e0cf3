//! Commands that this station sends to other devices.
use vstd::prelude::*;

use crate::networking::mqtt::mqtt_handler::{MqttError, MqttHandler};
use crate::station::act::call::call_handler::device_subtopic;

verus! {

/// Sends commands to other devices over MQTT. The MQTT handler is shared with
/// the rest of the station; each command hands it over.
pub struct CommandsHandler {}

impl CommandsHandler {
    pub fn new() -> (r: Self) {
        CommandsHandler {}
    }

    /// Asks door device `target_id` to open its door: publishes the encoded
    /// command `payload` on the device's subtopic `call/device/<target_id>`.
    pub fn open_door(&self, mqtt_handler: &MqttHandler, target_id: i32, payload: String) -> (r: Result<(), MqttError>)
        ensures
            r is Err ==> r == Err::<(), MqttError>(MqttError::RequestFailed),
    {
        let subtopic = device_subtopic(target_id);
        mqtt_handler.publish(subtopic.as_str(), payload)
    }
}

} // verus!
