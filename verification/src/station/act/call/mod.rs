pub mod call_handler;
pub mod call_mqtt_event;
pub mod call_mqtt_event_handler;
pub mod call_setup;
