pub mod mqtt_config;
pub mod mqtt_handler;
pub mod mqtt_parser;
