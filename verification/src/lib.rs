//! Core logic of the intercom daemon: device and preference settings, the
//! call state machine, MQTT topic handling, ringtone and audio device models.
pub mod networking;
pub mod platform;
pub mod station;
pub mod text;
