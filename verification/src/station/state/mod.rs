pub mod devices;
pub mod ringtone;
