pub mod audio_devices_handler;
pub mod audio;
