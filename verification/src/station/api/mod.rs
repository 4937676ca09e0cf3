pub mod audio_settings_service;
pub mod display_settings_server;
pub mod grpc_call_server;
pub mod grpc_server;
pub mod pref_call_ids_service;
pub mod pref_icon_paths_service;
pub mod pref_model_service;
pub mod pref_short_names_service;
pub mod ringtone_settings_service;
pub mod system_settings_server;
