use rumqttc::{Client, MqttOptions};
use synapsed::networking::mqtt::mqtt_handler::{MqttError, MqttHandler};
use synapsed::station::act::audio::audio_devices_handler::{AudioDevicesError, AudioDevicesHandler};
use synapsed::station::act::call::call_handler::CallHandler;
use synapsed::station::act::call::call_mqtt_event::{CallType, DeviceType};
use synapsed::station::act::commands_handler::CommandsHandler;
use synapsed::station::api::audio_settings_service::AudioSettingsService;
use synapsed::station::api::display_settings_server::DisplaySettingsServer;
use synapsed::station::api::grpc_call_server::CallApi;
use synapsed::station::api::grpc_server::CallIcons;
use synapsed::station::api::pref_call_ids_service::PrefCallIdsService;
use synapsed::station::api::pref_icon_paths_service::PrefIconPathsService;
use synapsed::station::api::pref_model_service::PrefModelService;
use synapsed::station::api::pref_short_names_service::PrefShortNamesService;
use synapsed::station::api::ringtone_settings_service::RingtoneSettingsService;
use synapsed::station::api::system_settings_server::SystemSettingsServer;
use synapsed::station::display::brightness::{DisplayError, DisplayManager};
use synapsed::station::state::devices::DeviceManager;
use synapsed::station::state::ringtone::{AudioConfig, RingtoneError, RingtoneManager};

const STATUS: &str = "Audio
 \u{251c}\u{2500} Sinks:
 \u{2502}  *   48. Speaker        [vol: 0.40]
 \u{2502}      50. HDMI Output    [vol: 1.00]
 \u{251c}\u{2500} Sources:
 \u{2502}      49. Microphone     [vol: 1.00]
 \u{251c}\u{2500} Filters:
";

#[test]
fn audio_settings_lists_devices_and_defaults() {
    let mut s = AudioSettingsService::new(AudioDevicesHandler::new("").unwrap());
    let mut sinks: Vec<(i32, String)> = s.get_sink_model(STATUS).unwrap().into_iter().map(|d| (d.id, d.name)).collect();
    sinks.sort();
    assert_eq!(sinks, vec![(48, "Speaker".to_string()), (50, "HDMI Output".to_string())]);
    let sources: Vec<(i32, String)> = s.get_source_model(STATUS).unwrap().into_iter().map(|d| (d.id, d.name)).collect();
    assert_eq!(sources, vec![(49, "Microphone".to_string())]);
    assert_eq!(s.get_default_sink_id(STATUS), Ok(48));
    assert_eq!(s.get_default_source_id(STATUS), Ok(-1));
    let bad = "Audio\n \u{251c}\u{2500} Sinks:\n    3000000000. Too big\n";
    assert!(matches!(s.get_sink_model(bad), Err(AudioDevicesError::InvalidId)));
    assert_eq!(s.get_default_sink_id(bad), Err(AudioDevicesError::InvalidId));
}

#[test]
fn display_server_forwards_to_the_settings() {
    let mut s = DisplaySettingsServer::new(DisplayManager::new(None));
    assert_eq!(s.get_brightness(), 100);
    assert_eq!(s.get_display_time(), 60);
    assert_eq!(s.set_brightness(150), Err(DisplayError::BrightnessOutOfRange));
    assert_eq!(s.set_brightness(40), Ok(()));
    s.set_display_time(20);
    assert_eq!(s.get_brightness(), 40);
    assert_eq!(s.get_display_time(), 20);
    assert_eq!(s.display_manager().settings().brightness, 40);
}

#[test]
fn ringtone_service_lists_and_chooses() {
    let dir = Some(vec!["b.mp3".to_string(), "a.mp3".to_string()]);
    let (m, _) = RingtoneManager::new(AudioConfig { ringtone_path: None }, "/r", dir.clone()).unwrap();
    let mut s = RingtoneSettingsService::new(m);
    let model: Vec<(i32, String, String)> =
        s.get_ringtone_model().into_iter().map(|d| (d.id, d.formatted_name, d.path)).collect();
    assert_eq!(model.len(), 3);
    assert_eq!((model[0].0, model[0].1.as_str(), model[0].2.as_str()), (-1, "Unassigned", ""));
    assert_eq!((model[1].1.as_str(), model[1].2.as_str()), ("A", "/r/a.mp3"));
    assert_eq!((model[2].1.as_str(), model[2].2.as_str()), ("B", "/r/b.mp3"));
    assert_eq!(s.get_ringtone_id(), -1);
    assert_eq!(s.set_ringtone_id(model[2].0, dir.clone()), Ok(()));
    assert_eq!(s.get_ringtone_id(), model[2].0);
    assert_eq!(s.ringtone_manager().get_ringtone_path(), Some("/r/b.mp3"));
    let unknown = if model[1].0 == 5 || model[2].0 == 5 { 6 } else { 5 };
    assert_eq!(s.set_ringtone_id(unknown, dir), Err(RingtoneError::UnknownRingtoneId));
    assert_eq!(s.get_ringtone_id(), model[2].0);
}

#[test]
fn pref_services_read_the_buttons() {
    let mut m = DeviceManager::new(None, None);
    let ids = PrefCallIdsService::new();
    assert_eq!(ids.get_pref_call_id(&m, 1), 2);
    assert_eq!(ids.get_pref_call_id(&m, 3), -1);
    ids.set_pref_call_id(&mut m, 3, 2);
    assert_eq!(ids.get_pref_call_id(&m, 3), 2);
    assert_eq!(ids.get_pref_call_id(&m, 1), -1);

    let names = PrefShortNamesService::new();
    assert_eq!(names.get_pref1_short_name(&m), "");
    assert_eq!(names.get_pref2_short_name(&m), "3");
    assert_eq!(names.get_pref3_short_name(&m), "2");
    let icons = CallIcons::new();
    assert_eq!(icons.get_pref1_short_name(&m), "");
    assert_eq!(icons.get_pref2_short_name(&m), "3");
    assert_eq!(icons.get_pref3_short_name(&m), "2");

    let paths = PrefIconPathsService::new();
    assert_eq!(paths.get_pref1_icon_path(&m), "");
    assert_eq!(paths.get_pref2_icon_path(&m), "qrc:/qt/qml/UiBridge/assets/icons/button/call.svg");
    assert_eq!(paths.get_pref3_icon_path(&m), "qrc:/qt/qml/UiBridge/assets/icons/button/call.svg");

    let model: Vec<(String, i32)> =
        PrefModelService::new().get_pref_model(&m).into_iter().map(|d| (d.device_name, d.device_id)).collect();
    assert_eq!(
        model,
        vec![("Unassigned".to_string(), -1), ("2nd Floor".to_string(), 2), ("3rd Floor".to_string(), 3)]
    );
}

#[test]
fn call_label_names_the_other_station() {
    let m = DeviceManager::new(None, None);
    let api = CallApi::new();
    let mut h = CallHandler::new();
    assert_eq!(api.get_call_label(&h, &m), "");
    h.initiate_call(2, 1, "10.0.0.1");
    assert_eq!(api.get_call_label(&h, &m), "2nd Floor ...");
    let mut h = CallHandler::new();
    h.incoming_call(9, "10.0.0.9", CallType::Direct { callee_id: 1 }, DeviceType::Device);
    assert_eq!(api.get_call_label(&h, &m), "Unknown... is calling");
}

#[test]
fn moving_the_station_resubscribes_and_clears_its_button() {
    let (client, _connection) = Client::new(MqttOptions::new("api-test", "localhost", 1883), 10);
    let mut mqtt = MqttHandler::new(client, "");
    mqtt.subscribe("call/1".to_string()).unwrap();
    let mut m = DeviceManager::new(None, None);
    let server = SystemSettingsServer::new();
    assert_eq!(server.set_location_id(&mut m, &mut mqtt, 2), Ok(()));
    assert_eq!(m.get_location_id(), 2);
    assert_eq!(m.get_pref_call_id(1), -1);
    assert_eq!(m.get_pref_call_id(2), 3);
    assert_eq!(mqtt.get_subtopics(), vec!["call/2".to_string()]);
}

#[test]
fn open_door_publishes_or_reports_failure() {
    let commands = CommandsHandler::new();
    let (client, connection) = Client::new(MqttOptions::new("door-test", "localhost", 1883), 10);
    let mqtt = MqttHandler::new(client, "");
    assert_eq!(commands.open_door(&mqtt, 4, "{\"action\":\"open_door\"}".to_string()), Ok(()));
    drop(connection);
    assert_eq!(commands.open_door(&mqtt, 4, "{}".to_string()), Err(MqttError::RequestFailed));
}
