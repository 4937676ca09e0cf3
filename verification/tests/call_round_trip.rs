use synapsed::station::act::call::call_handler::{AudioAction, CallHandler, CallStep};
use synapsed::station::act::call::call_mqtt_event::CallMessage;
use synapsed::station::act::call::call_mqtt_event_handler::handle_event;
use synapsed::station::state::devices::{DeviceManager, InternalSettingsCache};

fn station(location_id: i32) -> DeviceManager {
    DeviceManager::new(
        None,
        Some(InternalSettingsCache { location_id, pref1_call_id: -1, pref2_call_id: -1, pref3_call_id: -1 }),
    )
}

fn sent(step: &CallStep) -> (String, CallMessage) {
    let p = step.publish.as_ref().expect("a message");
    (p.subtopic.clone(), p.message.clone())
}

fn audio_start(step: &CallStep) -> Option<String> {
    match &step.audio {
        AudioAction::Start(ip) => Some(ip.clone()),
        _ => None,
    }
}

#[test]
fn direct_call_round_trip() {
    let (da, db) = (station(1), station(2));
    let (mut a, mut b) = (CallHandler::new(), CallHandler::new());

    let call = a.initiate_call(2, 1, "10.0.0.1");
    let (topic, msg) = sent(&call);
    assert_eq!(topic, "call/device/2");

    let ring = handle_event(&mut b, &db, msg);
    assert_eq!(b.decide_ui_call_state(), "RINGING");
    assert_eq!(b.get_call_device_id(), 1);
    assert_eq!(audio_start(&ring), Some("10.0.0.1".to_string()));

    let accept = b.accept_call(2, "10.0.0.2");
    let (topic, msg) = sent(&accept);
    assert_eq!(topic, "call/device/1");

    let connect = handle_event(&mut a, &da, msg);
    assert_eq!(a.decide_ui_call_state(), "CONNECTED");
    assert_eq!(a.get_call_device_id(), 2);
    assert_eq!(audio_start(&connect), Some("10.0.0.2".to_string()));

    let end = a.end_call(1, "10.0.0.1");
    let (topic, msg) = sent(&end);
    assert_eq!(topic, "call/device/2");
    assert!(matches!(a.end_call_published(), AudioAction::Pause));

    let stop = handle_event(&mut b, &db, msg);
    assert_eq!(b.decide_ui_call_state(), "IDLE");
    assert_eq!(b.get_call_device_id(), -1);
    assert!(matches!(stop.audio, AudioAction::Pause));
}

#[test]
fn callee_hang_up_reaches_caller() {
    let (da, db) = (station(1), station(2));
    let (mut a, mut b) = (CallHandler::new(), CallHandler::new());
    let (_, msg) = sent(&a.initiate_call(2, 1, "10.0.0.1"));
    handle_event(&mut b, &db, msg);
    let (_, msg) = sent(&b.accept_call(2, "10.0.0.2"));
    handle_event(&mut a, &da, msg);

    let end = b.end_call(2, "10.0.0.2");
    let (topic, msg) = sent(&end);
    assert_eq!(topic, "call/device/1");
    let stop = handle_event(&mut a, &da, msg);
    assert_eq!(a.decide_ui_call_state(), "IDLE");
    assert!(matches!(stop.audio, AudioAction::Pause));
}

#[test]
fn group_call_taken_by_one() {
    let (da, db, dc) = (station(1), station(2), station(3));
    let (mut a, mut b, mut c) = (CallHandler::new(), CallHandler::new(), CallHandler::new());

    let call = a.initiate_call_all(1, "10.0.0.1");
    let (topic, msg) = sent(&call);
    assert_eq!(topic, "broadcast");
    handle_event(&mut b, &db, msg.clone());
    handle_event(&mut c, &dc, msg);
    assert_eq!(b.decide_ui_call_state(), "RINGING");
    assert_eq!(c.decide_ui_call_state(), "RINGING");

    let accept = b.accept_call(2, "10.0.0.2");
    let (topic, msg) = sent(&accept);
    assert_eq!(topic, "broadcast");
    let connect = handle_event(&mut a, &da, msg.clone());
    assert_eq!(a.decide_ui_call_state(), "CONNECTED");
    assert_eq!(a.get_call_device_id(), 2);
    assert_eq!(audio_start(&connect), Some("10.0.0.2".to_string()));

    let stop = handle_event(&mut c, &dc, msg);
    assert_eq!(c.decide_ui_call_state(), "IDLE");
    assert!(matches!(stop.audio, AudioAction::Pause));
}
