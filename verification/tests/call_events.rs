use synapsed::station::act::call::call_handler::{AudioAction, CallHandler};
use synapsed::station::act::call::call_mqtt_event::{CallMessage, CallType, DeviceType};
use synapsed::station::act::call::call_mqtt_event_handler::handle_event;
use synapsed::station::state::devices::DeviceManager;

fn started(caller_id: i32, call_type: CallType, device_type: DeviceType) -> CallMessage {
    CallMessage::Started {
        caller_id,
        caller_ip: format!("10.0.0.{}", caller_id),
        call_type,
        caller_device_type: device_type,
    }
}

#[test]
fn own_call_echo_is_ignored() {
    let dm = DeviceManager::new(None, None);
    let mut h = CallHandler::new();
    let step = handle_event(&mut h, &dm, started(1, CallType::Group, DeviceType::Device));
    assert!(step.ui_call_state.is_none());
    assert_eq!(h.decide_ui_call_state(), "IDLE");
}

#[test]
fn direct_call_for_another_station_is_ignored() {
    let dm = DeviceManager::new(None, None);
    let mut h = CallHandler::new();
    let step = handle_event(&mut h, &dm, started(2, CallType::Direct { callee_id: 3 }, DeviceType::Device));
    assert!(step.ui_call_state.is_none());
}

#[test]
fn caller_kind_must_match_configuration() {
    let dm = DeviceManager::new(None, None);
    let mut h = CallHandler::new();
    let step = handle_event(&mut h, &dm, started(2, CallType::Group, DeviceType::DoorDevice));
    assert!(step.ui_call_state.is_none());
    let step = handle_event(&mut h, &dm, started(9, CallType::Group, DeviceType::Device));
    assert!(step.ui_call_state.is_none());
}

#[test]
fn direct_call_for_us_rings() {
    let dm = DeviceManager::new(None, None);
    let mut h = CallHandler::new();
    let step = handle_event(&mut h, &dm, started(2, CallType::Direct { callee_id: 1 }, DeviceType::Device));
    assert_eq!(step.ui_call_state, Some("RINGING"));
    assert!(matches!(step.audio, AudioAction::Start(ref ip) if ip == "10.0.0.2"));
    assert_eq!(h.get_call_device_id(), 2);
}

#[test]
fn accepted_messages() {
    let dm = DeviceManager::new(None, None);
    let mut h = CallHandler::new();
    h.initiate_call(3, 1, "10.0.0.1");
    // Our own answer echoed back.
    let echo = CallMessage::Accepted { caller_id: 3, callee_id: 1, callee_ip: "10.0.0.1".to_string() };
    assert!(handle_event(&mut h, &dm, echo).ui_call_state.is_none());
    // The callee took our call.
    let taken = CallMessage::Accepted { caller_id: 1, callee_id: 3, callee_ip: "10.0.0.3".to_string() };
    let step = handle_event(&mut h, &dm, taken);
    assert_eq!(step.ui_call_state, Some("CONNECTED"));

    // A group call answered elsewhere stops our ringing.
    let mut h = CallHandler::new();
    handle_event(&mut h, &dm, started(2, CallType::Group, DeviceType::Device));
    let elsewhere = CallMessage::Accepted { caller_id: 2, callee_id: 3, callee_ip: "10.0.0.3".to_string() };
    let step = handle_event(&mut h, &dm, elsewhere);
    assert_eq!(step.ui_call_state, Some("IDLE"));
    assert_eq!(h.get_call_device_id(), -1);
}

#[test]
fn ended_messages() {
    let dm = DeviceManager::new(None, None);
    let mut h = CallHandler::new();
    handle_event(&mut h, &dm, started(2, CallType::Direct { callee_id: 1 }, DeviceType::Device));
    let ours = CallMessage::Ended { caller_id: 1, callee_id: Some(1), sender_ip: String::new() };
    assert!(handle_event(&mut h, &dm, ours).ui_call_state.is_none());
    let ended = CallMessage::Ended { caller_id: 2, callee_id: Some(1), sender_ip: "10.0.0.2".to_string() };
    let step = handle_event(&mut h, &dm, ended);
    assert_eq!(step.ui_call_state, Some("IDLE"));
    assert!(matches!(step.audio, AudioAction::Pause));
}
