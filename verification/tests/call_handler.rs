use synapsed::station::act::call::call_handler::{device_subtopic, AudioAction, CallHandler, CallStep};
use synapsed::station::act::call::call_mqtt_event::{CallMessage, CallType, DeviceType};

fn published(step: &CallStep) -> (String, CallMessage) {
    let p = step.publish.as_ref().expect("a message to publish");
    (p.subtopic.clone(), p.message.clone())
}

fn starts(step: &CallStep) -> Option<String> {
    match &step.audio {
        AudioAction::Start(ip) => Some(ip.clone()),
        _ => None,
    }
}

fn pauses(step: &CallStep) -> bool {
    matches!(step.audio, AudioAction::Pause)
}

#[test]
fn new_handler_is_idle() {
    let h = CallHandler::new();
    assert_eq!(h.get_call_device_id(), -1);
    assert_eq!(h.decide_ui_call_state(), "IDLE");
    assert_eq!(h.get_call_label("1st Floor"), "");
}

#[test]
fn device_subtopics() {
    assert_eq!(device_subtopic(3), "call/device/3");
    assert_eq!(device_subtopic(-1), "call/device/-1");
    assert_eq!(device_subtopic(i32::MIN), "call/device/-2147483648");
    assert_eq!(device_subtopic(2147483647), "call/device/2147483647");
}

#[test]
fn direct_call_then_hang_up() {
    let mut h = CallHandler::new();
    let step = h.initiate_call(3, 1, "10.0.0.1");
    assert_eq!(step.ui_call_state, Some("CALLING"));
    assert_eq!(
        published(&step),
        (
            "call/device/3".to_string(),
            CallMessage::Started {
                caller_id: 1,
                caller_ip: "10.0.0.1".to_string(),
                call_type: CallType::Direct { callee_id: 3 },
                caller_device_type: DeviceType::Device,
            }
        )
    );
    assert!(matches!(step.audio, AudioAction::Unchanged));
    assert_eq!(h.get_call_device_id(), 3);
    assert_eq!(h.get_call_label("3rd Floor"), "3rd Floor ...");

    let step = h.end_call(1, "10.0.0.1");
    assert_eq!(step.ui_call_state, Some("IDLE"));
    assert_eq!(
        published(&step),
        (
            "call/device/3".to_string(),
            CallMessage::Ended { caller_id: 1, callee_id: Some(3), sender_ip: "10.0.0.1".to_string() }
        )
    );
    // Until the message went out the call is remembered.
    assert_eq!(h.get_call_device_id(), 3);
    assert!(matches!(h.end_call_published(), AudioAction::Pause));
    assert_eq!(h.get_call_device_id(), -1);
    assert_eq!(h.decide_ui_call_state(), "IDLE");
}

#[test]
fn group_call_then_hang_up() {
    let mut h = CallHandler::new();
    let step = h.initiate_call_all(1, "10.0.0.1");
    assert_eq!(step.ui_call_state, Some("CALLING"));
    assert_eq!(published(&step).0, "broadcast");
    assert_eq!(h.get_call_label("x"), "Calling everyone ...");
    let step = h.end_call(1, "10.0.0.1");
    assert_eq!(
        published(&step),
        ("broadcast".to_string(), CallMessage::Ended { caller_id: 1, callee_id: None, sender_ip: "10.0.0.1".to_string() })
    );
}

#[test]
fn group_call_taken_by_another_station() {
    let mut h = CallHandler::new();
    h.initiate_call_all(1, "10.0.0.1");
    let step = h.call_accepted(1, 2, "10.0.0.2");
    assert_eq!(step.ui_call_state, Some("CONNECTED"));
    assert_eq!(starts(&step), Some("10.0.0.2".to_string()));
    assert!(step.publish.is_none());
    assert_eq!(h.get_call_device_id(), 2);
    assert_eq!(h.get_call_label("2nd Floor"), "2nd Floor");
    // Ending a connected group call goes to everyone and names the callee.
    let step = h.end_call(1, "10.0.0.1");
    assert_eq!(
        published(&step),
        ("broadcast".to_string(), CallMessage::Ended { caller_id: 1, callee_id: Some(2), sender_ip: "10.0.0.1".to_string() })
    );
}

#[test]
fn incoming_call_accept_and_end() {
    let mut h = CallHandler::new();
    let step = h.incoming_call(2, "10.0.0.2", CallType::Direct { callee_id: 1 }, DeviceType::DoorDevice);
    assert_eq!(step.ui_call_state, Some("RINGING"));
    assert_eq!(starts(&step), Some("10.0.0.2".to_string()));
    assert_eq!(h.get_call_label("Door"), "Door is calling");

    let step = h.accept_call(1, "10.0.0.1");
    assert_eq!(step.ui_call_state, Some("CONNECTED"));
    assert_eq!(
        published(&step),
        (
            "call/device/2".to_string(),
            CallMessage::Accepted { caller_id: 2, callee_id: 1, callee_ip: "10.0.0.1".to_string() }
        )
    );

    let step = h.end_call(1, "10.0.0.1");
    assert_eq!(
        published(&step),
        ("call/device/2".to_string(), CallMessage::Ended { caller_id: 2, callee_id: Some(1), sender_ip: "10.0.0.1".to_string() })
    );
}

#[test]
fn ringing_stops_when_someone_else_answers() {
    let mut h = CallHandler::new();
    h.incoming_call(2, "10.0.0.2", CallType::Group, DeviceType::Device);
    let other = h.cancel_ringing_if_matching(5);
    assert!(other.ui_call_state.is_none());
    assert_eq!(h.get_call_device_id(), 2);
    let step = h.cancel_ringing_if_matching(2);
    assert_eq!(step.ui_call_state, Some("IDLE"));
    assert!(pauses(&step));
    assert_eq!(h.get_call_device_id(), -1);
}

#[test]
fn call_ended_only_for_participants() {
    let mut h = CallHandler::new();
    h.initiate_call(3, 1, "10.0.0.1");
    let step = h.call_ended(4, Some(5), "10.0.0.4");
    assert!(step.ui_call_state.is_none());
    assert!(matches!(step.audio, AudioAction::Unchanged));
    assert_eq!(h.get_call_device_id(), 3);
    let step = h.call_ended(1, Some(3), "10.0.0.3");
    assert_eq!(step.ui_call_state, Some("IDLE"));
    assert!(pauses(&step));
    assert_eq!(h.get_call_device_id(), -1);
    // With no call, nothing ends.
    let step = h.call_ended(-1, None, "");
    assert!(step.ui_call_state.is_none());
}

#[test]
fn accepted_for_another_call_is_ignored() {
    let mut h = CallHandler::new();
    h.initiate_call(3, 1, "10.0.0.1");
    let step = h.call_accepted(7, 8, "10.0.0.8");
    assert!(step.ui_call_state.is_none());
    assert_eq!(h.decide_ui_call_state(), "CALLING");
    let step = h.call_accepted(1, 3, "10.0.0.3");
    assert_eq!(step.ui_call_state, Some("CONNECTED"));
    assert_eq!(starts(&step), Some("10.0.0.3".to_string()));
}
