//! The call messages that stations exchange over MQTT.
use vstd::prelude::*;

verus! {

/// Who a call is meant for.
#[derive(Clone, Copy, Debug, PartialEq, Eq, Structural)]
pub enum CallType {
    /// One target device.
    Direct { callee_id: i32 },
    /// Every device is a target.
    Group,
}

/// The kind of station that places a call.
#[derive(Clone, Copy, Debug, PartialEq, Eq, Structural)]
pub enum DeviceType {
    /// A station with a display.
    Device,
    /// A door station with door opener and buzzer.
    DoorDevice,
}

/// A message of the call protocol.
#[allow(inconsistent_fields)]
#[derive(Clone, Debug, PartialEq)]
pub enum CallMessage {
    /// A station starts a call.
    Started { caller_id: i32, caller_ip: String, call_type: CallType, caller_device_type: DeviceType },
    /// The callee took the call.
    Accepted { caller_id: i32, callee_id: i32, callee_ip: String },
    /// A participant hung up; `callee_id` is absent for an unanswered group call.
    Ended { caller_id: i32, callee_id: Option<i32>, sender_ip: String },
}

/// A call message as plain values.
#[allow(inconsistent_fields)]
pub enum CallMessageView {
    Started { caller_id: i32, caller_ip: Seq<char>, call_type: CallType, caller_device_type: DeviceType },
    Accepted { caller_id: i32, callee_id: i32, callee_ip: Seq<char> },
    Ended { caller_id: i32, callee_id: Option<i32>, sender_ip: Seq<char> },
}

impl View for CallMessage {
    type V = CallMessageView;

    open spec fn view(&self) -> CallMessageView {
        match self {
            CallMessage::Started { caller_id, caller_ip, call_type, caller_device_type } =>
                CallMessageView::Started {
                caller_id: *caller_id,
                caller_ip: caller_ip@,
                call_type: *call_type,
                caller_device_type: *caller_device_type,
            },
            CallMessage::Accepted { caller_id, callee_id, callee_ip } => CallMessageView::Accepted {
                caller_id: *caller_id,
                callee_id: *callee_id,
                callee_ip: callee_ip@,
            },
            CallMessage::Ended { caller_id, callee_id, sender_ip } => CallMessageView::Ended {
                caller_id: *caller_id,
                callee_id: *callee_id,
                sender_ip: sender_ip@,
            },
        }
    }
}

} // verus!
