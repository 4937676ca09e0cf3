//! How a station reacts to the call messages it receives over MQTT.
use vstd::prelude::*;

use crate::station::act::call::call_handler::{
    AudioView, CallHandler, CallHandlerView, CallState, CallStep, CallStepView, InternalCall, device_topic,
    idle_handler, no_step, spec_accept_call, spec_call_accepted, spec_call_ended, spec_cancel_ringing_if_matching,
    spec_end_call, spec_incoming_call, spec_initiate_call, spec_initiate_call_all, broadcast_topic,
};
use crate::station::act::call::call_mqtt_event::{CallMessage, CallMessageView, CallType, DeviceType};
use crate::station::state::devices::{DeviceManager, DeviceManagerView, find_device};

verus! {

/// The kind of device that the configuration gives for `device_id`.
pub open spec fn configured_device_type(d: DeviceManagerView, device_id: i32) -> Option<DeviceType> {
    if find_device(d.devices, device_id) is Some {
        Some(DeviceType::Device)
    } else {
        None
    }
}

/// The reaction of a station at `location_id` to a received call message.
pub open spec fn spec_handle_event(
    v: CallHandlerView,
    d: DeviceManagerView,
    event: CallMessageView,
) -> (CallHandlerView, CallStepView) {
    let location_id = d.location_id;
    match event {
        CallMessageView::Started { caller_id, caller_ip, call_type, caller_device_type } => {
            if caller_id == location_id {
                (v, no_step())
            } else if call_type matches CallType::Direct { callee_id } && callee_id != location_id {
                (v, no_step())
            } else if configured_device_type(d, caller_id) != Some(caller_device_type) {
                (v, no_step())
            } else {
                spec_incoming_call(v, caller_id, caller_ip, call_type, caller_device_type)
            }
        },
        CallMessageView::Accepted { caller_id, callee_id, callee_ip } => {
            if caller_id == location_id {
                spec_call_accepted(v, caller_id, callee_id, callee_ip)
            } else if callee_id == location_id {
                (v, no_step())
            } else {
                spec_cancel_ringing_if_matching(v, caller_id)
            }
        },
        CallMessageView::Ended { caller_id, callee_id, sender_ip } => {
            let callee = match callee_id {
                Some(id) => id,
                None => -1i32,
            };
            if caller_id == location_id && callee == location_id {
                (v, no_step())
            } else {
                spec_call_ended(v, caller_id, callee_id)
            }
        },
    }
}

/// Applies a received call message to the call handler of this station.
pub fn handle_event(call_handler: &mut CallHandler, device_manager: &DeviceManager, event: CallMessage) -> (r:
    CallStep)
    ensures
        (final(call_handler)@, r@) == spec_handle_event(old(call_handler)@, device_manager@, event@),
{
    let location_id = device_manager.get_location_id();
    match event {
        CallMessage::Started { caller_id, caller_ip, call_type, caller_device_type } => {
            // Ignore the echo of this station's own call.
            if caller_id == location_id {
                return ignored();
            }
            // A direct call must target this station.
            if let CallType::Direct { callee_id } = call_type {
                if callee_id != location_id {
                    return ignored();
                }
            }
            // The caller's kind must match the configuration.
            let config_device_type = device_manager.get_device_type(caller_id);
            let matches_config = match config_device_type {
                Some(t) => t == caller_device_type,
                None => false,
            };
            if !matches_config {
                return ignored();
            }
            call_handler.incoming_call(caller_id, caller_ip.as_str(), call_type, caller_device_type)
        },
        CallMessage::Accepted { caller_id, callee_id, callee_ip } => {
            if caller_id == location_id {
                call_handler.call_accepted(caller_id, callee_id, callee_ip.as_str())
            } else if callee_id == location_id {
                // Accepted here: the echo of our own answer.
                ignored()
            } else {
                // Another station took a group call.
                call_handler.cancel_ringing_if_matching(caller_id)
            }
        },
        CallMessage::Ended { caller_id, callee_id, sender_ip } => {
            let callee = match callee_id {
                Some(id) => id,
                None => -1,
            };
            if caller_id == location_id && callee == location_id {
                return ignored();
            }
            call_handler.call_ended(caller_id, callee_id, sender_ip.as_str())
        },
    }
}

fn ignored() -> (r: CallStep)
    ensures
        r@ == no_step(),
{
    CallStep {
        ui_call_state: None,
        publish: None,
        audio: crate::station::act::call::call_handler::AudioAction::Unchanged,
    }
}

/// A station ignores the echo of its own calls and direct calls meant for
/// other stations.
pub proof fn lemma_started_not_for_us_ignored(v: CallHandlerView, d: DeviceManagerView, event: CallMessageView)
    requires
        event matches CallMessageView::Started { caller_id, call_type, .. } && (caller_id
            == d.location_id || (call_type matches CallType::Direct { callee_id }
            && callee_id != d.location_id)),
    ensures
        spec_handle_event(v, d, event) == (v, no_step()),
{
}

/// A call from a configured station to this one rings here and starts audio
/// towards the caller.
pub proof fn lemma_started_for_us_rings(v: CallHandlerView, d: DeviceManagerView, caller_id: i32, caller_ip: Seq<char>)
    requires
        caller_id != d.location_id,
        find_device(d.devices, caller_id) is Some,
    ensures
        spec_handle_event(
            v,
            d,
            CallMessageView::Started {
                caller_id,
                caller_ip,
                call_type: CallType::Direct { callee_id: d.location_id },
                caller_device_type: DeviceType::Device,
            },
        ) == spec_incoming_call(v, caller_id, caller_ip, CallType::Direct { callee_id: d.location_id }, DeviceType::Device),
{
}

/// The message that a step publishes.
pub open spec fn published(step: CallStepView) -> CallMessageView {
    match step.publish {
        Some((_, message)) => message,
        None => arbitrary(),
    }
}

/// The subtopic that a step publishes on.
pub open spec fn published_topic(step: CallStepView) -> Seq<char> {
    match step.publish {
        Some((topic, _)) => topic,
        None => Seq::empty(),
    }
}

/// A direct call between two stations, end to end: station `a` calls station
/// `b`; `b` rings and streams to `a`; `b` takes the call, which connects `a`
/// and makes it stream to `b`; when `a` hangs up, `b` is idle again and stops
/// its audio. Each station acts on the messages of the other as published.
pub proof fn lemma_direct_call_round_trip(
    va: CallHandlerView,
    vb: CallHandlerView,
    da: DeviceManagerView,
    db: DeviceManagerView,
    ip_a: Seq<char>,
    ip_b: Seq<char>,
)
    requires
        da.location_id != db.location_id,
        da.location_id != -1,
        db.location_id != -1,
        find_device(db.devices, da.location_id) is Some,
    ensures
        ({
            let a = da.location_id;
            let b = db.location_id;
            let (va1, call) = spec_initiate_call(va, b, a, ip_a);
            let (vb1, ring) = spec_handle_event(vb, db, published(call));
            let (vb2, accept) = spec_accept_call(vb1, b, ip_b);
            let (va2, connect) = spec_handle_event(va1, da, published(accept));
            let (va3, end) = spec_end_call(va2, a, ip_a);
            let (vb3, stop) = spec_handle_event(vb2, db, published(end));
            &&& published_topic(call) == device_topic(b)
            &&& vb1.call_state == CallState::InternalCall(InternalCall::Ringing)
            &&& vb1.call_device_id == a
            &&& ring.audio == AudioView::Start(ip_a)
            &&& published_topic(accept) == device_topic(a)
            &&& va2.call_state == CallState::InternalCall(InternalCall::Connected)
            &&& va2.call_device_id == b
            &&& connect.audio == AudioView::Start(ip_b)
            &&& published_topic(end) == device_topic(b)
            &&& vb3 == idle_handler()
            &&& stop.audio == AudioView::Pause
        }),
{
}

/// The same call, hung up by the callee: when `b` hangs up, `a` is idle again
/// and stops its audio.
pub proof fn lemma_callee_hang_up_reaches_caller(
    va: CallHandlerView,
    vb: CallHandlerView,
    da: DeviceManagerView,
    db: DeviceManagerView,
    ip_a: Seq<char>,
    ip_b: Seq<char>,
)
    requires
        da.location_id != db.location_id,
        da.location_id != -1,
        db.location_id != -1,
        find_device(db.devices, da.location_id) is Some,
    ensures
        ({
            let a = da.location_id;
            let b = db.location_id;
            let (va1, call) = spec_initiate_call(va, b, a, ip_a);
            let (vb1, ring) = spec_handle_event(vb, db, published(call));
            let (vb2, accept) = spec_accept_call(vb1, b, ip_b);
            let (va2, connect) = spec_handle_event(va1, da, published(accept));
            let (vb3, end) = spec_end_call(vb2, b, ip_b);
            let (va3, stop) = spec_handle_event(va2, da, published(end));
            &&& published_topic(end) == device_topic(a)
            &&& va3 == idle_handler()
            &&& stop.audio == AudioView::Pause
        }),
{
}

/// A call to everyone, taken by one station: station `a` calls everyone;
/// stations `b` and `c` both ring; `b` takes the call, which connects `a` to
/// `b`, while `c` stops ringing and its audio.
pub proof fn lemma_group_call_taken_by_one(
    va: CallHandlerView,
    vb: CallHandlerView,
    vc: CallHandlerView,
    da: DeviceManagerView,
    db: DeviceManagerView,
    dc: DeviceManagerView,
    ip_a: Seq<char>,
    ip_b: Seq<char>,
)
    requires
        da.location_id != db.location_id,
        da.location_id != dc.location_id,
        db.location_id != dc.location_id,
        find_device(db.devices, da.location_id) is Some,
        find_device(dc.devices, da.location_id) is Some,
    ensures
        ({
            let a = da.location_id;
            let b = db.location_id;
            let (va1, call) = spec_initiate_call_all(va, a, ip_a);
            let (vb1, ring_b) = spec_handle_event(vb, db, published(call));
            let (vc1, ring_c) = spec_handle_event(vc, dc, published(call));
            let (vb2, accept) = spec_accept_call(vb1, b, ip_b);
            let (va2, connect) = spec_handle_event(va1, da, published(accept));
            let (vc2, stop) = spec_handle_event(vc1, dc, published(accept));
            &&& published_topic(call) == broadcast_topic()
            &&& vb1.call_state == CallState::InternalCall(InternalCall::Ringing)
            &&& vc1.call_state == CallState::InternalCall(InternalCall::Ringing)
            &&& published_topic(accept) == broadcast_topic()
            &&& va2.call_state == CallState::InternalCall(InternalCall::Connected)
            &&& va2.call_device_id == b
            &&& connect.audio == AudioView::Start(ip_b)
            &&& vc2 == idle_handler()
            &&& stop.audio == AudioView::Pause
        }),
{
}

/// A call to everyone, taken by one station and hung up by it: station `a`
/// calls everyone; `b` takes the call, which connects `a` to `b`; when `b`
/// hangs up, `a` is idle again and stops its audio.
pub proof fn lemma_group_call_callee_hangs_up(
    va: CallHandlerView,
    vb: CallHandlerView,
    da: DeviceManagerView,
    db: DeviceManagerView,
    ip_a: Seq<char>,
    ip_b: Seq<char>,
)
    requires
        da.location_id != db.location_id,
        da.location_id != -1,
        db.location_id != -1,
        find_device(db.devices, da.location_id) is Some,
    ensures
        ({
            let a = da.location_id;
            let b = db.location_id;
            let (va1, call) = spec_initiate_call_all(va, a, ip_a);
            let (vb1, ring) = spec_handle_event(vb, db, published(call));
            let (vb2, accept) = spec_accept_call(vb1, b, ip_b);
            let (va2, connect) = spec_handle_event(va1, da, published(accept));
            let (vb3, end) = spec_end_call(vb2, b, ip_b);
            let (va3, stop) = spec_handle_event(va2, da, published(end));
            &&& va2.call_state == CallState::InternalCall(InternalCall::Connected)
            &&& va2.call_device_id == b
            &&& published_topic(end) == broadcast_topic()
            &&& va3 == idle_handler()
            &&& stop.ui == Some("IDLE"@)
            &&& stop.audio == AudioView::Pause
        }),
{
}

} // verus!
