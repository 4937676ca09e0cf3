//! The call state machine of a station.
//!
//! Each operation moves the state and answers with a [`CallStep`]: the call
//! state to show in the UI, the MQTT message to publish, and what the network
//! audio has to do. The caller carries the step out.
use vstd::prelude::*;
use vstd::string::StringExecFns;

use crate::station::act::call::call_mqtt_event::{CallMessage, CallMessageView, CallType, DeviceType};
use crate::text::{i32_decimal, int_decimal, string_from_chars};

verus! {

/// States of an internal call (between indoor stations).
#[derive(Clone, Copy, Debug, PartialEq, Eq, Structural)]
pub enum InternalCall {
    Ringing,
    Calling,
    Connected,
}

/// State of the call handler.
#[derive(Clone, Copy, Debug, PartialEq, Eq, Structural)]
pub enum CallState {
    Idle,
    RequestAll,
    InternalCall(InternalCall),
}

/// What the network audio has to do after a step.
pub enum AudioAction {
    /// Leave the audio as it is.
    Unchanged,
    /// Start streaming to and from the station at this address.
    Start(String),
    /// Stop streaming and forget the targets.
    Pause,
}

/// A message to publish below the station's topic prefix.
pub struct Publish {
    pub subtopic: String,
    pub message: CallMessage,
}

/// The effects of one operation of the call handler.
pub struct CallStep {
    /// The call state to send to the UI, when the state was set.
    pub ui_call_state: Option<&'static str>,
    /// The message to publish, if any.
    pub publish: Option<Publish>,
    /// The action on the network audio.
    pub audio: AudioAction,
}

pub enum AudioView {
    Unchanged,
    Start(Seq<char>),
    Pause,
}

pub struct CallStepView {
    pub ui: Option<Seq<char>>,
    pub publish: Option<(Seq<char>, CallMessageView)>,
    pub audio: AudioView,
}

impl View for AudioAction {
    type V = AudioView;

    open spec fn view(&self) -> AudioView {
        match self {
            AudioAction::Unchanged => AudioView::Unchanged,
            AudioAction::Start(ip) => AudioView::Start(ip@),
            AudioAction::Pause => AudioView::Pause,
        }
    }
}

impl View for CallStep {
    type V = CallStepView;

    open spec fn view(&self) -> CallStepView {
        CallStepView {
            ui: match self.ui_call_state {
                Some(s) => Some(s@),
                None => None,
            },
            publish: match self.publish {
                Some(p) => Some((p.subtopic@, p.message@)),
                None => None,
            },
            audio: self.audio@,
        }
    }
}

/// The call state of a station.
pub struct CallHandler {
    call_device_id: i32,
    is_caller: bool,
    call_type: Option<CallType>,
    call_state: CallState,
    caller_device_type: Option<DeviceType>,
}

/// The call handler's state as plain values.
pub struct CallHandlerView {
    /// The other station of the call; `-1` for none.
    pub call_device_id: i32,
    pub is_caller: bool,
    pub call_type: Option<CallType>,
    pub call_state: CallState,
    pub caller_device_type: Option<DeviceType>,
}

impl View for CallHandler {
    type V = CallHandlerView;

    closed spec fn view(&self) -> CallHandlerView {
        CallHandlerView {
            call_device_id: self.call_device_id,
            is_caller: self.is_caller,
            call_type: self.call_type,
            call_state: self.call_state,
            caller_device_type: self.caller_device_type,
        }
    }
}

/// The handler with no call going on.
pub open spec fn idle_handler() -> CallHandlerView {
    CallHandlerView {
        call_device_id: -1i32,
        is_caller: false,
        call_type: None,
        call_state: CallState::Idle,
        caller_device_type: None,
    }
}

/// The call state the UI shows: one of IDLE, CALLING, RINGING and CONNECTED.
pub open spec fn ui_call_state(state: CallState) -> Seq<char> {
    match state {
        CallState::Idle => "IDLE"@,
        CallState::RequestAll => "CALLING"@,
        CallState::InternalCall(InternalCall::Calling) => "CALLING"@,
        CallState::InternalCall(InternalCall::Ringing) => "RINGING"@,
        CallState::InternalCall(InternalCall::Connected) => "CONNECTED"@,
    }
}

/// The subtopic of the station with id `id`.
pub open spec fn device_topic(id: i32) -> Seq<char> {
    "call/device/"@ + int_decimal(id as int)
}

/// The subtopic that every station listens to.
pub open spec fn broadcast_topic() -> Seq<char> {
    "broadcast"@
}

pub open spec fn set_state(v: CallHandlerView, state: CallState) -> CallHandlerView {
    CallHandlerView { call_state: state, ..v }
}

pub open spec fn spec_initiate_call(v: CallHandlerView, callee_id: i32, caller_id: i32, caller_ip: Seq<
    char,
>) -> (CallHandlerView, CallStepView) {
    (
        CallHandlerView {
            call_device_id: callee_id,
            is_caller: true,
            call_type: Some(CallType::Direct { callee_id }),
            call_state: CallState::InternalCall(InternalCall::Calling),
            caller_device_type: Some(DeviceType::Device),
        },
        CallStepView {
            ui: Some("CALLING"@),
            publish: Some(
                (
                    device_topic(callee_id),
                    CallMessageView::Started {
                        caller_id,
                        caller_ip,
                        call_type: CallType::Direct { callee_id },
                        caller_device_type: DeviceType::Device,
                    },
                ),
            ),
            audio: AudioView::Unchanged,
        },
    )
}

pub open spec fn spec_initiate_call_all(v: CallHandlerView, caller_id: i32, caller_ip: Seq<char>) -> (
    CallHandlerView,
    CallStepView,
) {
    (
        CallHandlerView {
            call_device_id: -1i32,
            is_caller: true,
            call_type: Some(CallType::Group),
            call_state: CallState::RequestAll,
            caller_device_type: Some(DeviceType::Device),
        },
        CallStepView {
            ui: Some("CALLING"@),
            publish: Some(
                (
                    broadcast_topic(),
                    CallMessageView::Started {
                        caller_id,
                        caller_ip,
                        call_type: CallType::Group,
                        caller_device_type: DeviceType::Device,
                    },
                ),
            ),
            audio: AudioView::Unchanged,
        },
    )
}

/// The subtopic that answers the current call go to.
pub open spec fn reply_topic(v: CallHandlerView) -> Seq<char> {
    match v.call_type {
        Some(CallType::Group) => broadcast_topic(),
        _ => device_topic(v.call_device_id),
    }
}

pub open spec fn spec_accept_call(v: CallHandlerView, callee_id: i32, callee_ip: Seq<char>) -> (
    CallHandlerView,
    CallStepView,
) {
    let connected = CallState::InternalCall(InternalCall::Connected);
    (
        set_state(v, connected),
        CallStepView {
            ui: Some(ui_call_state(connected)),
            publish: Some(
                (
                    reply_topic(v),
                    CallMessageView::Accepted { caller_id: v.call_device_id, callee_id, callee_ip },
                ),
            ),
            audio: AudioView::Unchanged,
        },
    )
}

/// The `Ended` message that hanging up publishes, and its subtopic.
pub open spec fn end_message(v: CallHandlerView, my_location_id: i32, my_ip: Seq<char>) -> (
    Seq<char>,
    CallMessageView,
) {
    let is_request_all = v.call_state == CallState::RequestAll;
    let topic = if is_request_all || v.call_type == Some(CallType::Group) {
        broadcast_topic()
    } else {
        device_topic(v.call_device_id)
    };
    let ids: (i32, Option<i32>) = if is_request_all {
        (my_location_id, None)
    } else if v.is_caller {
        (my_location_id, if v.call_device_id != -1 { Some(v.call_device_id) } else { None })
    } else {
        (v.call_device_id, Some(my_location_id))
    };
    (topic, CallMessageView::Ended { caller_id: ids.0, callee_id: ids.1, sender_ip: my_ip })
}

pub open spec fn spec_end_call(v: CallHandlerView, my_location_id: i32, my_ip: Seq<char>) -> (
    CallHandlerView,
    CallStepView,
) {
    (
        set_state(v, CallState::Idle),
        CallStepView {
            ui: Some("IDLE"@),
            publish: Some(end_message(v, my_location_id, my_ip)),
            audio: AudioView::Unchanged,
        },
    )
}

/// The call forgotten: no other station, no type, not the caller.
pub open spec fn forget_call(v: CallHandlerView) -> CallHandlerView {
    CallHandlerView {
        call_device_id: -1i32,
        is_caller: false,
        call_type: None,
        caller_device_type: None,
        ..v
    }
}

pub open spec fn spec_incoming_call(
    v: CallHandlerView,
    caller_id: i32,
    caller_ip: Seq<char>,
    call_type: CallType,
    caller_device_type: DeviceType,
) -> (CallHandlerView, CallStepView) {
    (
        CallHandlerView {
            call_device_id: caller_id,
            is_caller: false,
            call_type: Some(call_type),
            call_state: CallState::InternalCall(InternalCall::Ringing),
            caller_device_type: Some(caller_device_type),
        },
        CallStepView { ui: Some("RINGING"@), publish: None, audio: AudioView::Start(caller_ip) },
    )
}

/// Nothing changes and nothing happens.
pub open spec fn no_step() -> CallStepView {
    CallStepView { ui: None, publish: None, audio: AudioView::Unchanged }
}

/// The call ends here: idle, forgotten, audio paused.
pub open spec fn hang_up(v: CallHandlerView) -> (CallHandlerView, CallStepView) {
    (
        forget_call(set_state(v, CallState::Idle)),
        CallStepView { ui: Some("IDLE"@), publish: None, audio: AudioView::Pause },
    )
}

pub open spec fn spec_cancel_ringing_if_matching(v: CallHandlerView, caller_id: i32) -> (
    CallHandlerView,
    CallStepView,
) {
    if v.call_state == CallState::InternalCall(InternalCall::Ringing) && v.call_device_id
        == caller_id {
        hang_up(v)
    } else {
        (v, no_step())
    }
}

pub open spec fn spec_call_accepted(
    v: CallHandlerView,
    caller_id: i32,
    callee_id: i32,
    callee_ip: Seq<char>,
) -> (CallHandlerView, CallStepView) {
    let connected = CallState::InternalCall(InternalCall::Connected);
    if v.call_state == CallState::RequestAll {
        (
            CallHandlerView {
                call_device_id: callee_id,
                call_type: Some(CallType::Group),
                call_state: connected,
                ..v
            },
            CallStepView {
                ui: Some(ui_call_state(connected)),
                publish: None,
                audio: AudioView::Start(callee_ip),
            },
        )
    } else if v.call_device_id == callee_id || v.call_device_id == caller_id {
        (
            set_state(v, connected),
            CallStepView {
                ui: Some(ui_call_state(connected)),
                publish: None,
                audio: AudioView::Start(callee_ip),
            },
        )
    } else {
        (v, no_step())
    }
}

/// The station takes part in the call between `caller_id` and `callee_id`.
pub open spec fn is_participant(v: CallHandlerView, caller_id: i32, callee_id: Option<i32>) -> bool {
    v.call_device_id != -1 && (v.call_device_id == caller_id || callee_id == Some(v.call_device_id))
}

pub open spec fn spec_call_ended(v: CallHandlerView, caller_id: i32, callee_id: Option<i32>) -> (
    CallHandlerView,
    CallStepView,
) {
    if is_participant(v, caller_id, callee_id) {
        hang_up(v)
    } else {
        (v, no_step())
    }
}

/// The text that names the current call in the UI.
pub open spec fn call_label(state: CallState, device_name: Seq<char>) -> Seq<char> {
    match state {
        CallState::Idle => Seq::empty(),
        CallState::RequestAll => "Calling everyone ..."@,
        CallState::InternalCall(InternalCall::Calling) => device_name + " ..."@,
        CallState::InternalCall(InternalCall::Ringing) => device_name + " is calling"@,
        CallState::InternalCall(InternalCall::Connected) => device_name,
    }
}

/// Hanging up and forgetting the call brings the handler back to the state it
/// started in, whatever the call was.
pub proof fn lemma_hang_up_returns_to_idle(v: CallHandlerView, my_location_id: i32, my_ip: Seq<char>)
    ensures
        forget_call(spec_end_call(v, my_location_id, my_ip).0) == idle_handler(),
        hang_up(v).0 == idle_handler(),
{
}

/// A direct call that this station placed and then ends: the `Ended` message
/// goes to the callee and names this station as caller and the callee.
pub proof fn lemma_direct_call_then_end(
    v: CallHandlerView,
    callee_id: i32,
    caller_id: i32,
    caller_ip: Seq<char>,
    my_location_id: i32,
    my_ip: Seq<char>,
)
    ensures
        end_message(spec_initiate_call(v, callee_id, caller_id, caller_ip).0, my_location_id, my_ip)
            == (
            device_topic(callee_id),
            CallMessageView::Ended {
                caller_id: my_location_id,
                callee_id: if callee_id != -1 { Some(callee_id) } else { None },
                sender_ip: my_ip,
            },
        ),
{
}

/// A call to everyone that this station places and then ends: the `Ended`
/// message is broadcast and names no callee.
pub proof fn lemma_group_call_then_end(
    v: CallHandlerView,
    caller_id: i32,
    caller_ip: Seq<char>,
    my_location_id: i32,
    my_ip: Seq<char>,
)
    ensures
        end_message(spec_initiate_call_all(v, caller_id, caller_ip).0, my_location_id, my_ip) == (
            broadcast_topic(),
            CallMessageView::Ended { caller_id: my_location_id, callee_id: None, sender_ip: my_ip },
        ),
{
}

/// A call that rang here and that this station ends: the `Ended` message names
/// the caller and this station, and goes to the caller (or to everyone for a
/// group call).
pub proof fn lemma_incoming_call_then_end(
    v: CallHandlerView,
    caller_id: i32,
    caller_ip: Seq<char>,
    call_type: CallType,
    caller_device_type: DeviceType,
    my_location_id: i32,
    my_ip: Seq<char>,
)
    ensures
        end_message(
            spec_incoming_call(v, caller_id, caller_ip, call_type, caller_device_type).0,
            my_location_id,
            my_ip,
        ) == (
            if call_type == CallType::Group {
                broadcast_topic()
            } else {
                device_topic(caller_id)
            },
            CallMessageView::Ended {
                caller_id,
                callee_id: Some(my_location_id),
                sender_ip: my_ip,
            },
        ),
{
}

/// Taking a call that rings here answers the caller with this station's id and
/// address, and shows the call as connected.
pub proof fn lemma_incoming_call_then_accept(
    v: CallHandlerView,
    caller_id: i32,
    caller_ip: Seq<char>,
    call_type: CallType,
    caller_device_type: DeviceType,
    callee_id: i32,
    callee_ip: Seq<char>,
)
    ensures
        ({
            let ringing = spec_incoming_call(v, caller_id, caller_ip, call_type, caller_device_type).0;
            let (after, step) = spec_accept_call(ringing, callee_id, callee_ip);
            &&& after.call_state == CallState::InternalCall(InternalCall::Connected)
            &&& after.call_device_id == caller_id
            &&& step.ui == Some(ui_call_state(after.call_state))
            &&& step.publish == Some(
                (
                    if call_type == CallType::Group {
                        broadcast_topic()
                    } else {
                        device_topic(caller_id)
                    },
                    CallMessageView::Accepted { caller_id, callee_id, callee_ip },
                ),
            )
        }),
{
}

/// A call that rings here and is taken by another station stops ringing:
/// the handler is idle again and the audio pauses.
pub proof fn lemma_incoming_call_then_cancel(
    v: CallHandlerView,
    caller_id: i32,
    caller_ip: Seq<char>,
    call_type: CallType,
    caller_device_type: DeviceType,
)
    ensures
        spec_cancel_ringing_if_matching(
            spec_incoming_call(v, caller_id, caller_ip, call_type, caller_device_type).0,
            caller_id,
        ) == (idle_handler(), CallStepView { ui: Some("IDLE"@), publish: None, audio: AudioView::Pause }),
{
}

/// Messages about calls that this station is not part of change nothing and
/// cause nothing.
pub proof fn lemma_foreign_messages_ignored(v: CallHandlerView, caller_id: i32, callee_id: Option<i32>)
    ensures
        !is_participant(v, caller_id, callee_id) ==> spec_call_ended(v, caller_id, callee_id) == (
            v,
            no_step(),
        ),
        !(v.call_state == CallState::InternalCall(InternalCall::Ringing) && v.call_device_id
            == caller_id) ==> spec_cancel_ringing_if_matching(v, caller_id) == (v, no_step()),
{
}

/// A station in a call with station `D` (any kind of call) hangs up when it
/// hears that the call between `D` and anyone, or between anyone and `D`,
/// ended: it is idle again, tells the UI so and pauses its audio. Every other
/// `Ended` message leaves it as it is.
pub proof fn lemma_ended_by_the_other_side(v: CallHandlerView, caller_id: i32, callee_id: Option<i32>)
    ensures
        v.call_device_id != -1 && (caller_id == v.call_device_id || callee_id == Some(v.call_device_id))
            ==> spec_call_ended(v, caller_id, callee_id) == (
            idle_handler(),
            CallStepView { ui: Some("IDLE"@), publish: None, audio: AudioView::Pause },
        ),
        !(v.call_device_id != -1 && (caller_id == v.call_device_id || callee_id == Some(v.call_device_id)))
            ==> spec_call_ended(v, caller_id, callee_id) == (v, no_step()),
{
}

/// The subtopic of the station with id `id`: `call/device/<id>`.
pub fn device_subtopic(id: i32) -> (r: String)
    ensures
        r@ == device_topic(id),
{
    let mut topic = "call/device/".to_owned();
    let digits = i32_decimal(id);
    let digits = string_from_chars(digits.as_slice());
    topic.append(digits.as_str());
    topic
}

impl CallHandler {
    /// A handler with no call going on.
    pub fn new() -> (r: Self)
        ensures
            r@ == idle_handler(),
    {
        CallHandler {
            call_device_id: -1,
            is_caller: false,
            call_type: None,
            call_state: CallState::Idle,
            caller_device_type: None,
        }
    }

    /// Sets the call state; answers the state to show in the UI.
    fn set_call_state(&mut self, state: CallState) -> (r: &'static str)
        ensures
            final(self)@ == set_state(old(self)@, state),
            r@ == ui_call_state(state),
    {
        self.call_state = state;
        self.decide_ui_call_state()
    }

    /// The call state for the UI: IDLE, CALLING, RINGING or CONNECTED.
    pub fn decide_ui_call_state(&self) -> (r: &'static str)
        ensures
            r@ == ui_call_state(self@.call_state),
    {
        match self.call_state {
            CallState::Idle => "IDLE",
            CallState::RequestAll => "CALLING",
            CallState::InternalCall(InternalCall::Calling) => "CALLING",
            CallState::InternalCall(InternalCall::Ringing) => "RINGING",
            CallState::InternalCall(InternalCall::Connected) => "CONNECTED",
        }
    }

    /// Calls station `callee_id`; `caller_id` and `caller_ip` identify this station.
    pub fn initiate_call(&mut self, callee_id: i32, caller_id: i32, caller_ip: &str) -> (r:
        CallStep)
        ensures
            (final(self)@, r@) == spec_initiate_call(old(self)@, callee_id, caller_id, caller_ip@),
    {
        self.call_device_id = callee_id;
        self.is_caller = true;
        self.call_type = Some(CallType::Direct { callee_id });
        self.caller_device_type = Some(DeviceType::Device);
        let ui = self.set_call_state(CallState::InternalCall(InternalCall::Calling));
        let message = CallMessage::Started {
            caller_id,
            caller_ip: caller_ip.to_owned(),
            call_type: CallType::Direct { callee_id },
            caller_device_type: DeviceType::Device,
        };
        CallStep {
            ui_call_state: Some(ui),
            publish: Some(Publish { subtopic: device_subtopic(callee_id), message }),
            audio: AudioAction::Unchanged,
        }
    }

    /// Calls every station.
    pub fn initiate_call_all(&mut self, caller_id: i32, caller_ip: &str) -> (r: CallStep)
        ensures
            (final(self)@, r@) == spec_initiate_call_all(old(self)@, caller_id, caller_ip@),
    {
        self.call_device_id = -1;
        self.is_caller = true;
        self.call_type = Some(CallType::Group);
        self.caller_device_type = Some(DeviceType::Device);
        let ui = self.set_call_state(CallState::RequestAll);
        let message = CallMessage::Started {
            caller_id,
            caller_ip: caller_ip.to_owned(),
            call_type: CallType::Group,
            caller_device_type: DeviceType::Device,
        };
        CallStep {
            ui_call_state: Some(ui),
            publish: Some(Publish { subtopic: "broadcast".to_owned(), message }),
            audio: AudioAction::Unchanged,
        }
    }

    /// The subtopic for answering the current call.
    fn reply_subtopic(&self) -> (r: String)
        ensures
            r@ == reply_topic(self@),
    {
        match self.call_type {
            Some(CallType::Group) => "broadcast".to_owned(),
            _ => device_subtopic(self.call_device_id),
        }
    }

    /// Takes the ringing call; `callee_id` and `callee_ip` identify this station.
    pub fn accept_call(&mut self, callee_id: i32, callee_ip: &str) -> (r: CallStep)
        ensures
            (final(self)@, r@) == spec_accept_call(old(self)@, callee_id, callee_ip@),
    {
        let ui = self.set_call_state(CallState::InternalCall(InternalCall::Connected));
        let subtopic = self.reply_subtopic();
        let message = CallMessage::Accepted {
            caller_id: self.call_device_id,
            callee_id,
            callee_ip: callee_ip.to_owned(),
        };
        CallStep {
            ui_call_state: Some(ui),
            publish: Some(Publish { subtopic, message }),
            audio: AudioAction::Unchanged,
        }
    }

    /// Hangs up: the state turns idle and the `Ended` message is prepared.
    /// The call is forgotten by [`CallHandler::end_call_published`] once that
    /// message went out.
    pub fn end_call(&mut self, my_location_id: i32, my_ip: &str) -> (r: CallStep)
        ensures
            (final(self)@, r@) == spec_end_call(old(self)@, my_location_id, my_ip@),
    {
        let is_request_all = match self.call_state {
            CallState::RequestAll => true,
            _ => false,
        };
        let ui = self.set_call_state(CallState::Idle);
        let is_group = match self.call_type {
            Some(CallType::Group) => true,
            _ => false,
        };
        let subtopic = if is_request_all || is_group {
            "broadcast".to_owned()
        } else {
            device_subtopic(self.call_device_id)
        };
        let (caller_id, callee_id) = if is_request_all {
            (my_location_id, None)
        } else if self.is_caller {
            (
                my_location_id,
                if self.call_device_id != -1 {
                    Some(self.call_device_id)
                } else {
                    None
                },
            )
        } else {
            (self.call_device_id, Some(my_location_id))
        };
        let message = CallMessage::Ended { caller_id, callee_id, sender_ip: my_ip.to_owned() };
        CallStep {
            ui_call_state: Some(ui),
            publish: Some(Publish { subtopic, message }),
            audio: AudioAction::Unchanged,
        }
    }

    /// After the `Ended` message of [`CallHandler::end_call`] went out: the call
    /// is forgotten and the network audio pauses.
    pub fn end_call_published(&mut self) -> (r: AudioAction)
        ensures
            final(self)@ == forget_call(old(self)@),
            r@ == AudioView::Pause,
    {
        self.call_device_id = -1;
        self.is_caller = false;
        self.call_type = None;
        self.caller_device_type = None;
        AudioAction::Pause
    }

    /// The other station of the current call; `-1` for none.
    pub fn get_call_device_id(&self) -> (r: i32)
        ensures
            r == self@.call_device_id,
    {
        self.call_device_id
    }

    /// The text that names the current call, given the other station's name.
    pub fn get_call_label(&self, device_name: &str) -> (r: String)
        ensures
            r@ == call_label(self@.call_state, device_name@),
    {
        match self.call_state {
            CallState::Idle => String::new(),
            CallState::RequestAll => "Calling everyone ...".to_owned(),
            CallState::InternalCall(InternalCall::Calling) => {
                let mut label = device_name.to_owned();
                label.append(" ...");
                label
            },
            CallState::InternalCall(InternalCall::Ringing) => {
                let mut label = device_name.to_owned();
                label.append(" is calling");
                label
            },
            CallState::InternalCall(InternalCall::Connected) => device_name.to_owned(),
        }
    }

    /// Station `caller_id` calls: the station rings and audio starts.
    pub fn incoming_call(
        &mut self,
        caller_id: i32,
        caller_ip: &str,
        call_type: CallType,
        caller_device_type: DeviceType,
    ) -> (r: CallStep)
        ensures
            (final(self)@, r@) == spec_incoming_call(
                old(self)@,
                caller_id,
                caller_ip@,
                call_type,
                caller_device_type,
            ),
    {
        let ui = self.set_call_state(CallState::InternalCall(InternalCall::Ringing));
        self.call_device_id = caller_id;
        self.is_caller = false;
        self.call_type = Some(call_type);
        self.caller_device_type = Some(caller_device_type);
        CallStep {
            ui_call_state: Some(ui),
            publish: None,
            audio: AudioAction::Start(caller_ip.to_owned()),
        }
    }

    fn hang_up(&mut self) -> (r: CallStep)
        ensures
            (final(self)@, r@) == hang_up(old(self)@),
    {
        let ui = self.set_call_state(CallState::Idle);
        self.call_device_id = -1;
        self.is_caller = false;
        self.call_type = None;
        self.caller_device_type = None;
        CallStep { ui_call_state: Some(ui), publish: None, audio: AudioAction::Pause }
    }

    /// Another station took the group call of `caller_id`: if this station
    /// rings for that call, it stops.
    pub fn cancel_ringing_if_matching(&mut self, caller_id: i32) -> (r: CallStep)
        ensures
            (final(self)@, r@) == spec_cancel_ringing_if_matching(old(self)@, caller_id),
    {
        let ringing = match self.call_state {
            CallState::InternalCall(InternalCall::Ringing) => true,
            _ => false,
        };
        if ringing && self.call_device_id == caller_id {
            self.hang_up()
        } else {
            CallStep { ui_call_state: None, publish: None, audio: AudioAction::Unchanged }
        }
    }

    /// Station `callee_id` took the call of `caller_id`.
    pub fn call_accepted(&mut self, caller_id: i32, callee_id: i32, callee_ip: &str) -> (r:
        CallStep)
        ensures
            (final(self)@, r@) == spec_call_accepted(old(self)@, caller_id, callee_id, callee_ip@),
    {
        let request_all = match self.call_state {
            CallState::RequestAll => true,
            _ => false,
        };
        if request_all {
            self.call_device_id = callee_id;
            self.call_type = Some(CallType::Group);
            let ui = self.set_call_state(CallState::InternalCall(InternalCall::Connected));
            return CallStep {
                ui_call_state: Some(ui),
                publish: None,
                audio: AudioAction::Start(callee_ip.to_owned()),
            };
        }
        if self.call_device_id == callee_id || self.call_device_id == caller_id {
            let ui = self.set_call_state(CallState::InternalCall(InternalCall::Connected));
            CallStep {
                ui_call_state: Some(ui),
                publish: None,
                audio: AudioAction::Start(callee_ip.to_owned()),
            }
        } else {
            CallStep { ui_call_state: None, publish: None, audio: AudioAction::Unchanged }
        }
    }

    /// The call between `caller_id` and `callee_id` ended; this station hangs up
    /// if it takes part in it.
    pub fn call_ended(&mut self, caller_id: i32, callee_id: Option<i32>, sender_ip: &str) -> (r:
        CallStep)
        ensures
            (final(self)@, r@) == spec_call_ended(old(self)@, caller_id, callee_id),
    {
        let is_active_call_participant = self.call_device_id != -1 && (self.call_device_id
            == caller_id || match callee_id {
            Some(id) => id == self.call_device_id,
            None => false,
        });
        if is_active_call_participant {
            self.hang_up()
        } else {
            CallStep { ui_call_state: None, publish: None, audio: AudioAction::Unchanged }
        }
    }
}

} // verus!
