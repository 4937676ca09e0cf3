//! The subscriptions that route calls to this station.
use vstd::prelude::*;
use vstd::string::StringExecFns;

use crate::networking::mqtt::mqtt_handler::{MqttError, MqttHandler};
use crate::text::{i32_decimal, int_decimal, string_from_chars};

verus! {

/// The subtopic on which station `location_id` receives calls.
pub open spec fn call_topic(location_id: i32) -> Seq<char> {
    "call/"@ + int_decimal(location_id as int)
}

/// The subtopic `call/<location_id>`.
pub fn call_subtopic(location_id: i32) -> (r: String)
    ensures
        r@ == call_topic(location_id),
{
    let mut topic = "call/".to_owned();
    let digits = i32_decimal(location_id);
    let digits = string_from_chars(digits.as_slice());
    topic.append(digits.as_str());
    topic
}

/// Replaces every subscription by the call subtopic of `location_id`, as
/// needed when the station's location changes. On success the station listens
/// to that subtopic alone; on failure it listens to some of its former
/// subtopics at most.
pub fn subscribe_to_call_message(mqtt_handler: &mut MqttHandler, location_id: i32) -> (r: Result<(), MqttError>)
    ensures
        final(mqtt_handler).prefix() == old(mqtt_handler).prefix(),
        r is Ok ==> final(mqtt_handler).subtopic_set() == set![call_topic(location_id)],
        r is Err ==> final(mqtt_handler).subtopic_set().subset_of(old(mqtt_handler).subtopic_set()),
{
    // First drop the old subscriptions.
    let topics = mqtt_handler.get_subtopics();
    let ghost all = old(mqtt_handler).subtopic_set();
    let mut i: usize = 0;
    while i < topics.len()
        invariant
            i <= topics@.len(),
            mqtt_handler.prefix() == old(mqtt_handler).prefix(),
            all == old(mqtt_handler).subtopic_set(),
            crate::text::view_strings(topics@).to_set() == all,
            crate::text::view_strings(topics@).no_duplicates(),
            mqtt_handler.subtopic_set() =~= all.difference(crate::text::view_strings(topics@).take(i as int).to_set()),
        decreases topics@.len() - i,
    {
        let ghost before = mqtt_handler.subtopic_set();
        let topic = topics[i].clone();
        let res = mqtt_handler.unsubscribe(topic);
        proof {
            let v = crate::text::view_strings(topics@);
            assert(v.take(i + 1) =~= v.take(i as int).push(v[i as int]));
            v.take(i as int).lemma_push_to_set_commute(v[i as int]);
        }
        if res.is_err() {
            assert(mqtt_handler.subtopic_set().subset_of(all));
            return Err(MqttError::RequestFailed);
        }
        i = i + 1;
    }
    proof {
        let v = crate::text::view_strings(topics@);
        assert(v.take(topics@.len() as int) =~= v);
        assert(mqtt_handler.subtopic_set() =~= Set::<Seq<char>>::empty());
    }
    let subtopic = call_subtopic(location_id);
    let res = mqtt_handler.subscribe(subtopic);
    proof {
        if res is Ok {
            assert(Set::<Seq<char>>::empty().insert(call_topic(location_id)) =~= set![call_topic(location_id)]);
        }
    }
    res
}

} // verus!
