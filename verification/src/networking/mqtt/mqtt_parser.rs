//! Which incoming MQTT messages the station handles.
use vstd::prelude::*;

use crate::text::{chars_of, contains_seq, contains_str};

verus! {

/// A topic about calls: it mentions `call` or `broadcast`.
pub open spec fn is_call_topic_spec(topic: Seq<char>) -> bool {
    contains_seq(topic, "call"@) || contains_seq(topic, "broadcast"@)
}

/// Whether messages on `topic` are call messages; others are not handled.
pub fn is_call_topic(topic: &str) -> (r: bool)
    ensures
        r == is_call_topic_spec(topic@),
{
    let chars = chars_of(topic);
    contains_str(chars.as_slice(), "call") || contains_str(chars.as_slice(), "broadcast")
}

} // verus!
