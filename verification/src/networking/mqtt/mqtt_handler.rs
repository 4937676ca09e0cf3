//! Subscriptions and publications of the station on the MQTT broker.
use vstd::prelude::*;
use vstd::string::StringExecFns;

use rumqttc::{Client, ClientError, QoS};

use crate::text::view_strings;

verus! {

#[verifier::external_type_specification]
#[verifier::external_body]
pub struct ExClient(Client);

#[verifier::external_type_specification]
#[verifier::external_body]
pub struct ExClientError(ClientError);

/// Why an MQTT operation failed.
#[derive(Clone, Copy, Debug, PartialEq, Eq, Structural)]
pub enum MqttError {
    /// The request did not reach the client's event loop, or its topic was
    /// not valid.
    RequestFailed,
    /// The configured broker port does not fit a TCP port.
    InvalidPort,
}

/// The delivery guarantee of a subscription or publication.
#[derive(Clone, Copy, Debug, PartialEq, Eq, Structural)]
pub enum QualityOfService {
    AtMostOnce,
    AtLeastOnce,
    ExactlyOnce,
}

/// `rumqttc::Client::subscribe`: hands a subscription to the client's event
/// loop. Whether that succeeds depends on the state of the event loop's
/// channel; what is stated is only that an empty topic filter is refused.
#[verifier::external_body]
fn client_subscribe(client: &Client, topic: String, qos: QualityOfService) -> (r: Result<(), ClientError>)
    ensures
        topic@.len() == 0 ==> r is Err,
{
    let qos = match qos {
        QualityOfService::AtMostOnce => QoS::AtMostOnce,
        QualityOfService::AtLeastOnce => QoS::AtLeastOnce,
        QualityOfService::ExactlyOnce => QoS::ExactlyOnce,
    };
    client.subscribe(topic, qos)
}

/// `rumqttc::Client::unsubscribe`: hands an unsubscription to the client's
/// event loop; whether that succeeds depends on the event loop's channel, so
/// nothing is stated of the result.
#[verifier::external_body]
fn client_unsubscribe(client: &Client, topic: String) -> (r: Result<(), ClientError>) {
    client.unsubscribe(topic)
}

/// `rumqttc::Client::publish`: hands a publication to the client's event loop.
/// Whether that succeeds depends on the event loop's channel; what is stated
/// is only that a topic with a wildcard (`+` or `#`) is refused.
#[verifier::external_body]
fn client_publish(client: &Client, topic: String, qos: QualityOfService, retain: bool, payload: String) -> (r: Result<(), ClientError>)
    ensures
        topic@.contains('+') || topic@.contains('#') ==> r is Err,
{
    let qos = match qos {
        QualityOfService::AtMostOnce => QoS::AtMostOnce,
        QualityOfService::AtLeastOnce => QoS::AtLeastOnce,
        QualityOfService::ExactlyOnce => QoS::ExactlyOnce,
    };
    client.publish(topic, qos, retain, payload)
}

/// The station's MQTT client and the subtopics it subscribed to.
pub struct MqttHandler {
    client: Client,
    topic_prefix: String,
    subtopics: Vec<String>,
}

impl MqttHandler {
    #[verifier::type_invariant]
    spec fn inv(self) -> bool {
        view_strings(self.subtopics@).no_duplicates()
    }

    /// The prefix in front of every subtopic.
    pub closed spec fn prefix(&self) -> Seq<char> {
        self.topic_prefix@
    }

    /// The subtopics the station is subscribed to.
    pub closed spec fn subtopic_set(&self) -> Set<Seq<char>> {
        view_strings(self.subtopics@).to_set()
    }

    /// A handler over `client` that subscribed to nothing yet.
    pub fn new(client: Client, topic_prefix: &str) -> (r: Self)
        ensures
            r.prefix() == topic_prefix@,
            r.subtopic_set() == Set::<Seq<char>>::empty(),
    {
        let r = MqttHandler { client, topic_prefix: topic_prefix.to_owned(), subtopics: Vec::new() };
        assert(view_strings(r.subtopics@).to_set() =~= Set::<Seq<char>>::empty());
        r
    }

    /// What a subscription to `subtopic` hands to the client: the topic
    /// filter below the prefix, delivered at most once.
    pub fn subscription(&self, subtopic: &str) -> (r: (String, QualityOfService))
        ensures
            r.0@ == self.prefix() + subtopic@,
            r.1 == QualityOfService::AtMostOnce,
    {
        (self.topic(subtopic), QualityOfService::AtMostOnce)
    }

    /// What a publication of `payload` on `subtopic` hands to the client: the
    /// topic below the prefix, delivered at least once, not retained, and the
    /// payload itself.
    pub fn publication(&self, subtopic: &str, payload: String) -> (r: (String, QualityOfService, bool, String))
        ensures
            r.0@ == self.prefix() + subtopic@,
            r.1 == QualityOfService::AtLeastOnce,
            !r.2,
            r.3@ == payload@,
    {
        (self.topic(subtopic), QualityOfService::AtLeastOnce, false, payload)
    }

    fn topic(&self, subtopic: &str) -> (r: String)
        ensures
            r@ == self.prefix() + subtopic@,
    {
        let mut topic = self.topic_prefix.clone();
        topic.append(subtopic);
        topic
    }

    fn position(&self, subtopic: &String) -> (r: Option<usize>)
        ensures
            match r {
                Some(i) => i < self.subtopics@.len() && self.subtopics@[i as int]@ == subtopic@,
                None => !self.subtopic_set().contains(subtopic@),
            },
    {
        let mut i: usize = 0;
        while i < self.subtopics.len()
            invariant
                i <= self.subtopics@.len(),
                forall|k: int| 0 <= k < i ==> (#[trigger] self.subtopics@[k])@ != subtopic@,
            decreases self.subtopics@.len() - i,
        {
            if self.subtopics[i] == *subtopic {
                return Some(i);
            }
            i = i + 1;
        }
        proof {
            if view_strings(self.subtopics@).to_set().contains(subtopic@) {
                let k = choose|k: int| 0 <= k < view_strings(self.subtopics@).len() && view_strings(self.subtopics@)[k] == subtopic@;
                assert(self.subtopics@[k]@ == subtopic@);
            }
        }
        None
    }

    /// Subscribes to `subtopic` below the prefix; it is recorded when the
    /// client accepted the request.
    pub fn subscribe(&mut self, subtopic: String) -> (r: Result<(), MqttError>)
        ensures
            final(self).prefix() == old(self).prefix(),
            r is Ok ==> final(self).subtopic_set() == old(self).subtopic_set().insert(subtopic@),
            r is Err ==> r == Err::<(), MqttError>(MqttError::RequestFailed) && final(self).subtopic_set() == old(self).subtopic_set(),
            old(self).prefix().len() == 0 && subtopic@.len() == 0 ==> r is Err,
    {
        proof {
            use_type_invariant(&*self);
        }
        let (topic, qos) = self.subscription(subtopic.as_str());
        match client_subscribe(&self.client, topic, qos) {
            Ok(()) => {},
            Err(_) => return Err(MqttError::RequestFailed),
        }
        match self.position(&subtopic) {
            Some(i) => {
                assert(view_strings(self.subtopics@)[i as int] == subtopic@);
                assert(view_strings(self.subtopics@).contains(subtopic@));
                assert(self.subtopic_set().insert(subtopic@) =~= self.subtopic_set());
            },
            None => {
                let ghost old_view = view_strings(self.subtopics@);
                let ghost sub = subtopic@;
                let mut subtopics: Vec<String> = Vec::new();
                std::mem::swap(&mut subtopics, &mut self.subtopics);
                subtopics.push(subtopic);
                proof {
                    assert(view_strings(subtopics@) =~= old_view.push(sub));
                    assert forall|a: int, b: int| 0 <= a < b < old_view.push(sub).len() implies old_view.push(sub)[a] != old_view.push(sub)[b] by {
                        if b == old_view.len() {
                            assert(old_view.contains(old_view[a]));
                        }
                    }
                }
                self.subtopics = subtopics;
                proof {
                    assert(view_strings(self.subtopics@) =~= old_view.push(sub));
                    old_view.lemma_push_to_set_commute(sub);
                }
            },
        }
        Ok(())
    }

    /// Unsubscribes from `subtopic` below the prefix; it is forgotten when the
    /// client accepted the request.
    pub fn unsubscribe(&mut self, subtopic: String) -> (r: Result<(), MqttError>)
        ensures
            final(self).prefix() == old(self).prefix(),
            r is Ok ==> final(self).subtopic_set() == old(self).subtopic_set().remove(subtopic@),
            r is Err ==> r == Err::<(), MqttError>(MqttError::RequestFailed) && final(self).subtopic_set() == old(self).subtopic_set(),
    {
        proof {
            use_type_invariant(&*self);
        }
        let topic = self.topic(subtopic.as_str());
        match client_unsubscribe(&self.client, topic) {
            Ok(()) => {},
            Err(_) => return Err(MqttError::RequestFailed),
        }
        match self.position(&subtopic) {
            Some(i) => {
                let ghost old_view = view_strings(self.subtopics@);
                let mut subtopics: Vec<String> = Vec::new();
                std::mem::swap(&mut subtopics, &mut self.subtopics);
                subtopics.remove(i);
                proof {
                    let new_view = view_strings(subtopics@);
                    assert(new_view =~= old_view.remove(i as int));
                    assert forall|a: int, b: int| 0 <= a < b < new_view.len() implies new_view[a] != new_view[b] by {
                        let oa = if a < i { a } else { a + 1 };
                        let ob = if b < i { b } else { b + 1 };
                        assert(new_view[a] == old_view[oa]);
                        assert(new_view[b] == old_view[ob]);
                    }
                    assert(old_view[i as int] == subtopic@);
                    assert forall|t: Seq<char>| new_view.contains(t) <==> (old_view.contains(t) && t != subtopic@) by {
                        if new_view.contains(t) {
                            let k = choose|k: int| 0 <= k < new_view.len() && new_view[k] == t;
                            let ok = if k < i { k } else { k + 1 };
                            assert(old_view[ok] == t);
                            assert(ok != i);
                        }
                        if old_view.contains(t) && t != subtopic@ {
                            let k = choose|k: int| 0 <= k < old_view.len() && old_view[k] == t;
                            assert(k != i);
                            let nk = if k < i { k } else { k - 1 };
                            assert(new_view[nk] == t);
                        }
                    }
                    assert(new_view.to_set() =~= old_view.to_set().remove(subtopic@));
                }
                self.subtopics = subtopics;
            },
            None => {
                assert(self.subtopic_set().remove(subtopic@) =~= self.subtopic_set());
            },
        }
        Ok(())
    }

    /// The subtopics the station is subscribed to, each once.
    pub fn get_subtopics(&self) -> (r: Vec<String>)
        ensures
            view_strings(r@).to_set() == self.subtopic_set(),
            view_strings(r@).no_duplicates(),
    {
        proof {
            use_type_invariant(self);
        }
        let mut r: Vec<String> = Vec::new();
        let mut i: usize = 0;
        while i < self.subtopics.len()
            invariant
                i <= self.subtopics@.len(),
                r@.len() == i,
                forall|k: int| 0 <= k < i ==> (#[trigger] r@[k])@ == self.subtopics@[k]@,
            decreases self.subtopics@.len() - i,
        {
            r.push(self.subtopics[i].clone());
            i = i + 1;
        }
        assert(view_strings(r@) =~= view_strings(self.subtopics@));
        r
    }

    /// Publishes `payload` on `subtopic` below the prefix, delivered at least
    /// once and not retained.
    pub fn publish(&self, subtopic: &str, payload: String) -> (r: Result<(), MqttError>)
        ensures
            r is Err ==> r == Err::<(), MqttError>(MqttError::RequestFailed),
            (self.prefix() + subtopic@).contains('+') || (self.prefix() + subtopic@).contains('#') ==> r is Err,
    {
        let (topic, qos, retain, payload) = self.publication(subtopic, payload);
        match client_publish(&self.client, topic, qos, retain, payload) {
            Ok(()) => Ok(()),
            Err(_) => Err(MqttError::RequestFailed),
        }
    }
}

} // verus!
