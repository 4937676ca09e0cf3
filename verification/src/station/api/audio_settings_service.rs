//! The audio settings offered to the user interface: the sinks and sources to
//! choose from and the current defaults.
use std::collections::HashMap;
use vstd::prelude::*;
use vstd::std_specs::iter::IteratorSpec;

use crate::station::act::audio::audio_devices_handler::{
    parse_status, view_names, AudioDevicesError, AudioDevicesHandler,
};

verus! {

broadcast use vstd::std_specs::hash::group_hash_axioms;

/// A sink or source as the user interface lists it.
pub struct SinkSourceData {
    pub id: i32,
    pub name: String,
}

/// `v` lists every device of `m` exactly once, with its name.
pub open spec fn lists_devices(v: Seq<SinkSourceData>, m: Map<i32, Seq<char>>) -> bool {
    &&& v.len() == m.dom().len()
    &&& forall|k: int| 0 <= k < v.len() ==> m.contains_key((#[trigger] v[k]).id) && m[v[k].id] == v[k].name@
    &&& forall|id: i32| #[trigger] m.contains_key(id) ==> exists|k: int| 0 <= k < v.len() && (#[trigger] v[k]).id == id
    &&& forall|a: int, b: int| 0 <= a < b < v.len() ==> (#[trigger] v[a]).id != (#[trigger] v[b]).id
}

/// The devices of `m` as a list, in the map's order.
fn device_list(m: &HashMap<i32, String>) -> (r: Vec<SinkSourceData>)
    ensures
        lists_devices(r@, view_names(m@)),
{
    let pairs = m.iter();
    let ghost v = pairs.remaining();
    let mut r: Vec<SinkSourceData> = Vec::new();
    for pair in it: pairs
        invariant
            it.seq() == v,
            r@.len() == it.index(),
            forall|k: int| 0 <= k < r@.len() ==> (#[trigger] r@[k]).id == *v[k].0 && r@[k].name@ == (*v[k].1)@,
    {
        let (id, name) = pair;
        r.push(SinkSourceData { id: *id, name: name.clone() });
    }
    proof {
        let names = view_names(m@);
        assert(r@.len() == v.len());
        assert(names.dom() =~= m@.dom());
        assert forall|k: int| 0 <= k < r@.len() implies names.contains_key((#[trigger] r@[k]).id) && names[r@[k].id]
            == r@[k].name@ by {
            assert(m@.contains_key(*v[k].0));
        }
        assert forall|id: i32| #[trigger] names.contains_key(id) implies exists|k: int| 0 <= k < r@.len() && (#[trigger] r@[k]).id == id by {
            assert(m@.contains_key(id));
            assert(v.contains((&id, &m@[id])));
            let k = choose|k: int| 0 <= k < v.len() && v[k] == (&id, &m@[id]);
            assert(r@[k].id == id);
        }
        assert forall|a: int, b: int| 0 <= a < b < r@.len() implies (#[trigger] r@[a]).id != (#[trigger] r@[b]).id by {
            if r@[a].id == r@[b].id {
                assert(m@.contains_key(*v[a].0));
                assert(m@.contains_key(*v[b].0));
                assert(v[a] == v[b]);
            }
        }
    }
    r
}

/// The default device id as the user interface takes it: `-1` for none.
pub open spec fn id_or_unset(id: Option<i32>) -> i32 {
    match id {
        Some(i) => i,
        None => -1i32,
    }
}

/// The audio settings service. Each request hands it the current status
/// report of the PipeWire control tool (`wpctl status`).
pub struct AudioSettingsService {
    audio_devices_handler: AudioDevicesHandler,
}

impl AudioSettingsService {
    /// The devices as last read.
    pub closed spec fn handler(&self) -> AudioDevicesHandler {
        self.audio_devices_handler
    }

    pub fn new(audio_devices_handler: AudioDevicesHandler) -> (r: Self)
        ensures
            r.handler() == audio_devices_handler,
    {
        AudioSettingsService { audio_devices_handler }
    }

    /// The sinks to choose from.
    pub fn get_sink_model(&mut self, wpctl_status: &str) -> (r: Result<Vec<SinkSourceData>, AudioDevicesError>)
        ensures
            final(self).handler().holds(parse_status(wpctl_status@)),
            match r {
                Ok(v) => !parse_status(wpctl_status@).failed && lists_devices(v@, parse_status(wpctl_status@).sinks),
                Err(e) => parse_status(wpctl_status@).failed && e == AudioDevicesError::InvalidId,
            },
    {
        match self.audio_devices_handler.get_sinks(wpctl_status) {
            Ok(sinks) => Ok(device_list(sinks)),
            Err(e) => Err(e),
        }
    }

    /// The sources to choose from.
    pub fn get_source_model(&mut self, wpctl_status: &str) -> (r: Result<Vec<SinkSourceData>, AudioDevicesError>)
        ensures
            final(self).handler().holds(parse_status(wpctl_status@)),
            match r {
                Ok(v) => !parse_status(wpctl_status@).failed && lists_devices(v@, parse_status(wpctl_status@).sources),
                Err(e) => parse_status(wpctl_status@).failed && e == AudioDevicesError::InvalidId,
            },
    {
        match self.audio_devices_handler.get_sources(wpctl_status) {
            Ok(sources) => Ok(device_list(sources)),
            Err(e) => Err(e),
        }
    }

    /// The id of the default sink; `-1` when there is none.
    pub fn get_default_sink_id(&mut self, wpctl_status: &str) -> (r: Result<i32, AudioDevicesError>)
        ensures
            final(self).handler().holds(parse_status(wpctl_status@)),
            match r {
                Ok(id) => !parse_status(wpctl_status@).failed && id == id_or_unset(parse_status(wpctl_status@).default_sink),
                Err(e) => parse_status(wpctl_status@).failed && e == AudioDevicesError::InvalidId,
            },
    {
        match self.audio_devices_handler.get_default_sink_id(wpctl_status) {
            Ok(Some(id)) => Ok(id),
            Ok(None) => Ok(-1),
            Err(e) => Err(e),
        }
    }

    /// The id of the default source; `-1` when there is none.
    pub fn get_default_source_id(&mut self, wpctl_status: &str) -> (r: Result<i32, AudioDevicesError>)
        ensures
            final(self).handler().holds(parse_status(wpctl_status@)),
            match r {
                Ok(id) => !parse_status(wpctl_status@).failed && id == id_or_unset(parse_status(wpctl_status@).default_source),
                Err(e) => parse_status(wpctl_status@).failed && e == AudioDevicesError::InvalidId,
            },
    {
        match self.audio_devices_handler.get_default_source_id(wpctl_status) {
            Ok(Some(id)) => Ok(id),
            Ok(None) => Ok(-1),
            Err(e) => Err(e),
        }
    }
}

} // verus!
