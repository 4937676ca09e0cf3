//! The network interface of the station.
use vstd::prelude::*;

verus! {

/// The station's network interface; its address is looked up on demand.
pub struct NetIface;

impl NetIface {
    pub fn new() -> (r: Self) {
        NetIface
    }
}

} // verus!
