//! The single event a successful resolution pass emits.

use vstd::prelude::*;

use crate::model::{Device, DeviceV};

verus! {

/// The outcome of one observation: the normalized devices discovered in the
/// snapshot, in the order their device resources appeared in the response.
#[derive(Debug)]
pub enum Event {
    DiscoveredDevices(Vec<Device>),
}

pub ghost enum EventV {
    DiscoveredDevices(Seq<DeviceV>),
}

impl DeepView for Event {
    type V = EventV;

    open spec fn deep_view(&self) -> EventV {
        match self {
            Event::DiscoveredDevices(devices) => EventV::DiscoveredDevices(devices.deep_view()),
        }
    }
}

} // verus!
