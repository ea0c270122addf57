//! The error taxonomy of a resolution pass. Transport failures live with the
//! transport code outside this crate; everything the core itself can report
//! is here.

use vstd::prelude::*;

use crate::devices_response::{HueError, HueErrorV};

verus! {

/// Why a resolution pass ended without a device list.
#[derive(Debug)]
pub enum HueObserverError {
    /// The bridge itself returned one or more error objects alongside the
    /// data; the whole pass is abandoned even if the data were usable.
    BridgeReportedErrors(Vec<HueError>),
    /// A resource tagged with a known kind had a payload that does not
    /// match that kind's expected shape.
    MalformedResource,
    /// A device's service reference points to an id absent from the catalog.
    DanglingReference,
    /// A service reference's declared type does not match the actual kind of
    /// the resource it resolves to.
    InvalidData,
}

pub ghost enum HueObserverErrorV {
    BridgeReportedErrors(Seq<HueErrorV>),
    MalformedResource,
    DanglingReference,
    InvalidData,
}

impl DeepView for HueObserverError {
    type V = HueObserverErrorV;

    open spec fn deep_view(&self) -> HueObserverErrorV {
        match self {
            HueObserverError::BridgeReportedErrors(errs) => HueObserverErrorV::BridgeReportedErrors(
                errs.deep_view(),
            ),
            HueObserverError::MalformedResource => HueObserverErrorV::MalformedResource,
            HueObserverError::DanglingReference => HueObserverErrorV::DanglingReference,
            HueObserverError::InvalidData => HueObserverErrorV::InvalidData,
        }
    }
}

impl HueObserverError {
    /// A short description, for callers that print errors.
    pub fn describe(&self) -> &'static str {
        match self {
            HueObserverError::BridgeReportedErrors(_) => "fetch devices response contains errors",
            HueObserverError::MalformedResource => "malformed resource received from the bridge",
            HueObserverError::DanglingReference => "invalid data received from the bridge, a service reference points to a missing resource",
            HueObserverError::InvalidData => "invalid data received from the bridge, a service is not pointing to a valid device",
        }
    }
}

} // verus!
