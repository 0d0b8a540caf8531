//! The bridge's own description, as its configuration endpoint reports it.

use crate::error::BridgeError;
use crate::version::{is_supported, version_fault, MINIMUM_BRIDGE_VERSION};
use vstd::prelude::*;

verus! {

/// A snapshot of the bridge's configuration, fetched for each version check.
#[derive(Clone, Debug, PartialEq, Eq)]
pub struct Bridge {
    pub name: String,
    pub datastoreversion: String,
    /// The firmware version: a number, written in base ten.
    pub swversion: String,
    pub apiversion: String,
    pub mac: String,
    pub bridgeid: String,
    pub factorynew: bool,
    pub modelid: String,
}

/// The mathematical form of a [`Bridge`].
pub struct BridgeView {
    pub name: Seq<char>,
    pub datastoreversion: Seq<char>,
    pub swversion: Seq<char>,
    pub apiversion: Seq<char>,
    pub mac: Seq<char>,
    pub bridgeid: Seq<char>,
    pub factorynew: bool,
    pub modelid: Seq<char>,
}

impl View for Bridge {
    type V = BridgeView;

    open spec fn view(&self) -> BridgeView {
        BridgeView {
            name: self.name@,
            datastoreversion: self.datastoreversion@,
            swversion: self.swversion@,
            apiversion: self.apiversion@,
            mac: self.mac@,
            bridgeid: self.bridgeid@,
            factorynew: self.factorynew,
            modelid: self.modelid@,
        }
    }
}

impl DeepView for Bridge {
    type V = BridgeView;

    open spec fn deep_view(&self) -> BridgeView {
        self@
    }
}

impl Bridge {
    /// Passes the bridge through the version gate: accepts it when its
    /// firmware is [`MINIMUM_BRIDGE_VERSION`] or newer.
    pub fn check_version(&self) -> (r: Result<(), BridgeError>)
        ensures
            r is Ok <==> version_fault(self@.swversion, MINIMUM_BRIDGE_VERSION) is None,
            r matches Err(e) ==> Some(e@) == version_fault(self@.swversion, MINIMUM_BRIDGE_VERSION),
    {
        match is_supported(self.swversion.as_str(), MINIMUM_BRIDGE_VERSION) {
            Ok(true) => Ok(()),
            Ok(false) => Err(BridgeError::UnsupportedBridgeVersion),
            Err(e) => Err(e),
        }
    }
}

} // verus!
