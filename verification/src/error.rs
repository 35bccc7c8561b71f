use vstd::prelude::*;

verus! {

/// The ways in which a request to the XR runtime can fail.
#[derive(Clone, Debug)]
pub enum Error {
    NoMatchingDevice,
    CommunicationError,
    BackendSpecific(String),
}

impl Error {
    /// Whether this is the error that no device could serve the request.
    pub open spec fn is_no_matching_device(self) -> bool {
        self is NoMatchingDevice
    }
}

} // verus!
