//! The failures that a caller of a service sees.

use vstd::prelude::*;
use crate::proto::ProtocolError;

verus! {

/// A call failed: the peer answered with an error object, or the transport
/// broke down.
#[derive(Debug)]
pub enum Error {
    ProtocolError(ProtocolError),
    /// The transport failed; the text is its description of the failure.
    IoError(String),
}

impl From<ProtocolError> for Error {
    fn from(e: ProtocolError) -> (r: Error) {
        Error::ProtocolError(e)
    }
}

impl vstd::std_specs::convert::FromSpecImpl<ProtocolError> for Error {
    open spec fn obeys_from_spec() -> bool {
        true
    }

    open spec fn from_spec(e: ProtocolError) -> Error {
        Error::ProtocolError(e)
    }
}

} // verus!
