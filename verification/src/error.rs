//! The ways in which a query cycle can end without a published reading.

use vstd::prelude::*;

verus! {

/// A failure of the exchange with the device. Each one ends the cycle.
#[derive(Clone, Copy, Debug, PartialEq, Eq, Structural)]
pub enum DeviceError {
    /// The serial link could not be opened with the fixed configuration.
    PortUnavailable,
    /// The terminate command was not written in full.
    ShortWrite,
    /// The pending input and output could not be discarded.
    ClearFailed,
    /// The device's reply is not two bytes long; `got` is the length seen.
    UnexpectedResponseLength { got: usize },
    /// The reply did not arrive within the read timeout.
    Timeout,
    /// Any other failure of the link.
    IoFailure,
}

/// A failure to report a reading to the logging service.
#[derive(Clone, Debug, PartialEq, Eq)]
pub enum PublishError {
    /// The request did not come back with a success status.
    Transport { status: u16, status_text: String },
    /// The service answered, but its body lacks the success marker.
    RemoteError { body: String },
}

} // verus!
