use vstd::prelude::*;

verus! {

/// Why an operation on a device failed.
#[derive(Clone, Copy, Debug, PartialEq, Eq, Structural)]
pub enum EpcError {
    /// The device could not be opened; carries the OS error number.
    OpenFailure(i32),
    /// One exchange was given both data to send and a buffer to fill.
    InvalidDirection,
    /// The OS reported a failed transfer; carries the OS error number.
    TransportFailure(i32),
    /// The sense buffer is in fixed format, which is not decoded.
    UnsupportedSenseFormat,
    /// The sense buffer starts with a response code that no device sends.
    ProtocolViolation,
    /// The EPC log page returned is shorter than its five descriptors need.
    LogPageTooShort,
}

} // verus!
