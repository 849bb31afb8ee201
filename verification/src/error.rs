use vstd::prelude::*;

verus! {

/// Failure taxonomy of the motion streaming pipeline.
///
/// Every variant is fatal for the streaming loop: the loop aborts on the
/// first failure it sees and reports the error to its caller.
#[derive(Clone, Copy, Debug, PartialEq, Eq, Structural)]
pub enum DsuError {
    /// Underlying I/O or device-layer failure, including UDP send failures.
    Transport,
    /// No matching hardware was present when a device was looked for.
    DeviceNotFound,
    /// A raw report was malformed or too short to decode.
    Decode,
    /// Writing the enable-gyro configuration report to the device failed.
    Configuration,
}

} // verus!
