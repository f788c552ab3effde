use vstd::prelude::*;

verus! {

/// Failures of frame and payload decoding.
#[derive(Debug, Clone, Copy, PartialEq, Eq, Structural)]
pub enum Error {
    /// The input could not be interpreted as a frame at all.
    MbParseFail,
    /// The frame is shorter than its fixed header and checksum.
    DataShort,
    /// The length of the frame or payload does not match what it must hold.
    DataLenError,
    /// The payload carries no data.
    DataNull,
    /// The trailing CRC differs from the CRC of the bytes before it.
    CrcMismatch,
}

} // verus!
