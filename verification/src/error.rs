//! The ways an operation on the analyzer can fail.

use vstd::prelude::*;

verus! {

/// Every failure the protocol core reports or passes along.
#[derive(Copy, Clone, Debug, PartialEq, Eq, Structural)]
pub enum Error {
    /// A read or write on the transport failed or timed out.
    Io,
    /// The USB layer refused an operation.
    LibUsb,
    /// No analyzer is attached.
    DeviceNotFound,
    /// A reply held bytes that are not UTF-8 where text was expected.
    Encoding,
    /// A reply was malformed, or no acknowledgement came within three attempts.
    InvalidResponse,
    /// An operation code or parameter does not fit its field of the frame.
    OutOfRange,
    /// The device is not free for the operation that was asked for.
    Busy,
    /// An earlier background failure left the device unusable for good.
    Previous,
    /// The background execution of a sweep broke off without a result.
    Thread,
}

impl Error {
    /// A short description for logs and status lines.
    pub fn message(&self) -> (text: &'static str)
        ensures
            text@ == match *self {
                Error::Io => "i/o error"@,
                Error::LibUsb => "libusb error"@,
                Error::DeviceNotFound => "device not found"@,
                Error::Encoding => "UTF-8 encoding error in reply"@,
                Error::InvalidResponse => "Unexpected response from device"@,
                Error::OutOfRange => "Provided parameter is out of range"@,
                Error::Busy => "device is busy"@,
                Error::Previous => "device failed earlier"@,
                Error::Thread => "background task failed"@,
            },
    {
        match self {
            Error::Io => "i/o error",
            Error::LibUsb => "libusb error",
            Error::DeviceNotFound => "device not found",
            Error::Encoding => "UTF-8 encoding error in reply",
            Error::InvalidResponse => "Unexpected response from device",
            Error::OutOfRange => "Provided parameter is out of range",
            Error::Busy => "device is busy",
            Error::Previous => "device failed earlier",
            Error::Thread => "background task failed",
        }
    }
}

} // verus!
