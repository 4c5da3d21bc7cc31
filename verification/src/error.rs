//! The conditions under which a device cannot be opened or driven.

use vstd::prelude::*;

verus! {

/// Why an operation on a device failed.
#[derive(Debug, Copy, Clone, PartialEq, Eq, Structural)]
pub enum DeviceError {
    /// The state-read or the LED-write interface of the device is missing.
    DeviceNotFound,
    /// More than one state-read or LED-write interface was found.
    AmbiguousDevice,
    /// The transport failed to read or write.
    ProtocolError,
    /// The command queue of the device is closed.
    QueueClosed,
}

impl DeviceError {
    /// A short description of the condition.
    pub fn message(&self) -> (text: &'static str)
        ensures
            text@ == (match *self {
                DeviceError::DeviceNotFound => "device not found"@,
                DeviceError::AmbiguousDevice => "ambiguous device"@,
                DeviceError::ProtocolError => "protocol error"@,
                DeviceError::QueueClosed => "queue closed"@,
            }),
    {
        match self {
            DeviceError::DeviceNotFound => "device not found",
            DeviceError::AmbiguousDevice => "ambiguous device",
            DeviceError::ProtocolError => "protocol error",
            DeviceError::QueueClosed => "queue closed",
        }
    }
}

} // verus!
