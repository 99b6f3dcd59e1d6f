//! The kinds of failure that a workflow operation can end with.

use vstd::prelude::*;

verus! {

/// Why a workflow operation ended without its result.
#[derive(Clone, Copy, Debug, PartialEq, Eq, Structural)]
pub enum ErrorKind {
    /// No attached device matches the identifier at resolution time.
    DeviceNotFound,
    /// The multiplexing daemon or a device service could not be reached.
    ConnectionFailed,
    /// A device service refused pairing, session start, a value or a file operation.
    ProtocolRejected,
    /// A record could not be encoded, or encoded bytes are not text.
    SerializationFailed,
    /// A local file could not be written.
    IoFailed,
}

/// The text that names each kind of failure.
pub open spec fn kind_text(kind: ErrorKind) -> Seq<char> {
    match kind {
        ErrorKind::DeviceNotFound => "device not found"@,
        ErrorKind::ConnectionFailed => "connection failed"@,
        ErrorKind::ProtocolRejected => "rejected by the device"@,
        ErrorKind::SerializationFailed => "serialization failed"@,
        ErrorKind::IoFailed => "file could not be written"@,
    }
}

impl ErrorKind {
    /// Human-readable text for the outermost boundary, where kinds are flattened.
    pub fn describe(&self) -> (text: String)
        ensures
            text@ == kind_text(*self),
    {
        match self {
            ErrorKind::DeviceNotFound => String::from_str("device not found"),
            ErrorKind::ConnectionFailed => String::from_str("connection failed"),
            ErrorKind::ProtocolRejected => String::from_str("rejected by the device"),
            ErrorKind::SerializationFailed => String::from_str("serialization failed"),
            ErrorKind::IoFailed => String::from_str("file could not be written"),
        }
    }
}

} // verus!
