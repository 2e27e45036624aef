//! Error taxonomy for the session and the decoders.

use vstd::prelude::*;

verus! {

/// Everything that can go wrong in the library or at its platform edge.
///
/// `MalformedPayload` is the only decode-time error; the others describe the
/// session: a missing adapter or manager handle, a platform refusal to start
/// or stop a scan, a failed or impossible connection, and the loss of the
/// central event stream.
#[derive(Debug, Clone, Copy, PartialEq, Eq, Structural)]
pub enum BleError {
    AdapterUnavailable,
    ScanFailure,
    ConnectionFailure,
    DeviceNotFound,
    MalformedPayload,
    EventStreamLost,
}

impl BleError {
    /// The human-readable failure string surfaced on the command channel.
    pub fn message(&self) -> (r: String)
        ensures
            *self == BleError::AdapterUnavailable ==> r@ == "No Adapter found"@,
            *self == BleError::ScanFailure ==> r@ == "Bluetooth is unable to scan"@,
            *self == BleError::ConnectionFailure ==> r@ == "Unable to connect to the device"@,
            *self == BleError::DeviceNotFound ==> r@ == "Device not found"@,
            *self == BleError::MalformedPayload ==> r@ == "Malformed notification payload"@,
            *self == BleError::EventStreamLost ==> r@ == "Bluetooth event stream lost"@,
    {
        match self {
            BleError::AdapterUnavailable => "No Adapter found".to_owned(),
            BleError::ScanFailure => "Bluetooth is unable to scan".to_owned(),
            BleError::ConnectionFailure => "Unable to connect to the device".to_owned(),
            BleError::DeviceNotFound => "Device not found".to_owned(),
            BleError::MalformedPayload => "Malformed notification payload".to_owned(),
            BleError::EventStreamLost => "Bluetooth event stream lost".to_owned(),
        }
    }
}

} // verus!
