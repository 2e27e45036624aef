//! GATT identifiers consumed by the router, in full 128-bit form.
//!
//! A Bluetooth SIG-assigned 16-bit identifier expands to a 128-bit UUID by
//! placing it in the top 32 bits above the fixed Bluetooth base UUID
//! `00000000-0000-1000-8000-00805F9B34FB`. UUIDs are carried as plain `u128`
//! values throughout the library; the byte order matches the textual form of
//! a UUID read as one big-endian number.

use vstd::prelude::*;

verus! {

/// The Bluetooth base UUID `00000000-0000-1000-8000-00805F9B34FB` as a number.
pub const BLUETOOTH_BASE_UUID: u128 = 0x00001000800000805F9B34FB;

/// Heart Rate service (SIG-assigned identifier 0x180D).
pub const HEART_RATE_SERVICE_UUID: u128 = 0x0000180D00001000800000805F9B34FB;

/// Fitness Machine service (SIG-assigned identifier 0x1826).
pub const FITNESS_MACHINE_SERVICE_UUID: u128 = 0x0000182600001000800000805F9B34FB;

/// Heart Rate Measurement characteristic (SIG-assigned identifier 0x2A37).
pub const HEART_RATE_MEASUREMENT_UUID: u128 = 0x00002A3700001000800000805F9B34FB;

/// Cycling Power Measurement characteristic (SIG-assigned identifier 0x2A63).
pub const CYCLING_POWER_MEASUREMENT_UUID: u128 = 0x00002A6300001000800000805F9B34FB;

/// Indoor Bike Data characteristic (SIG-assigned identifier 0x2AD2).
pub const INDOOR_BIKE_DATA_UUID: u128 = 0x00002AD200001000800000805F9B34FB;

/// Fitness Machine Control Point characteristic (SIG-assigned identifier 0x2AD9).
pub const FITNESS_MACHINE_CONTROL_POINT_UUID: u128 = 0x00002AD900001000800000805F9B34FB;

/// Expands a SIG-assigned short identifier to its full 128-bit UUID.
pub fn uuid_from_u32(short: u32) -> (r: u128)
    ensures
        r == ((short as u128) << 96) | BLUETOOTH_BASE_UUID,
{
    ((short as u128) << 96) | BLUETOOTH_BASE_UUID
}

} // verus!
