//! Verified core of a BLE fitness-sensor client: payload decoders for GATT
//! measurement notifications, a characteristic/service router, and the
//! session state machine that governs scanning, discovery and connection.

pub mod bluetooth;
pub mod constants;
pub mod error;
pub mod heart_rate_data;
pub mod indoor_bike_data;
pub mod utils;
