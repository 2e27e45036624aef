//! Characteristic router: total mappings from a characteristic UUID to its
//! semantic identity and from an advertised service set to a device type.

use vstd::prelude::*;

use crate::constants::{
    CYCLING_POWER_MEASUREMENT_UUID, FITNESS_MACHINE_CONTROL_POINT_UUID,
    FITNESS_MACHINE_SERVICE_UUID, HEART_RATE_MEASUREMENT_UUID, HEART_RATE_SERVICE_UUID,
    INDOOR_BIKE_DATA_UUID,
};
use crate::indoor_bike_data::le16;

verus! {

/// What kind of fitness peripheral a device is, judged by its services.
#[derive(Debug, Clone, Copy, PartialEq, Eq, Structural)]
pub enum DeviceType {
    HeartRate,
    SmartTrainer,
    Generic,
}

/// Semantic identity of a GATT characteristic; `Unknown` is the catch-all.
#[derive(Debug, Clone, Copy, PartialEq, Eq, Structural)]
pub enum Characteristic {
    CyclingPowerMeasurement,
    HeartRateMeasurement,
    IndoorBikeData,
    FitnessMachineControlPoint,
    Unknown,
}

/// The identity of a characteristic UUID; any unmapped UUID is `Unknown`.
pub open spec fn spec_characteristic_of(uuid: u128) -> Characteristic {
    if uuid == CYCLING_POWER_MEASUREMENT_UUID {
        Characteristic::CyclingPowerMeasurement
    } else if uuid == HEART_RATE_MEASUREMENT_UUID {
        Characteristic::HeartRateMeasurement
    } else if uuid == INDOOR_BIKE_DATA_UUID {
        Characteristic::IndoorBikeData
    } else if uuid == FITNESS_MACHINE_CONTROL_POINT_UUID {
        Characteristic::FitnessMachineControlPoint
    } else {
        Characteristic::Unknown
    }
}

/// The device type derived from an advertised service set. Heart rate and
/// fitness machine are mutually exclusive signals: a set holding both (or
/// neither) resolves to `Generic`.
pub open spec fn spec_device_type_of(services: Seq<u128>) -> DeviceType {
    let is_heart_rate = services.contains(HEART_RATE_SERVICE_UUID);
    let is_smart_trainer = services.contains(FITNESS_MACHINE_SERVICE_UUID);
    if is_heart_rate && !is_smart_trainer {
        DeviceType::HeartRate
    } else if !is_heart_rate && is_smart_trainer {
        DeviceType::SmartTrainer
    } else {
        DeviceType::Generic
    }
}

fn contains_uuid(services: &Vec<u128>, target: u128) -> (r: bool)
    ensures
        r == services@.contains(target),
{
    let mut i: usize = 0;
    while i < services.len()
        invariant
            i <= services@.len(),
            forall|j: int| 0 <= j < i ==> services@[j] != target,
        decreases services@.len() - i,
    {
        if services[i] == target {
            proof {
                assert(services@.contains(target)) by { assert(services@[i as int] == target) }
            }
            return true;
        }
        i += 1;
    }
    false
}

/// Classifies a device by its advertised service set.
pub fn get_device_type(services: Vec<u128>) -> (r: DeviceType)
    ensures
        r == spec_device_type_of(services@),
{
    let is_heart_rate = contains_uuid(&services, HEART_RATE_SERVICE_UUID);
    let is_smart_trainer = contains_uuid(&services, FITNESS_MACHINE_SERVICE_UUID);
    match (is_heart_rate, is_smart_trainer) {
        (true, false) => DeviceType::HeartRate,
        (false, true) => DeviceType::SmartTrainer,
        _ => DeviceType::Generic,
    }
}

/// Identifies a characteristic by its UUID; never fails.
pub fn get_uuid_characteristic(uuid: u128) -> (r: Characteristic)
    ensures
        r == spec_characteristic_of(uuid),
{
    if uuid == CYCLING_POWER_MEASUREMENT_UUID {
        Characteristic::CyclingPowerMeasurement
    } else if uuid == HEART_RATE_MEASUREMENT_UUID {
        Characteristic::HeartRateMeasurement
    } else if uuid == INDOOR_BIKE_DATA_UUID {
        Characteristic::IndoorBikeData
    } else if uuid == FITNESS_MACHINE_CONTROL_POINT_UUID {
        Characteristic::FitnessMachineControlPoint
    } else {
        Characteristic::Unknown
    }
}

/// Both classifiers are total. A UUID outside the four known characteristics
/// maps to `Unknown`, and a service set that signals neither or both of
/// heart rate and fitness machine maps to `Generic`; no input fails.
pub proof fn lemma_router_total(uuid: u128, services: Seq<u128>)
    ensures
        uuid != CYCLING_POWER_MEASUREMENT_UUID && uuid != HEART_RATE_MEASUREMENT_UUID && uuid
            != INDOOR_BIKE_DATA_UUID && uuid != FITNESS_MACHINE_CONTROL_POINT_UUID
            ==> spec_characteristic_of(uuid) == Characteristic::Unknown,
        services.contains(HEART_RATE_SERVICE_UUID) == services.contains(
            FITNESS_MACHINE_SERVICE_UUID,
        ) ==> spec_device_type_of(services) == DeviceType::Generic,
{
}

/// Splits a signed 16-bit value into its two little-endian bytes.
pub fn convert_i16_to_u8(num: i16) -> (r: [u8; 2])
    ensures
        le16(r[0], r[1]) == num as u16,
{
    let i16_num = num as i16;
    proof {
        assert(((num & 0xFF) as u8) + (((num >> 8) & 0xFF) as u8) * 256 == num as u16)
            by (bit_vector);
    }
    [(i16_num & 0xFF) as u8, ((i16_num >> 8) & 0xFF) as u8]
}

} // verus!
