use ble_fitness::constants::{
    uuid_from_u32, CYCLING_POWER_MEASUREMENT_UUID, FITNESS_MACHINE_CONTROL_POINT_UUID,
    FITNESS_MACHINE_SERVICE_UUID, HEART_RATE_MEASUREMENT_UUID, HEART_RATE_SERVICE_UUID,
    INDOOR_BIKE_DATA_UUID,
};
use ble_fitness::indoor_bike_data::combine_u8_to_u16;
use ble_fitness::utils::{convert_i16_to_u8, get_device_type, get_uuid_characteristic};
use ble_fitness::utils::{Characteristic, DeviceType};

#[test]
fn known_characteristics_are_classified() {
    assert_eq!(
        get_uuid_characteristic(CYCLING_POWER_MEASUREMENT_UUID),
        Characteristic::CyclingPowerMeasurement
    );
    assert_eq!(
        get_uuid_characteristic(HEART_RATE_MEASUREMENT_UUID),
        Characteristic::HeartRateMeasurement
    );
    assert_eq!(get_uuid_characteristic(INDOOR_BIKE_DATA_UUID), Characteristic::IndoorBikeData);
    assert_eq!(
        get_uuid_characteristic(FITNESS_MACHINE_CONTROL_POINT_UUID),
        Characteristic::FitnessMachineControlPoint
    );
}

#[test]
fn unmapped_uuids_are_unknown() {
    assert_eq!(get_uuid_characteristic(0), Characteristic::Unknown);
    assert_eq!(get_uuid_characteristic(uuid_from_u32(0x2A00)), Characteristic::Unknown);
    // Service UUIDs are not characteristics.
    assert_eq!(get_uuid_characteristic(HEART_RATE_SERVICE_UUID), Characteristic::Unknown);
}

#[test]
fn device_types_from_services() {
    assert_eq!(get_device_type(vec![HEART_RATE_SERVICE_UUID]), DeviceType::HeartRate);
    assert_eq!(get_device_type(vec![FITNESS_MACHINE_SERVICE_UUID]), DeviceType::SmartTrainer);
    assert_eq!(get_device_type(Vec::new()), DeviceType::Generic);
    assert_eq!(get_device_type(vec![uuid_from_u32(0x180F)]), DeviceType::Generic);
    assert_eq!(
        get_device_type(vec![uuid_from_u32(0x180F), HEART_RATE_SERVICE_UUID]),
        DeviceType::HeartRate
    );
}

#[test]
fn both_services_resolve_to_generic() {
    let services = vec![HEART_RATE_SERVICE_UUID, FITNESS_MACHINE_SERVICE_UUID];
    assert_eq!(get_device_type(services), DeviceType::Generic);
}

#[test]
fn sig_expansion_matches_the_constants() {
    assert_eq!(uuid_from_u32(0x180D), HEART_RATE_SERVICE_UUID);
    assert_eq!(uuid_from_u32(0x1826), FITNESS_MACHINE_SERVICE_UUID);
    assert_eq!(uuid_from_u32(0x2A37), HEART_RATE_MEASUREMENT_UUID);
    assert_eq!(uuid_from_u32(0x2A63), CYCLING_POWER_MEASUREMENT_UUID);
    assert_eq!(uuid_from_u32(0x2AD2), INDOOR_BIKE_DATA_UUID);
    assert_eq!(uuid_from_u32(0x2AD9), FITNESS_MACHINE_CONTROL_POINT_UUID);
}

#[test]
fn i16_little_endian_round_trip() {
    assert_eq!(convert_i16_to_u8(0x1234), [0x34, 0x12]);
    assert_eq!(convert_i16_to_u8(-1), [0xFF, 0xFF]);
    assert_eq!(convert_i16_to_u8(0), [0x00, 0x00]);
    let bytes = convert_i16_to_u8(-12345);
    assert_eq!(combine_u8_to_u16(bytes[0], bytes[1]), (-12345i16) as u16);
}

#[test]
fn byte_joiners() {
    assert_eq!(combine_u8_to_u16(0xFA, 0x00), 250);
    assert_eq!(combine_u8_to_u16(0x34, 0x12), 0x1234);
}
