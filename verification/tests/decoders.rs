use ble_fitness::error::BleError;
use ble_fitness::heart_rate_data::parse_heart_rate_data;
use ble_fitness::indoor_bike_data::{parse_indoor_bike_data, IndoorBikeData};

#[test]
fn flags_zero_speed_only() {
    // flags = 0: bit 0 clear marks speed present; every other field absent.
    let data: Vec<u8> = vec![0x00, 0x00, 0xFA, 0x00];
    let record = parse_indoor_bike_data(&data).unwrap();
    assert_eq!(record, IndoorBikeData { cadence: 0, speed: 2, distance: 0 });
}

#[test]
fn buffer_shorter_than_flags_is_malformed() {
    let data: Vec<u8> = vec![0x01];
    assert_eq!(parse_indoor_bike_data(&data), Err(BleError::MalformedPayload));
    assert_eq!(parse_indoor_bike_data(&Vec::new()), Err(BleError::MalformedPayload));
}

#[test]
fn round_trip_speed_cadence_distance() {
    // flags = 0b1_0100: speed (bit 0 clear), cadence and distance present.
    // raw speed 250 -> 2 km/h, raw cadence 125 -> 62 rpm, distance 10000.
    let data: Vec<u8> = vec![0x14, 0x00, 0xFA, 0x00, 0x7D, 0x00, 0x10, 0x27, 0x00];
    let record = parse_indoor_bike_data(&data).unwrap();
    assert_eq!(record, IndoorBikeData { cadence: 62, speed: 2, distance: 10000 });
}

#[test]
fn decoding_twice_yields_identical_records() {
    let data: Vec<u8> = vec![0x14, 0x00, 0xFA, 0x00, 0x7D, 0x00, 0x10, 0x27, 0x00];
    assert_eq!(parse_indoor_bike_data(&data), parse_indoor_bike_data(&data));
}

#[test]
fn all_fields_absent() {
    // flags = 1: bit 0 set means speed absent; no other bit set.
    let data: Vec<u8> = vec![0x01, 0x00];
    let record = parse_indoor_bike_data(&data).unwrap();
    assert_eq!(record, IndoorBikeData { cadence: 0, speed: 0, distance: 0 });
}

#[test]
fn cadence_only() {
    // flags = 0b101: speed absent, cadence present at offset 2.
    let data: Vec<u8> = vec![0x05, 0x00, 0x7D, 0x00];
    let record = parse_indoor_bike_data(&data).unwrap();
    assert_eq!(record, IndoorBikeData { cadence: 62, speed: 0, distance: 0 });
}

#[test]
fn distance_only() {
    // flags = 0b1_0001: speed absent, distance present at offset 2, 3 bytes.
    let data: Vec<u8> = vec![0x11, 0x00, 0x10, 0x27, 0x00];
    let record = parse_indoor_bike_data(&data).unwrap();
    assert_eq!(record, IndoorBikeData { cadence: 0, speed: 0, distance: 10000 });
}

#[test]
fn distance_uses_exactly_three_bytes() {
    // A fourth byte after a 24-bit distance must not leak into the value.
    let data: Vec<u8> = vec![0x11, 0x00, 0xFF, 0xFF, 0xFF, 0xAB];
    let record = parse_indoor_bike_data(&data).unwrap();
    assert_eq!(record.distance, 0x00FF_FFFF);
}

#[test]
fn average_fields_advance_the_offset() {
    // flags = 0b1111: speed absent (bit 0 set); average speed, cadence and
    // average cadence present. Cadence sits after the skipped average speed,
    // at offset 4.
    let data: Vec<u8> = vec![0x0F, 0x00, 0xAA, 0xBB, 0x7D, 0x00, 0xCC, 0xDD];
    let record = parse_indoor_bike_data(&data).unwrap();
    assert_eq!(record, IndoorBikeData { cadence: 62, speed: 0, distance: 0 });
}

#[test]
fn claimed_field_beyond_buffer_is_malformed() {
    // flags claim distance, but only two of its three bytes are there.
    let data: Vec<u8> = vec![0x11, 0x00, 0x10, 0x27];
    assert_eq!(parse_indoor_bike_data(&data), Err(BleError::MalformedPayload));
    // flags claim speed, but the buffer ends after the flags word.
    let data2: Vec<u8> = vec![0x00, 0x00];
    assert_eq!(parse_indoor_bike_data(&data2), Err(BleError::MalformedPayload));
}

#[test]
fn heart_rate_single_byte_format() {
    let data: Vec<u8> = vec![0x00, 75];
    let record = parse_heart_rate_data(&data).unwrap();
    assert_eq!(record.heart_rate, 75);
    assert_eq!(record.energy_expended, 0);
    assert!(record.rr_intervals.is_empty());
}

#[test]
fn heart_rate_wide_format_energy_and_rr() {
    // flags = 0b1_1001: 16-bit rate, energy expended, RR intervals.
    let data: Vec<u8> = vec![0x19, 0x48, 0x00, 0x34, 0x12, 0x00, 0x04, 0x00, 0x02];
    let record = parse_heart_rate_data(&data).unwrap();
    assert_eq!(record.heart_rate, 72);
    assert_eq!(record.energy_expended, 0x1234);
    assert_eq!(record.rr_intervals, vec![1024, 512]);
}

#[test]
fn heart_rate_malformed_payloads() {
    // Empty buffer.
    assert_eq!(parse_heart_rate_data(&Vec::new()), Err(BleError::MalformedPayload));
    // 16-bit rate claimed, one byte of it given.
    let short_rate: Vec<u8> = vec![0x01, 0x48];
    assert_eq!(parse_heart_rate_data(&short_rate), Err(BleError::MalformedPayload));
    // RR intervals claimed, none given.
    let empty_rr: Vec<u8> = vec![0x10, 75];
    assert_eq!(parse_heart_rate_data(&empty_rr), Err(BleError::MalformedPayload));
    // RR run ending in a half interval.
    let odd_rr: Vec<u8> = vec![0x10, 75, 0x00, 0x04, 0x00];
    assert_eq!(parse_heart_rate_data(&odd_rr), Err(BleError::MalformedPayload));
}
