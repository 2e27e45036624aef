//! Decoder for the Indoor Bike Data GATT characteristic.
//!
//! A notification starts with a little-endian 16-bit flags word; the fields
//! that follow are conditionally present and positionally packed. Bit 0 of
//! the flags, when clear, marks Instantaneous Speed as present; bits 1..=4,
//! when set, mark Average Speed, Instantaneous Cadence, Average Cadence and
//! Total Distance. Average fields advance the offset but are not decoded.
//! Decoding is pure: the record is a function of the bytes alone, and a
//! buffer shorter than any field its flags claim is rejected as malformed.

use vstd::prelude::*;

use crate::error::BleError;

verus! {

/// One decoded Indoor Bike Data notification: speed in km/h, cadence in rpm,
/// total distance in metres (only the lower 24 bits are ever set).
#[derive(Debug, Clone, Copy, PartialEq, Eq, Structural)]
pub struct IndoorBikeData {
    pub cadence: u16,
    pub speed: u16,
    pub distance: u32,
}

enum IndoorBikeDataType {
    Speed,
    Cadence,
    Distance,
}

// Field sizes in octets.
const FLAGS_SIZE: usize = 2;
const INSTANTANEOUS_SPEED_SIZE: usize = 2;
const AVERAGE_SPEED_SIZE: usize = 2;
const INSTANTANEOUS_CADENCE_SIZE: usize = 2;
const AVERAGE_CADENCE_SIZE: usize = 2;
const TOTAL_DISTANCE_SIZE: usize = 3;

/// A 16-bit little-endian value read from two bytes.
pub open spec fn le16(lo: u8, hi: u8) -> u16 {
    (lo + hi * 256) as u16
}

/// A 24-bit little-endian value read from three bytes.
pub open spec fn le24(b0: u8, b1: u8, b2: u8) -> u32 {
    (b0 + b1 * 256 + b2 * 65536) as u32
}

/// The flags word of a notification buffer.
pub open spec fn spec_flags(data: Seq<u8>) -> u16
    recommends
        data.len() >= 2,
{
    le16(data[0], data[1])
}

/// Instantaneous Speed is present when bit 0 of the flags is clear.
pub open spec fn speed_present(flags: u16) -> bool {
    flags % 2 == 0
}

/// Average Speed is present when bit 1 of the flags is set.
pub open spec fn ave_speed_present(flags: u16) -> bool {
    (flags / 2) % 2 == 1
}

/// Instantaneous Cadence is present when bit 2 of the flags is set.
pub open spec fn cadence_present(flags: u16) -> bool {
    (flags / 4) % 2 == 1
}

/// Average Cadence is present when bit 3 of the flags is set.
pub open spec fn ave_cadence_present(flags: u16) -> bool {
    (flags / 8) % 2 == 1
}

/// Total Distance is present when bit 4 of the flags is set.
pub open spec fn distance_present(flags: u16) -> bool {
    (flags / 16) % 2 == 1
}

/// Byte offset of Instantaneous Cadence: flags, then any speed fields.
pub open spec fn spec_cadence_index(flags: u16) -> int {
    2 + (if speed_present(flags) {
        2int
    } else {
        0int
    }) + (if ave_speed_present(flags) {
        2int
    } else {
        0int
    })
}

/// Byte offset of Total Distance: the cadence offset, then any cadence fields.
pub open spec fn spec_distance_index(flags: u16) -> int {
    spec_cadence_index(flags) + (if cadence_present(flags) {
        2int
    } else {
        0int
    }) + (if ave_cadence_present(flags) {
        2int
    } else {
        0int
    })
}

/// The least buffer length that holds every field the flags claim.
pub open spec fn spec_required_len(flags: u16) -> int {
    spec_distance_index(flags) + (if distance_present(flags) {
        3int
    } else {
        0int
    })
}

/// A buffer long enough for its flags word and every field it claims.
pub open spec fn spec_well_formed(data: Seq<u8>) -> bool {
    data.len() >= 2 && data.len() >= spec_required_len(spec_flags(data))
}

/// Instantaneous Speed of a well-formed buffer, in km/h (raw unit 1/100 km/h,
/// truncating); 0 when absent.
pub open spec fn spec_speed(data: Seq<u8>) -> u16 {
    if speed_present(spec_flags(data)) {
        (le16(data[2], data[3]) / 100) as u16
    } else {
        0u16
    }
}

/// Instantaneous Cadence of a well-formed buffer, in rpm (raw unit 1/2 rpm,
/// truncating); 0 when absent.
pub open spec fn spec_cadence(data: Seq<u8>) -> u16 {
    let i = spec_cadence_index(spec_flags(data));
    if cadence_present(spec_flags(data)) {
        (le16(data[i], data[i + 1]) / 2) as u16
    } else {
        0u16
    }
}

/// Total Distance of a well-formed buffer, in metres; 0 when absent.
pub open spec fn spec_distance(data: Seq<u8>) -> u32 {
    let i = spec_distance_index(spec_flags(data));
    if distance_present(spec_flags(data)) {
        le24(data[i], data[i + 1], data[i + 2])
    } else {
        0u32
    }
}

/// What decoding a buffer yields: the three scaled fields when the buffer
/// holds every field its flags claim, `MalformedPayload` otherwise.
pub open spec fn spec_parse(data: Seq<u8>) -> Result<IndoorBikeData, BleError> {
    if spec_well_formed(data) {
        Ok(
            IndoorBikeData {
                cadence: spec_cadence(data),
                speed: spec_speed(data),
                distance: spec_distance(data),
            },
        )
    } else {
        Err(BleError::MalformedPayload)
    }
}

/// Decoding is stateless and pure: what a buffer decodes to is a function of
/// the bytes alone, so decoding the same buffer twice — or in two different
/// calls — yields identical results.
pub proof fn lemma_parse_deterministic(
    data: Seq<u8>,
    r1: Result<IndoorBikeData, BleError>,
    r2: Result<IndoorBikeData, BleError>,
)
    requires
        r1 == spec_parse(data),
        r2 == spec_parse(data),
    ensures
        r1 == r2,
{
}

/// Scale round trip for a buffer whose flags word marks speed, cadence and
/// distance all present (and the average fields absent): the known raw
/// values decode back exactly, after scale conversion — speed truncated
/// /100, cadence truncated /2, distance as is.
pub proof fn lemma_round_trip(raw_speed: u16, raw_cadence: u16, raw_distance: u32)
    requires
        raw_distance < 0x1000000,
    ensures
        ({
            let data = seq![
                0x14u8,
                0u8,
                (raw_speed % 256) as u8,
                (raw_speed / 256) as u8,
                (raw_cadence % 256) as u8,
                (raw_cadence / 256) as u8,
                (raw_distance % 256) as u8,
                ((raw_distance / 256) % 256) as u8,
                (raw_distance / 65536) as u8,
            ];
            spec_parse(data) == Ok::<IndoorBikeData, BleError>(
                (IndoorBikeData {
                    cadence: (raw_cadence / 2) as u16,
                    speed: (raw_speed / 100) as u16,
                    distance: raw_distance,
                }),
            )
        }),
{
    let data = seq![
        0x14u8,
        0u8,
        (raw_speed % 256) as u8,
        (raw_speed / 256) as u8,
        (raw_cadence % 256) as u8,
        (raw_cadence / 256) as u8,
        (raw_distance % 256) as u8,
        ((raw_distance / 256) % 256) as u8,
        (raw_distance / 65536) as u8,
    ];
    assert(spec_flags(data) == 20);
    assert(((raw_speed % 256) as u8) + ((raw_speed / 256) as u8) * 256 == raw_speed)
        by (bit_vector);
    assert(le16(data[2], data[3]) == raw_speed);
    assert(((raw_cadence % 256) as u8) + ((raw_cadence / 256) as u8) * 256 == raw_cadence)
        by (bit_vector);
    assert(le16(data[4], data[5]) == raw_cadence);
    assert(((raw_distance % 256) as u8) + (((raw_distance / 256) % 256) as u8) * 256 + ((
    raw_distance / 65536) as u8) * 65536 == raw_distance) by (bit_vector)
        requires
            raw_distance < 0x1000000,
    ;
    assert(le24(data[6], data[7], data[8]) == raw_distance);
}

/// Scale round trip for a buffer with flags word 0: by the inverted bit-0
/// convention speed is the one field present, and it decodes back to the
/// known raw value truncated /100, with cadence and distance 0.
pub proof fn lemma_round_trip_flags_zero(raw_speed: u16)
    ensures
        ({
            let data = seq![0u8, 0u8, (raw_speed % 256) as u8, (raw_speed / 256) as u8];
            spec_parse(data) == Ok::<IndoorBikeData, BleError>(
                (IndoorBikeData { cadence: 0, speed: (raw_speed / 100) as u16, distance: 0 }),
            )
        }),
{
    let data = seq![0u8, 0u8, (raw_speed % 256) as u8, (raw_speed / 256) as u8];
    assert(spec_flags(data) == 0);
    assert(((raw_speed % 256) as u8) + ((raw_speed / 256) as u8) * 256 == raw_speed)
        by (bit_vector);
    assert(le16(data[2], data[3]) == raw_speed);
}

/// Joins two bytes into a little-endian 16-bit value.
pub fn combine_u8_to_u16(first: u8, second: u8) -> (r: u16)
    ensures
        r == le16(first, second),
{
    proof {
        assert((first as u16) | ((second as u16) << 8) == first + second * 256) by (bit_vector);
    }
    (first as u16) | ((second as u16) << 8)
}

/// Joins three bytes into a little-endian 24-bit value held in 32 bits.
pub fn combine_u8_to_u32(first: u8, second: u8, third: u8) -> (r: u32)
    ensures
        r == le24(first, second, third),
{
    proof {
        assert((first as u32) | ((second as u32) << 8) | ((third as u32) << 16) == first + second
            * 256 + third * 65536) by (bit_vector);
    }
    (first as u32) | ((second as u32) << 8) | ((third as u32) << 16)
}

/// The leading little-endian 16-bit flags word.
pub fn get_flags(data: &Vec<u8>) -> (r: u16)
    requires
        data@.len() >= 2,
    ensures
        r == spec_flags(data@),
{
    combine_u8_to_u16(data[0], data[1])
}

fn is_speed_present(data: &Vec<u8>) -> (r: bool)
    requires
        data@.len() >= 2,
    ensures
        r == speed_present(spec_flags(data@)),
{
    let flags = get_flags(data);
    proof {
        assert((flags & 1 == 0) == (flags % 2 == 0)) by (bit_vector);
    }
    flags & 1 == 0
}

fn is_ave_speed_present(data: &Vec<u8>) -> (r: bool)
    requires
        data@.len() >= 2,
    ensures
        r == ave_speed_present(spec_flags(data@)),
{
    let flags = get_flags(data);
    proof {
        assert((flags & 0b10 == 0b10) == ((flags / 2) % 2 == 1)) by (bit_vector);
    }
    flags & 0b10 == 0b10
}

fn is_cadence_present(data: &Vec<u8>) -> (r: bool)
    requires
        data@.len() >= 2,
    ensures
        r == cadence_present(spec_flags(data@)),
{
    let flags = get_flags(data);
    proof {
        assert((flags & 0b100 == 0b100) == ((flags / 4) % 2 == 1)) by (bit_vector);
    }
    flags & 0b100 == 0b100
}

fn is_ave_cadence_present(data: &Vec<u8>) -> (r: bool)
    requires
        data@.len() >= 2,
    ensures
        r == ave_cadence_present(spec_flags(data@)),
{
    let flags = get_flags(data);
    proof {
        assert((flags & 0b1000 == 0b1000) == ((flags / 8) % 2 == 1)) by (bit_vector);
    }
    flags & 0b1000 == 0b1000
}

fn is_distance_present(data: &Vec<u8>) -> (r: bool)
    requires
        data@.len() >= 2,
    ensures
        r == distance_present(spec_flags(data@)),
{
    let flags = get_flags(data);
    proof {
        assert((flags & 0b10000 == 0b10000) == ((flags / 16) % 2 == 1)) by (bit_vector);
    }
    flags & 0b10000 == 0b10000
}

/// Byte offset of the given field in the buffer, per the flags word.
fn get_data_index(data: &Vec<u8>, data_type: IndoorBikeDataType) -> (r: usize)
    requires
        data@.len() >= 2,
    ensures
        (data_type is Speed ==> r == 2),
        (data_type is Cadence ==> r == spec_cadence_index(spec_flags(data@))),
        (data_type is Distance ==> r == spec_distance_index(spec_flags(data@))),
{
    match data_type {
        IndoorBikeDataType::Speed => FLAGS_SIZE,
        IndoorBikeDataType::Cadence => {
            let mut index = FLAGS_SIZE;
            if is_speed_present(data) {
                index += INSTANTANEOUS_SPEED_SIZE;
            }
            if is_ave_speed_present(data) {
                index += AVERAGE_SPEED_SIZE;
            }
            index
        },
        IndoorBikeDataType::Distance => {
            let mut index = FLAGS_SIZE;
            if is_speed_present(data) {
                index += INSTANTANEOUS_SPEED_SIZE;
            }
            if is_ave_speed_present(data) {
                index += AVERAGE_SPEED_SIZE;
            }
            if is_cadence_present(data) {
                index += INSTANTANEOUS_CADENCE_SIZE;
            }
            if is_ave_cadence_present(data) {
                index += AVERAGE_CADENCE_SIZE;
            }
            index
        },
    }
}

/// Instantaneous Speed in km/h; 0 when the flags mark it absent.
fn get_speed(data: &Vec<u8>) -> (r: u16)
    requires
        spec_well_formed(data@),
    ensures
        r == spec_speed(data@),
{
    // Present if bit 0 of the flags field is set to 0.
    if !is_speed_present(data) {
        return 0;
    }
    let data_index = get_data_index(data, IndoorBikeDataType::Speed);
    let raw_speed = combine_u8_to_u16(data[data_index], data[data_index + 1]);
    // Unit is 1/100 of a kilometer per hour.
    raw_speed / 100
}

/// Instantaneous Cadence in rpm; 0 when the flags mark it absent.
fn get_cadence(data: &Vec<u8>) -> (r: u16)
    requires
        spec_well_formed(data@),
    ensures
        r == spec_cadence(data@),
{
    // Present if bit 2 of the flags field is set to 1.
    if !is_cadence_present(data) {
        return 0;
    }
    let data_index = get_data_index(data, IndoorBikeDataType::Cadence);
    let cadence = combine_u8_to_u16(data[data_index], data[data_index + 1]);
    // Unit is 1/2 of a revolution per minute.
    cadence / 2
}

/// Total Distance in metres; 0 when the flags mark it absent.
fn get_distance(data: &Vec<u8>) -> (r: u32)
    requires
        spec_well_formed(data@),
    ensures
        r == spec_distance(data@),
{
    // Present if bit 4 of the flags field is set to 1.
    if !is_distance_present(data) {
        return 0;
    }
    let data_index = get_data_index(data, IndoorBikeDataType::Distance);
    combine_u8_to_u32(data[data_index], data[data_index + 1], data[data_index + 2])
}

/// The least buffer length that holds every field the flags claim.
fn required_len(flags: u16) -> (r: usize)
    ensures
        r == spec_required_len(flags),
{
    let mut len = FLAGS_SIZE;
    proof {
        assert((flags & 1 == 0) == (flags % 2 == 0)) by (bit_vector);
        assert((flags & 0b10 == 0b10) == ((flags / 2) % 2 == 1)) by (bit_vector);
        assert((flags & 0b100 == 0b100) == ((flags / 4) % 2 == 1)) by (bit_vector);
        assert((flags & 0b1000 == 0b1000) == ((flags / 8) % 2 == 1)) by (bit_vector);
        assert((flags & 0b10000 == 0b10000) == ((flags / 16) % 2 == 1)) by (bit_vector);
    }
    if flags & 1 == 0 {
        len += INSTANTANEOUS_SPEED_SIZE;
    }
    if flags & 0b10 == 0b10 {
        len += AVERAGE_SPEED_SIZE;
    }
    if flags & 0b100 == 0b100 {
        len += INSTANTANEOUS_CADENCE_SIZE;
    }
    if flags & 0b1000 == 0b1000 {
        len += AVERAGE_CADENCE_SIZE;
    }
    if flags & 0b10000 == 0b10000 {
        len += TOTAL_DISTANCE_SIZE;
    }
    len
}

/// Decodes one Indoor Bike Data notification.
///
/// Returns the scaled speed, cadence and distance, each 0 when its flag marks
/// it absent, and `MalformedPayload` when the buffer is shorter than the
/// flags word or than any field the flags claim is present.
pub fn parse_indoor_bike_data(data: &Vec<u8>) -> (r: Result<IndoorBikeData, BleError>)
    ensures
        r == spec_parse(data@),
{
    if data.len() < 2 {
        return Err(BleError::MalformedPayload);
    }
    let flags = get_flags(data);
    if data.len() < required_len(flags) {
        return Err(BleError::MalformedPayload);
    }
    let speed = get_speed(data);
    let cadence = get_cadence(data);
    let distance = get_distance(data);
    Ok(IndoorBikeData { cadence, speed, distance })
}

} // verus!
