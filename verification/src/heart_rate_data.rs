//! Decoder for the Heart Rate Measurement GATT characteristic.
//!
//! The notification starts with an 8-bit flags field. Bit 0 selects the
//! width of the heart-rate value (clear: one byte, set: two bytes,
//! little-endian); bit 3, when set, marks a 16-bit Energy Expended field;
//! bit 4, when set, marks a run of 16-bit RR intervals that fills the rest
//! of the buffer. Fields are positional and cumulative, as in the Indoor
//! Bike Data decoder. A buffer shorter than any claimed field — or one whose
//! claimed RR run is empty or ends in a half interval — is malformed.

use vstd::prelude::*;

use crate::error::BleError;
use crate::indoor_bike_data::{combine_u8_to_u16, le16};

verus! {

/// One decoded Heart Rate Measurement notification: the heart rate in beats
/// per minute, energy expended in kilojoules (0 when absent), and the RR
/// intervals of the notification in units of 1/1024 s (empty when absent).
#[derive(Debug, PartialEq, Eq)]
pub struct HeartRateData {
    pub heart_rate: u16,
    pub energy_expended: u16,
    pub rr_intervals: Vec<u16>,
}

/// The heart-rate value is two bytes wide when bit 0 of the flags is set.
pub open spec fn hr_format_u16(flags: u8) -> bool {
    flags % 2 == 1
}

/// Energy Expended is present when bit 3 of the flags is set.
pub open spec fn energy_present(flags: u8) -> bool {
    (flags / 8) % 2 == 1
}

/// RR intervals are present when bit 4 of the flags is set.
pub open spec fn rr_present(flags: u8) -> bool {
    (flags / 16) % 2 == 1
}

/// Byte offset of Energy Expended: the flags byte, then the rate value.
pub open spec fn spec_energy_index(flags: u8) -> int {
    1 + (if hr_format_u16(flags) {
        2int
    } else {
        1int
    })
}

/// Byte offset of the RR-interval run.
pub open spec fn spec_rr_index(flags: u8) -> int {
    spec_energy_index(flags) + (if energy_present(flags) {
        2int
    } else {
        0int
    })
}

/// A buffer long enough for its flags and every field they claim, with a
/// whole, non-empty RR run when one is claimed.
pub open spec fn spec_hr_well_formed(data: Seq<u8>) -> bool {
    let flags = data[0];
    data.len() >= 1 && data.len() >= spec_rr_index(flags) && (rr_present(flags)
        ==> data.len() >= spec_rr_index(flags) + 2 && (data.len() - spec_rr_index(flags)) % 2
        == 0)
}

/// The heart rate of a well-formed buffer, in beats per minute.
pub open spec fn spec_heart_rate(data: Seq<u8>) -> u16 {
    if hr_format_u16(data[0]) {
        le16(data[1], data[2])
    } else {
        data[1] as u16
    }
}

/// Energy Expended of a well-formed buffer, in kilojoules; 0 when absent.
pub open spec fn spec_energy(data: Seq<u8>) -> u16 {
    let i = spec_energy_index(data[0]);
    if energy_present(data[0]) {
        le16(data[i], data[i + 1])
    } else {
        0u16
    }
}

/// The run of little-endian 16-bit values from offset `i` to the last whole
/// pair of bytes in the buffer.
pub open spec fn spec_rr_run(data: Seq<u8>, i: int) -> Seq<u16>
    decreases data.len() - i,
{
    if i + 2 <= data.len() {
        seq![le16(data[i], data[i + 1])] + spec_rr_run(data, i + 2)
    } else {
        Seq::empty()
    }
}

/// The RR intervals of a well-formed buffer; empty when the flags claim none.
pub open spec fn spec_rr_intervals(data: Seq<u8>) -> Seq<u16> {
    if rr_present(data[0]) {
        spec_rr_run(data, spec_rr_index(data[0]))
    } else {
        Seq::empty()
    }
}

/// Decodes one Heart Rate Measurement notification.
///
/// Returns the heart rate, energy expended (0 when its flag is clear) and
/// the RR intervals (empty when their flag is clear), and `MalformedPayload`
/// when the buffer is shorter than any field its flags claim, or when a
/// claimed RR run is empty or ends in a half interval.
pub fn parse_heart_rate_data(data: &Vec<u8>) -> (r: Result<HeartRateData, BleError>)
    ensures
        spec_hr_well_formed(data@) ==> (r matches Ok(v) && v.heart_rate == spec_heart_rate(data@)
            && v.energy_expended == spec_energy(data@) && v.rr_intervals@ == spec_rr_intervals(
            data@,
        )),
        !spec_hr_well_formed(data@) ==> r == Err::<HeartRateData, BleError>(
            BleError::MalformedPayload,
        ),
{
    if data.len() < 1 {
        return Err(BleError::MalformedPayload);
    }
    let flags = data[0];
    proof {
        assert((flags & 1 == 1) == (flags % 2 == 1)) by (bit_vector);
        assert((flags & 0b1000 == 0b1000) == ((flags / 8) % 2 == 1)) by (bit_vector);
        assert((flags & 0b10000 == 0b10000) == ((flags / 16) % 2 == 1)) by (bit_vector);
    }
    let format_u16 = flags & 1 == 1;
    let has_energy = flags & 0b1000 == 0b1000;
    let has_rr = flags & 0b10000 == 0b10000;
    let energy_index: usize = if format_u16 {
        3
    } else {
        2
    };
    let rr_index: usize = if has_energy {
        energy_index + 2
    } else {
        energy_index
    };
    if data.len() < rr_index {
        return Err(BleError::MalformedPayload);
    }
    if has_rr && (data.len() < rr_index + 2 || (data.len() - rr_index) % 2 != 0) {
        return Err(BleError::MalformedPayload);
    }
    let heart_rate = if format_u16 {
        combine_u8_to_u16(data[1], data[2])
    } else {
        data[1] as u16
    };
    let energy_expended = if has_energy {
        combine_u8_to_u16(data[energy_index], data[energy_index + 1])
    } else {
        0
    };
    let mut rr_intervals: Vec<u16> = Vec::new();
    if has_rr {
        let mut i: usize = rr_index;
        while i < data.len() - 1
            invariant
                rr_index <= i <= data@.len(),
                rr_index + 2 <= data@.len(),
                spec_rr_run(data@, rr_index as int) == rr_intervals@ + spec_rr_run(
                    data@,
                    i as int,
                ),
            decreases data@.len() - i,
        {
            let value = combine_u8_to_u16(data[i], data[i + 1]);
            proof {
                assert(rr_intervals@ + (seq![le16(data@[i as int], data@[i as int + 1])]
                    + spec_rr_run(data@, i as int + 2)) =~= rr_intervals@.push(
                    le16(data@[i as int], data@[i as int + 1]),
                ) + spec_rr_run(data@, i as int + 2));
            }
            rr_intervals.push(value);
            i += 2;
        }
        proof {
            assert(spec_rr_run(data@, i as int) =~= Seq::<u16>::empty());
            assert(rr_intervals@ + Seq::<u16>::empty() =~= rr_intervals@);
        }
    }
    Ok(HeartRateData { heart_rate, energy_expended, rr_intervals })
}

} // verus!
