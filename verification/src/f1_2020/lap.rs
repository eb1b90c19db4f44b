//! The lap packet: lap timing and status for every car slot.

use crate::cursor::{le_u16, le_u32, Cursor};
use crate::error::{CodedField, DecodeError, Section};
use crate::f1_2020::car::TOTAL_CARS;
use crate::f1_2020::header::PacketHeader;
use crate::units::{Float32, Millis16, Seconds32};
use vstd::prelude::*;

verus! {

/// Minimum expected size of a lap datagram.
pub const LAP_DATA_MIN_SIZE: usize = 1190;

/// Pit status of a car.
#[derive(Debug, Clone, Copy, PartialEq, Eq, Structural)]
pub enum PitStatus {
    /// Wire code 0: not in the pits.
    NoPit,
    Pitting,
    PitArea,
}

/// What the driver is currently doing.
#[derive(Debug, Clone, Copy, PartialEq, Eq, Structural)]
pub enum DriverStatus {
    Garage,
    FlyingLap,
    InLap,
    OutLap,
    OnTrack,
}

/// Result status of a car.
#[derive(Debug, Clone, Copy, PartialEq, Eq, Structural)]
pub enum ResultStatus {
    Invalid,
    Inactive,
    Active,
    Finished,
    Disqualified,
    NotClassified,
    Retired,
}

/// Lap timing and status of a single car.  Lap times arrive as float seconds,
/// sector times as integer milliseconds; the two encodings are kept apart.
#[derive(Debug, Clone, Copy, PartialEq, Eq, Structural)]
pub struct LapData {
    /// Last lap time, seconds as 32-bit floating point.
    pub last_lap_time: Seconds32,
    /// Current time around the lap, seconds as 32-bit floating point.
    pub current_lap_time: Seconds32,
    /// Sector 1 time in milliseconds.
    pub sector_1_time: Millis16,
    /// Sector 2 time in milliseconds.
    pub sector_2_time: Millis16,
    /// Best lap time of the session, seconds as 32-bit floating point.
    pub best_lap_time: Seconds32,
    pub best_lap_num: u8,
    /// Sector 1 time of the best lap in milliseconds.
    pub best_lap_sector_1_time: Millis16,
    /// Sector 2 time of the best lap in milliseconds.
    pub best_lap_sector_2_time: Millis16,
    /// Sector 3 time of the best lap in milliseconds.
    pub best_lap_sector_3_time: Millis16,
    /// Best overall sector 1 time of the session in milliseconds.
    pub best_overall_sector_1_time: Millis16,
    pub best_overall_sector_1_lap_num: u8,
    /// Best overall sector 2 time of the session in milliseconds.
    pub best_overall_sector_2_time: Millis16,
    pub best_overall_sector_2_lap_num: u8,
    /// Best overall sector 3 time of the session in milliseconds.
    pub best_overall_sector_3_time: Millis16,
    pub best_overall_sector_3_lap_num: u8,
    /// Distance around the current lap in metres.
    pub lap_distance: Float32,
    /// Total distance covered in the session in metres.
    pub total_distance: Float32,
    /// Delta to the safety car, seconds as 32-bit floating point.
    pub safety_car_delta: Seconds32,
    pub car_position: u8,
    pub current_lap_num: u8,
    pub pit_status: PitStatus,
    pub sector: u8,
    pub current_lap_invalid: bool,
    pub penalties: u8,
    pub grid_position: u8,
    pub driver_status: DriverStatus,
    pub result_status: ResultStatus,
}

/// The lap packet: one lap entry per car slot.
#[derive(Debug, Clone, PartialEq, Eq)]
pub struct PacketLapData {
    pub header: PacketHeader,
    pub lap_data: Vec<LapData>,
}

/// The pit-status table: codes 0 through 2.
pub open spec fn spec_parse_pit_status(value: u8) -> Result<PitStatus, DecodeError> {
    match value {
        0u8 => Ok(PitStatus::NoPit),
        1u8 => Ok(PitStatus::Pitting),
        2u8 => Ok(PitStatus::PitArea),
        _ => Err(DecodeError::InvalidEnumValue(CodedField::PitStatus, value as i16)),
    }
}

/// The driver-status table: codes 0 through 4.
pub open spec fn spec_parse_driver_status(value: u8) -> Result<DriverStatus, DecodeError> {
    match value {
        0u8 => Ok(DriverStatus::Garage),
        1u8 => Ok(DriverStatus::FlyingLap),
        2u8 => Ok(DriverStatus::InLap),
        3u8 => Ok(DriverStatus::OutLap),
        4u8 => Ok(DriverStatus::OnTrack),
        _ => Err(DecodeError::InvalidEnumValue(CodedField::DriverStatus, value as i16)),
    }
}

/// The result-status table: codes 0 through 6.
pub open spec fn spec_parse_result_status(value: u8) -> Result<ResultStatus, DecodeError> {
    match value {
        0u8 => Ok(ResultStatus::Invalid),
        1u8 => Ok(ResultStatus::Inactive),
        2u8 => Ok(ResultStatus::Active),
        3u8 => Ok(ResultStatus::Finished),
        4u8 => Ok(ResultStatus::Disqualified),
        5u8 => Ok(ResultStatus::NotClassified),
        6u8 => Ok(ResultStatus::Retired),
        _ => Err(DecodeError::InvalidEnumValue(CodedField::ResultStatus, value as i16)),
    }
}

/// Reads one byte and decodes it through the pit-status table.
pub fn parse_pit_status(cursor: &mut Cursor) -> (r: Result<PitStatus, DecodeError>)
    ensures
        final(cursor).data == old(cursor).data,
        old(cursor).pos + 1 <= old(cursor).data@.len() ==> r == spec_parse_pit_status(
            old(cursor).data@[old(cursor).pos as int],
        ) && final(cursor).pos == old(cursor).pos + 1,
        old(cursor).pos + 1 > old(cursor).data@.len() ==> r == Err::<PitStatus, DecodeError>(
            DecodeError::UnexpectedEndOfBuffer,
        ) && final(cursor).pos == old(cursor).pos,
{
    let value = cursor.read_u8()?;
    match value {
        0u8 => Ok(PitStatus::NoPit),
        1u8 => Ok(PitStatus::Pitting),
        2u8 => Ok(PitStatus::PitArea),
        _ => Err(DecodeError::InvalidEnumValue(CodedField::PitStatus, value as i16)),
    }
}

/// Reads one byte and decodes it through the driver-status table.
pub fn parse_driver_status(cursor: &mut Cursor) -> (r: Result<DriverStatus, DecodeError>)
    ensures
        final(cursor).data == old(cursor).data,
        old(cursor).pos + 1 <= old(cursor).data@.len() ==> r == spec_parse_driver_status(
            old(cursor).data@[old(cursor).pos as int],
        ) && final(cursor).pos == old(cursor).pos + 1,
        old(cursor).pos + 1 > old(cursor).data@.len() ==> r == Err::<DriverStatus, DecodeError>(
            DecodeError::UnexpectedEndOfBuffer,
        ) && final(cursor).pos == old(cursor).pos,
{
    let value = cursor.read_u8()?;
    match value {
        0u8 => Ok(DriverStatus::Garage),
        1u8 => Ok(DriverStatus::FlyingLap),
        2u8 => Ok(DriverStatus::InLap),
        3u8 => Ok(DriverStatus::OutLap),
        4u8 => Ok(DriverStatus::OnTrack),
        _ => Err(DecodeError::InvalidEnumValue(CodedField::DriverStatus, value as i16)),
    }
}

/// Reads one byte and decodes it through the result-status table.
pub fn parse_result_status(cursor: &mut Cursor) -> (r: Result<ResultStatus, DecodeError>)
    ensures
        final(cursor).data == old(cursor).data,
        old(cursor).pos + 1 <= old(cursor).data@.len() ==> r == spec_parse_result_status(
            old(cursor).data@[old(cursor).pos as int],
        ) && final(cursor).pos == old(cursor).pos + 1,
        old(cursor).pos + 1 > old(cursor).data@.len() ==> r == Err::<ResultStatus, DecodeError>(
            DecodeError::UnexpectedEndOfBuffer,
        ) && final(cursor).pos == old(cursor).pos,
{
    let value = cursor.read_u8()?;
    match value {
        0u8 => Ok(ResultStatus::Invalid),
        1u8 => Ok(ResultStatus::Inactive),
        2u8 => Ok(ResultStatus::Active),
        3u8 => Ok(ResultStatus::Finished),
        4u8 => Ok(ResultStatus::Disqualified),
        5u8 => Ok(ResultStatus::NotClassified),
        6u8 => Ok(ResultStatus::Retired),
        _ => Err(DecodeError::InvalidEnumValue(CodedField::ResultStatus, value as i16)),
    }
}

/// The 53-byte lap entry laid out at `pos`: the decoded record, or the first
/// error met reading the fields in wire order.
pub open spec fn spec_lap_entry(s: Seq<u8>, pos: int) -> Result<LapData, DecodeError> {
    if pos + 47 > s.len() {
        Err(DecodeError::UnexpectedEndOfBuffer)
    } else if spec_parse_pit_status(s[pos + 46]) is Err {
        Err(spec_parse_pit_status(s[pos + 46])->Err_0)
    } else if pos + 52 > s.len() {
        Err(DecodeError::UnexpectedEndOfBuffer)
    } else if spec_parse_driver_status(s[pos + 51]) is Err {
        Err(spec_parse_driver_status(s[pos + 51])->Err_0)
    } else if pos + 53 > s.len() {
        Err(DecodeError::UnexpectedEndOfBuffer)
    } else if spec_parse_result_status(s[pos + 52]) is Err {
        Err(spec_parse_result_status(s[pos + 52])->Err_0)
    } else {
        Ok(
            LapData {
                last_lap_time: Seconds32 { bits: le_u32(s, pos) },
                current_lap_time: Seconds32 { bits: le_u32(s, pos + 4) },
                sector_1_time: Millis16 { millis: le_u16(s, pos + 8) },
                sector_2_time: Millis16 { millis: le_u16(s, pos + 10) },
                best_lap_time: Seconds32 { bits: le_u32(s, pos + 12) },
                best_lap_num: s[pos + 16],
                best_lap_sector_1_time: Millis16 { millis: le_u16(s, pos + 17) },
                best_lap_sector_2_time: Millis16 { millis: le_u16(s, pos + 19) },
                best_lap_sector_3_time: Millis16 { millis: le_u16(s, pos + 21) },
                best_overall_sector_1_time: Millis16 { millis: le_u16(s, pos + 23) },
                best_overall_sector_1_lap_num: s[pos + 25],
                best_overall_sector_2_time: Millis16 { millis: le_u16(s, pos + 26) },
                best_overall_sector_2_lap_num: s[pos + 28],
                best_overall_sector_3_time: Millis16 { millis: le_u16(s, pos + 29) },
                best_overall_sector_3_lap_num: s[pos + 31],
                lap_distance: Float32 { bits: le_u32(s, pos + 32) },
                total_distance: Float32 { bits: le_u32(s, pos + 36) },
                safety_car_delta: Seconds32 { bits: le_u32(s, pos + 40) },
                car_position: s[pos + 44],
                current_lap_num: s[pos + 45],
                pit_status: spec_parse_pit_status(s[pos + 46])->Ok_0,
                sector: s[pos + 47],
                current_lap_invalid: s[pos + 48] == 1,
                penalties: s[pos + 49],
                grid_position: s[pos + 50],
                driver_status: spec_parse_driver_status(s[pos + 51])->Ok_0,
                result_status: spec_parse_result_status(s[pos + 52])->Ok_0,
            },
        )
    }
}

/// Decodes one 53-byte lap entry from the cursor's current position.
fn parse_lap(cursor: &mut Cursor) -> (r: Result<LapData, DecodeError>)
    ensures
        final(cursor).data == old(cursor).data,
        r == spec_lap_entry(old(cursor).data@, old(cursor).pos as int),
        r is Ok ==> final(cursor).pos == old(cursor).pos + 53,
{
    let last_lap_time = Seconds32 { bits: cursor.read_u32()? };
    let current_lap_time = Seconds32 { bits: cursor.read_u32()? };
    let sector_1_time = Millis16 { millis: cursor.read_u16()? };
    let sector_2_time = Millis16 { millis: cursor.read_u16()? };
    let best_lap_time = Seconds32 { bits: cursor.read_u32()? };
    let best_lap_num = cursor.read_u8()?;
    let best_lap_sector_1_time = Millis16 { millis: cursor.read_u16()? };
    let best_lap_sector_2_time = Millis16 { millis: cursor.read_u16()? };
    let best_lap_sector_3_time = Millis16 { millis: cursor.read_u16()? };
    let best_overall_sector_1_time = Millis16 { millis: cursor.read_u16()? };
    let best_overall_sector_1_lap_num = cursor.read_u8()?;
    let best_overall_sector_2_time = Millis16 { millis: cursor.read_u16()? };
    let best_overall_sector_2_lap_num = cursor.read_u8()?;
    let best_overall_sector_3_time = Millis16 { millis: cursor.read_u16()? };
    let best_overall_sector_3_lap_num = cursor.read_u8()?;
    let lap_distance = Float32 { bits: cursor.read_u32()? };
    let total_distance = Float32 { bits: cursor.read_u32()? };
    let safety_car_delta = Seconds32 { bits: cursor.read_u32()? };
    let car_position = cursor.read_u8()?;
    let current_lap_num = cursor.read_u8()?;
    let pit_status = parse_pit_status(cursor)?;
    let sector = cursor.read_u8()?;
    let current_lap_invalid = cursor.read_u8()? == 1;
    let penalties = cursor.read_u8()?;
    let grid_position = cursor.read_u8()?;
    let driver_status = parse_driver_status(cursor)?;
    let result_status = parse_result_status(cursor)?;

    Ok(LapData {
        last_lap_time,
        current_lap_time,
        sector_1_time,
        sector_2_time,
        best_lap_time,
        best_lap_num,
        best_lap_sector_1_time,
        best_lap_sector_2_time,
        best_lap_sector_3_time,
        best_overall_sector_1_time,
        best_overall_sector_1_lap_num,
        best_overall_sector_2_time,
        best_overall_sector_2_lap_num,
        best_overall_sector_3_time,
        best_overall_sector_3_lap_num,
        lap_distance,
        total_distance,
        safety_car_delta,
        car_position,
        current_lap_num,
        pit_status,
        sector,
        current_lap_invalid,
        penalties,
        grid_position,
        driver_status,
        result_status,
    })
}

/// Rejects a declared datagram length below the lap minimum.
fn ensure_lap_data_size(size: usize) -> (r: Result<(), DecodeError>)
    ensures
        size >= 1190 ==> r == Ok::<(), DecodeError>(()),
        size < 1190 ==> r == Err::<(), DecodeError>(
            DecodeError::InvalidSize(Section::Lap, size, 1190),
        ),
{
    if size < LAP_DATA_MIN_SIZE {
        return Err(DecodeError::InvalidSize(Section::Lap, size, LAP_DATA_MIN_SIZE));
    }
    Ok(())
}

/// Everything the lap decoder promises of its result `r`, for the buffer
/// `s`, payload start `p`, the already-decoded `header`, and the declared
/// datagram length `size`.
pub open spec fn spec_lap_outcome(
    r: Result<PacketLapData, DecodeError>,
    s: Seq<u8>,
    p: int,
    header: PacketHeader,
    size: usize,
) -> bool {
    &&& size < 1190 ==> r == Err::<PacketLapData, DecodeError>(
        DecodeError::InvalidSize(Section::Lap, size, 1190),
    )
    &&& size >= 1190 ==> (r is Ok <==> (forall|j: int|
        0 <= j < 22 ==> (#[trigger] spec_lap_entry(s, p + j * 53)) is Ok))
    &&& size >= 1190 && r is Ok ==> {
        &&& r->Ok_0.header == header
        &&& r->Ok_0.lap_data@.len() == 22
        &&& (forall|j: int|
            0 <= j < 22 ==> r->Ok_0.lap_data@[j] == spec_lap_entry(s, p + j * 53)->Ok_0)
    }
    &&& size >= 1190 && r is Err ==> (exists|j: int|
        0 <= j < 22 && #[trigger] spec_lap_entry(s, p + j * 53) == Err::<LapData, DecodeError>(
            r->Err_0,
        ) && (forall|k: int| 0 <= k < j ==> (#[trigger] spec_lap_entry(s, p + k * 53)) is Ok))
}

/// Decodes the lap payload: 22 lap entries, 1166 bytes after the header.
///
/// A declared length below 1190 is rejected with `InvalidSize` before any
/// field is read (minimum-size policy).  Success is exactly the case where
/// all 22 entries decode; on failure the error is the first entry error in
/// wire order.
#[verifier::rlimit(50)]
pub fn parse_lap_data(cursor: &mut Cursor, header: PacketHeader, size: usize) -> (r: Result<
    PacketLapData,
    DecodeError,
>)
    ensures
        final(cursor).data == old(cursor).data,
        spec_lap_outcome(r, old(cursor).data@, old(cursor).pos as int, header, size),
        size < 1190 ==> final(cursor).pos == old(cursor).pos,
        r is Ok ==> final(cursor).pos == old(cursor).pos + 1166,
{
    ensure_lap_data_size(size)?;

    let ghost s = cursor.data@;
    let ghost p0 = cursor.pos as int;

    let mut laps: Vec<LapData> = Vec::new();
    let mut i: usize = 0;
    while i < TOTAL_CARS
        invariant
            size >= 1190,
            s == old(cursor).data@,
            p0 == old(cursor).pos as int,
            cursor.data == old(cursor).data,
            0 <= i <= 22,
            cursor.pos == p0 + i * 53,
            laps@.len() == i,
            forall|j: int|
                0 <= j < i ==> (#[trigger] spec_lap_entry(s, p0 + j * 53)) is Ok && laps@[j]
                    == spec_lap_entry(s, p0 + j * 53)->Ok_0,
        decreases 22 - i,
    {
        match parse_lap(cursor) {
            Ok(lap) => {
                laps.push(lap);
            },
            Err(e) => {
                proof {
                    assert(spec_lap_entry(s, p0 + (i as int) * 53) == Err::<LapData, DecodeError>(
                        e,
                    ));
                }
                return Err(e);
            },
        }
        i = i + 1;
    }

    Ok(PacketLapData { header, lap_data: laps })
}

} // verus!
