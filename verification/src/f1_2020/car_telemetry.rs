//! The car-telemetry packet: live physics readings for every car slot, plus
//! the player's button and multi-function-display state.

use crate::cursor::{le_u16, le_u32, Cursor};
use crate::error::{CodedField, DecodeError, Section};
use crate::f1_2020::car::{CarTelemetryData, MFDPanel, PacketCarTelemetryData, SurfaceType,
    CAR_TELEMETRY_MIN_SIZE, TOTAL_CARS};
use crate::f1_2020::header::PacketHeader;
use crate::f1_2020::motion::Wheel;
use crate::units::Float32;
use vstd::prelude::*;

verus! {

/// The surface-type table: codes 0 through 12.
pub open spec fn spec_parse_surface_type(value: u8) -> Result<SurfaceType, DecodeError> {
    match value {
        0u8 => Ok(SurfaceType::Tarmac),
        1u8 => Ok(SurfaceType::RumbleStrip),
        2u8 => Ok(SurfaceType::Concrete),
        3u8 => Ok(SurfaceType::Rock),
        4u8 => Ok(SurfaceType::Gravel),
        5u8 => Ok(SurfaceType::Mud),
        6u8 => Ok(SurfaceType::Sand),
        7u8 => Ok(SurfaceType::Grass),
        8u8 => Ok(SurfaceType::Water),
        9u8 => Ok(SurfaceType::Cobblestone),
        10u8 => Ok(SurfaceType::Metal),
        11u8 => Ok(SurfaceType::Ridged),
        12u8 => Ok(SurfaceType::Unknown),
        _ => Err(DecodeError::InvalidEnumValue(CodedField::SurfaceType, value as i16)),
    }
}

/// Decodes a surface-type code.
pub fn parse_surface_type(value: u8) -> (r: Result<SurfaceType, DecodeError>)
    ensures
        r == spec_parse_surface_type(value),
{
    match value {
        0u8 => Ok(SurfaceType::Tarmac),
        1u8 => Ok(SurfaceType::RumbleStrip),
        2u8 => Ok(SurfaceType::Concrete),
        3u8 => Ok(SurfaceType::Rock),
        4u8 => Ok(SurfaceType::Gravel),
        5u8 => Ok(SurfaceType::Mud),
        6u8 => Ok(SurfaceType::Sand),
        7u8 => Ok(SurfaceType::Grass),
        8u8 => Ok(SurfaceType::Water),
        9u8 => Ok(SurfaceType::Cobblestone),
        10u8 => Ok(SurfaceType::Metal),
        11u8 => Ok(SurfaceType::Ridged),
        12u8 => Ok(SurfaceType::Unknown),
        _ => Err(DecodeError::InvalidEnumValue(CodedField::SurfaceType, value as i16)),
    }
}

/// The MFD-panel table: codes 0 through 4, and 255 for closed.
pub open spec fn spec_parse_mfd_panel(value: u8) -> Result<MFDPanel, DecodeError> {
    match value {
        0u8 => Ok(MFDPanel::CarSetup),
        1u8 => Ok(MFDPanel::Pits),
        2u8 => Ok(MFDPanel::Damage),
        3u8 => Ok(MFDPanel::Engine),
        4u8 => Ok(MFDPanel::Temperatures),
        255u8 => Ok(MFDPanel::Closed),
        _ => Err(DecodeError::InvalidEnumValue(CodedField::MfdPanel, value as i16)),
    }
}

/// Decodes an MFD-panel code.
pub fn parse_mfd_panel(value: u8) -> (r: Result<MFDPanel, DecodeError>)
    ensures
        r == spec_parse_mfd_panel(value),
{
    match value {
        0u8 => Ok(MFDPanel::CarSetup),
        1u8 => Ok(MFDPanel::Pits),
        2u8 => Ok(MFDPanel::Damage),
        3u8 => Ok(MFDPanel::Engine),
        4u8 => Ok(MFDPanel::Temperatures),
        255u8 => Ok(MFDPanel::Closed),
        _ => Err(DecodeError::InvalidEnumValue(CodedField::MfdPanel, value as i16)),
    }
}

/// The 58-byte telemetry entry laid out at `pos`: the decoded record, or the
/// first error met reading the fields in wire order.
pub open spec fn spec_car_telemetry(s: Seq<u8>, pos: int) -> Result<CarTelemetryData, DecodeError> {
    if pos + 55 > s.len() {
        Err(DecodeError::UnexpectedEndOfBuffer)
    } else if spec_parse_surface_type(s[pos + 54]) is Err {
        Err(spec_parse_surface_type(s[pos + 54])->Err_0)
    } else if pos + 56 > s.len() {
        Err(DecodeError::UnexpectedEndOfBuffer)
    } else if spec_parse_surface_type(s[pos + 55]) is Err {
        Err(spec_parse_surface_type(s[pos + 55])->Err_0)
    } else if pos + 57 > s.len() {
        Err(DecodeError::UnexpectedEndOfBuffer)
    } else if spec_parse_surface_type(s[pos + 56]) is Err {
        Err(spec_parse_surface_type(s[pos + 56])->Err_0)
    } else if pos + 58 > s.len() {
        Err(DecodeError::UnexpectedEndOfBuffer)
    } else if spec_parse_surface_type(s[pos + 57]) is Err {
        Err(spec_parse_surface_type(s[pos + 57])->Err_0)
    } else {
        Ok(
            CarTelemetryData {
                speed: le_u16(s, pos),
                throttle: Float32 { bits: le_u32(s, pos + 2) },
                steer: Float32 { bits: le_u32(s, pos + 6) },
                brake: Float32 { bits: le_u32(s, pos + 10) },
                clutch: s[pos + 14],
                gear: s[pos + 15] as i8,
                engine_rpm: le_u16(s, pos + 16),
                drs: s[pos + 18] == 1,
                rev_lights_percent: s[pos + 19],
                brakes_temperature: Wheel {
                    rear_left: le_u16(s, pos + 20),
                    rear_right: le_u16(s, pos + 22),
                    front_left: le_u16(s, pos + 24),
                    front_right: le_u16(s, pos + 26),
                },
                tyres_surface_temperature: Wheel {
                    rear_left: s[pos + 28],
                    rear_right: s[pos + 29],
                    front_left: s[pos + 30],
                    front_right: s[pos + 31],
                },
                tyres_inner_temperature: Wheel {
                    rear_left: s[pos + 32],
                    rear_right: s[pos + 33],
                    front_left: s[pos + 34],
                    front_right: s[pos + 35],
                },
                engine_temperature: le_u16(s, pos + 36),
                tyre_pressures: Wheel {
                    rear_left: Float32 { bits: le_u32(s, pos + 38) },
                    rear_right: Float32 { bits: le_u32(s, pos + 42) },
                    front_left: Float32 { bits: le_u32(s, pos + 46) },
                    front_right: Float32 { bits: le_u32(s, pos + 50) },
                },
                surface_types: Wheel {
                    rear_left: spec_parse_surface_type(s[pos + 54])->Ok_0,
                    rear_right: spec_parse_surface_type(s[pos + 55])->Ok_0,
                    front_left: spec_parse_surface_type(s[pos + 56])->Ok_0,
                    front_right: spec_parse_surface_type(s[pos + 57])->Ok_0,
                },
            },
        )
    }
}

/// The 7-byte player trailer after the telemetry entries: button bitmask, the
/// two MFD-panel codes, and the suggested gear.
pub open spec fn spec_telemetry_trailer(s: Seq<u8>, pos: int) -> Result<
    (u32, MFDPanel, MFDPanel, i8),
    DecodeError,
> {
    if pos + 5 > s.len() {
        Err(DecodeError::UnexpectedEndOfBuffer)
    } else if spec_parse_mfd_panel(s[pos + 4]) is Err {
        Err(spec_parse_mfd_panel(s[pos + 4])->Err_0)
    } else if pos + 6 > s.len() {
        Err(DecodeError::UnexpectedEndOfBuffer)
    } else if spec_parse_mfd_panel(s[pos + 5]) is Err {
        Err(spec_parse_mfd_panel(s[pos + 5])->Err_0)
    } else if pos + 7 > s.len() {
        Err(DecodeError::UnexpectedEndOfBuffer)
    } else {
        Ok(
            (
                le_u32(s, pos),
                spec_parse_mfd_panel(s[pos + 4])->Ok_0,
                spec_parse_mfd_panel(s[pos + 5])->Ok_0,
                s[pos + 6] as i8,
            ),
        )
    }
}

/// Decodes one 58-byte telemetry entry from the cursor's current position.
#[verifier::rlimit(30)]
fn parse_car_telemetry(cursor: &mut Cursor) -> (r: Result<CarTelemetryData, DecodeError>)
    ensures
        final(cursor).data == old(cursor).data,
        r == spec_car_telemetry(old(cursor).data@, old(cursor).pos as int),
        r is Ok ==> final(cursor).pos == old(cursor).pos + 58,
{
    let speed = cursor.read_u16()?;
    let throttle = Float32 { bits: cursor.read_u32()? };
    let steer = Float32 { bits: cursor.read_u32()? };
    let brake = Float32 { bits: cursor.read_u32()? };
    let clutch = cursor.read_u8()?;
    let gear = cursor.read_i8()?;
    let engine_rpm = cursor.read_u16()?;
    let drs = cursor.read_u8()? == 1;
    let rev_lights_percent = cursor.read_u8()?;
    let brakes_temperature = Wheel {
        rear_left: cursor.read_u16()?,
        rear_right: cursor.read_u16()?,
        front_left: cursor.read_u16()?,
        front_right: cursor.read_u16()?,
    };
    let tyres_surface_temperature = Wheel {
        rear_left: cursor.read_u8()?,
        rear_right: cursor.read_u8()?,
        front_left: cursor.read_u8()?,
        front_right: cursor.read_u8()?,
    };
    let tyres_inner_temperature = Wheel {
        rear_left: cursor.read_u8()?,
        rear_right: cursor.read_u8()?,
        front_left: cursor.read_u8()?,
        front_right: cursor.read_u8()?,
    };
    let engine_temperature = cursor.read_u16()?;
    let tyre_pressures = Wheel {
        rear_left: Float32 { bits: cursor.read_u32()? },
        rear_right: Float32 { bits: cursor.read_u32()? },
        front_left: Float32 { bits: cursor.read_u32()? },
        front_right: Float32 { bits: cursor.read_u32()? },
    };
    let surface_types = Wheel {
        rear_left: parse_surface_type(cursor.read_u8()?)?,
        rear_right: parse_surface_type(cursor.read_u8()?)?,
        front_left: parse_surface_type(cursor.read_u8()?)?,
        front_right: parse_surface_type(cursor.read_u8()?)?,
    };

    Ok(CarTelemetryData {
        speed,
        throttle,
        steer,
        brake,
        clutch,
        gear,
        engine_rpm,
        drs,
        rev_lights_percent,
        brakes_temperature,
        tyres_surface_temperature,
        tyres_inner_temperature,
        engine_temperature,
        tyre_pressures,
        surface_types,
    })
}

/// Rejects a declared datagram length other than the exact car-telemetry size.
fn ensure_car_telemetry_size(size: usize) -> (r: Result<(), DecodeError>)
    ensures
        size == 1307 ==> r == Ok::<(), DecodeError>(()),
        size != 1307 ==> r == Err::<(), DecodeError>(
            DecodeError::InvalidSize(Section::CarTelemetry, size, 1307),
        ),
{
    if size == CAR_TELEMETRY_MIN_SIZE {
        return Ok(());
    }
    Err(DecodeError::InvalidSize(Section::CarTelemetry, size, CAR_TELEMETRY_MIN_SIZE))
}

/// Everything the car-telemetry decoder promises of its result `r`, for the
/// buffer `s`, payload start `p`, the already-decoded `header`, and the
/// declared datagram length `size`.
pub open spec fn spec_car_telemetry_outcome(
    r: Result<PacketCarTelemetryData, DecodeError>,
    s: Seq<u8>,
    p: int,
    header: PacketHeader,
    size: usize,
) -> bool {
    &&& size != 1307 ==> r == Err::<PacketCarTelemetryData, DecodeError>(
        DecodeError::InvalidSize(Section::CarTelemetry, size, 1307),
    )
    &&& size == 1307 ==> (r is Ok <==> ((forall|j: int|
        0 <= j < 22 ==> (#[trigger] spec_car_telemetry(s, p + j * 58)) is Ok)
        && spec_telemetry_trailer(s, p + 1276) is Ok))
    &&& size == 1307 && r is Ok ==> {
        &&& r->Ok_0.header == header
        &&& r->Ok_0.car_telemetry_data@.len() == 22
        &&& (forall|j: int|
            0 <= j < 22 ==> r->Ok_0.car_telemetry_data@[j] == (#[trigger] spec_car_telemetry(
                s,
                p + j * 58,
            ))->Ok_0)
        &&& r->Ok_0.button_status == spec_telemetry_trailer(s, p + 1276)->Ok_0.0
        &&& r->Ok_0.mfd_panel_index == spec_telemetry_trailer(s, p + 1276)->Ok_0.1
        &&& r->Ok_0.mfd_panel_index_secondary_player == spec_telemetry_trailer(
            s,
            p + 1276,
        )->Ok_0.2
        &&& r->Ok_0.suggested_gear == spec_telemetry_trailer(s, p + 1276)->Ok_0.3
    }
    &&& size == 1307 && r is Err ==> ((exists|j: int|
        0 <= j < 22 && #[trigger] spec_car_telemetry(s, p + j * 58) == Err::<
            CarTelemetryData,
            DecodeError,
        >(r->Err_0) && (forall|k: int|
            0 <= k < j ==> (#[trigger] spec_car_telemetry(s, p + k * 58)) is Ok)) || ((forall|
        j: int,
    |
        0 <= j < 22 ==> (#[trigger] spec_car_telemetry(s, p + j * 58)) is Ok)
        && spec_telemetry_trailer(s, p + 1276) == Err::<(u32, MFDPanel, MFDPanel, i8), DecodeError>(
        r->Err_0,
    )))
}

/// Decodes the car-telemetry payload: 22 telemetry entries followed by the
/// 7-byte player trailer, 1283 bytes after the header.
///
/// A declared length other than exactly 1307 is rejected with `InvalidSize`
/// before any field is read (exact-size policy).  Success is exactly the case
/// where all 22 entries and the trailer decode; on failure the error is the
/// first error in wire order.
#[verifier::rlimit(50)]
pub fn parse_car_telemetry_data(cursor: &mut Cursor, header: PacketHeader, size: usize) -> (r:
    Result<PacketCarTelemetryData, DecodeError>)
    ensures
        final(cursor).data == old(cursor).data,
        spec_car_telemetry_outcome(r, old(cursor).data@, old(cursor).pos as int, header, size),
        size != 1307 ==> final(cursor).pos == old(cursor).pos,
        r is Ok ==> final(cursor).pos == old(cursor).pos + 1283,
{
    ensure_car_telemetry_size(size)?;

    let ghost s = cursor.data@;
    let ghost p0 = cursor.pos as int;

    let mut car_telemetry_data: Vec<CarTelemetryData> = Vec::new();
    let mut i: usize = 0;
    while i < TOTAL_CARS
        invariant
            size == 1307,
            s == old(cursor).data@,
            p0 == old(cursor).pos as int,
            cursor.data == old(cursor).data,
            0 <= i <= 22,
            cursor.pos == p0 + i * 58,
            car_telemetry_data@.len() == i,
            forall|j: int|
                0 <= j < i ==> (#[trigger] spec_car_telemetry(s, p0 + j * 58)) is Ok
                    && car_telemetry_data@[j] == spec_car_telemetry(s, p0 + j * 58)->Ok_0,
        decreases 22 - i,
    {
        match parse_car_telemetry(cursor) {
            Ok(ctd) => {
                car_telemetry_data.push(ctd);
            },
            Err(e) => {
                proof {
                    assert(spec_car_telemetry(s, p0 + (i as int) * 58) == Err::<
                        CarTelemetryData,
                        DecodeError,
                    >(e));
                }
                return Err(e);
            },
        }
        i = i + 1;
    }

    let button_status = cursor.read_u32()?;
    let mfd_panel_index = parse_mfd_panel(cursor.read_u8()?)?;
    let mfd_panel_index_secondary_player = parse_mfd_panel(cursor.read_u8()?)?;
    let suggested_gear = cursor.read_i8()?;

    Ok(PacketCarTelemetryData {
        header,
        car_telemetry_data,
        button_status,
        mfd_panel_index,
        mfd_panel_index_secondary_player,
        suggested_gear,
    })
}

} // verus!
