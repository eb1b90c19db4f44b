//! The car-status packet: assists, fuel, tyres, damage and energy recovery
//! for every car slot.

use crate::cursor::{le_u16, le_u32, Cursor};
use crate::error::{CodedField, DecodeError, Section};
use crate::f1_2020::car::{ActualTyreCompound, AntiLockBrakes, CarStatusData, DRSStatus,
    ERSDeploymentMode, FuelMix, PacketCarStatusData, TractionControl, VisualTyreCompound,
    CAR_STATUS_MIN_SIZE, TOTAL_CARS};
use crate::f1_2020::header::PacketHeader;
use crate::f1_2020::motion::Wheel;
use crate::f1_2020::session::{spec_parse_flag, parse_flag};
use crate::units::Float32;
use vstd::prelude::*;

verus! {

/// The traction-control table: codes 0 through 2.
pub open spec fn spec_parse_traction_control(value: u8) -> Result<TractionControl, DecodeError> {
    match value {
        0u8 => Ok(TractionControl::Off),
        1u8 => Ok(TractionControl::Low),
        2u8 => Ok(TractionControl::High),
        _ => Err(DecodeError::InvalidEnumValue(CodedField::TractionControl, value as i16)),
    }
}

/// Decodes a traction-control code.
pub fn parse_traction_control(value: u8) -> (r: Result<TractionControl, DecodeError>)
    ensures
        r == spec_parse_traction_control(value),
{
    match value {
        0u8 => Ok(TractionControl::Off),
        1u8 => Ok(TractionControl::Low),
        2u8 => Ok(TractionControl::High),
        _ => Err(DecodeError::InvalidEnumValue(CodedField::TractionControl, value as i16)),
    }
}

/// The fuel-mix table: codes 0 through 3.
pub open spec fn spec_parse_fuel_mix(value: u8) -> Result<FuelMix, DecodeError> {
    match value {
        0u8 => Ok(FuelMix::Lean),
        1u8 => Ok(FuelMix::Standard),
        2u8 => Ok(FuelMix::Rich),
        3u8 => Ok(FuelMix::Max),
        _ => Err(DecodeError::InvalidEnumValue(CodedField::FuelMix, value as i16)),
    }
}

/// Decodes a fuel-mix code.
pub fn parse_fuel_mix(value: u8) -> (r: Result<FuelMix, DecodeError>)
    ensures
        r == spec_parse_fuel_mix(value),
{
    match value {
        0u8 => Ok(FuelMix::Lean),
        1u8 => Ok(FuelMix::Standard),
        2u8 => Ok(FuelMix::Rich),
        3u8 => Ok(FuelMix::Max),
        _ => Err(DecodeError::InvalidEnumValue(CodedField::FuelMix, value as i16)),
    }
}

/// The DRS-allowed table: 0 not allowed, 1 allowed, -1 unknown.
pub open spec fn spec_parse_drs(value: i8) -> Result<DRSStatus, DecodeError> {
    match value {
        0i8 => Ok(DRSStatus::NotAllowed),
        1i8 => Ok(DRSStatus::Allowed),
        -1i8 => Ok(DRSStatus::Unknown),
        _ => Err(DecodeError::InvalidEnumValue(CodedField::DrsAllowed, value as i16)),
    }
}

/// Decodes a DRS-allowed code.
pub fn parse_drs(value: i8) -> (r: Result<DRSStatus, DecodeError>)
    ensures
        r == spec_parse_drs(value),
{
    match value {
        0i8 => Ok(DRSStatus::NotAllowed),
        1i8 => Ok(DRSStatus::Allowed),
        -1i8 => Ok(DRSStatus::Unknown),
        _ => Err(DecodeError::InvalidEnumValue(CodedField::DrsAllowed, value as i16)),
    }
}

/// The ERS-deployment-mode table: codes 0 through 5, one per declared mode.
pub open spec fn spec_parse_ers_deployment_mode(value: u8) -> Result<
    ERSDeploymentMode,
    DecodeError,
> {
    match value {
        0u8 => Ok(ERSDeploymentMode::NoDeployment),
        1u8 => Ok(ERSDeploymentMode::Low),
        2u8 => Ok(ERSDeploymentMode::Medium),
        3u8 => Ok(ERSDeploymentMode::High),
        4u8 => Ok(ERSDeploymentMode::Overtake),
        5u8 => Ok(ERSDeploymentMode::Hotlap),
        _ => Err(DecodeError::InvalidEnumValue(CodedField::ErsDeployMode, value as i16)),
    }
}

/// Decodes an ERS-deployment-mode code.
pub fn parse_ers_deployment_mode(value: u8) -> (r: Result<ERSDeploymentMode, DecodeError>)
    ensures
        r == spec_parse_ers_deployment_mode(value),
{
    match value {
        0u8 => Ok(ERSDeploymentMode::NoDeployment),
        1u8 => Ok(ERSDeploymentMode::Low),
        2u8 => Ok(ERSDeploymentMode::Medium),
        3u8 => Ok(ERSDeploymentMode::High),
        4u8 => Ok(ERSDeploymentMode::Overtake),
        5u8 => Ok(ERSDeploymentMode::Hotlap),
        _ => Err(DecodeError::InvalidEnumValue(CodedField::ErsDeployMode, value as i16)),
    }
}

/// The actual-tyre-compound table: codes 7 through 20, with 0 and 255 both
/// deliberately aliased to `Unknown`.
pub open spec fn spec_parse_actual_tyre_compound(value: u8) -> Result<
    ActualTyreCompound,
    DecodeError,
> {
    match value {
        16u8 => Ok(ActualTyreCompound::C5),
        17u8 => Ok(ActualTyreCompound::C4),
        18u8 => Ok(ActualTyreCompound::C3),
        19u8 => Ok(ActualTyreCompound::C2),
        20u8 => Ok(ActualTyreCompound::C1),
        7u8 => Ok(ActualTyreCompound::Inter),
        8u8 => Ok(ActualTyreCompound::Wet),
        9u8 => Ok(ActualTyreCompound::F1ClassicDry),
        10u8 => Ok(ActualTyreCompound::F1ClassicWet),
        11u8 => Ok(ActualTyreCompound::F2SuperSoft),
        12u8 => Ok(ActualTyreCompound::F2Soft),
        13u8 => Ok(ActualTyreCompound::F2Medium),
        14u8 => Ok(ActualTyreCompound::F2Hard),
        15u8 => Ok(ActualTyreCompound::F2Wet),
        0u8 => Ok(ActualTyreCompound::Unknown),
        255u8 => Ok(ActualTyreCompound::Unknown),
        _ => Err(DecodeError::InvalidEnumValue(CodedField::ActualTyreCompound, value as i16)),
    }
}

/// Decodes an actual-tyre-compound code.
pub fn parse_actual_tyre_compound(value: u8) -> (r: Result<ActualTyreCompound, DecodeError>)
    ensures
        r == spec_parse_actual_tyre_compound(value),
{
    match value {
        16u8 => Ok(ActualTyreCompound::C5),
        17u8 => Ok(ActualTyreCompound::C4),
        18u8 => Ok(ActualTyreCompound::C3),
        19u8 => Ok(ActualTyreCompound::C2),
        20u8 => Ok(ActualTyreCompound::C1),
        7u8 => Ok(ActualTyreCompound::Inter),
        8u8 => Ok(ActualTyreCompound::Wet),
        9u8 => Ok(ActualTyreCompound::F1ClassicDry),
        10u8 => Ok(ActualTyreCompound::F1ClassicWet),
        11u8 => Ok(ActualTyreCompound::F2SuperSoft),
        12u8 => Ok(ActualTyreCompound::F2Soft),
        13u8 => Ok(ActualTyreCompound::F2Medium),
        14u8 => Ok(ActualTyreCompound::F2Hard),
        15u8 => Ok(ActualTyreCompound::F2Wet),
        0u8 => Ok(ActualTyreCompound::Unknown),
        255u8 => Ok(ActualTyreCompound::Unknown),
        _ => Err(DecodeError::InvalidEnumValue(CodedField::ActualTyreCompound, value as i16)),
    }
}

/// The visual-tyre-compound table: codes 7 through 18, with 0 and 255 both
/// deliberately aliased to `Unknown`.
pub open spec fn spec_parse_visual_tyre_compound(value: u8) -> Result<
    VisualTyreCompound,
    DecodeError,
> {
    match value {
        16u8 => Ok(VisualTyreCompound::Soft),
        17u8 => Ok(VisualTyreCompound::Medium),
        18u8 => Ok(VisualTyreCompound::Hard),
        7u8 => Ok(VisualTyreCompound::Inter),
        8u8 => Ok(VisualTyreCompound::Wet),
        9u8 => Ok(VisualTyreCompound::F1ClassicDry),
        10u8 => Ok(VisualTyreCompound::F1ClassicWet),
        11u8 => Ok(VisualTyreCompound::F2SuperSoft),
        12u8 => Ok(VisualTyreCompound::F2Soft),
        13u8 => Ok(VisualTyreCompound::F2Medium),
        14u8 => Ok(VisualTyreCompound::F2Hard),
        15u8 => Ok(VisualTyreCompound::F2Wet),
        0u8 => Ok(VisualTyreCompound::Unknown),
        255u8 => Ok(VisualTyreCompound::Unknown),
        _ => Err(DecodeError::InvalidEnumValue(CodedField::VisualTyreCompound, value as i16)),
    }
}

/// Decodes a visual-tyre-compound code.
pub fn parse_visual_tyre_compound(value: u8) -> (r: Result<VisualTyreCompound, DecodeError>)
    ensures
        r == spec_parse_visual_tyre_compound(value),
{
    match value {
        16u8 => Ok(VisualTyreCompound::Soft),
        17u8 => Ok(VisualTyreCompound::Medium),
        18u8 => Ok(VisualTyreCompound::Hard),
        7u8 => Ok(VisualTyreCompound::Inter),
        8u8 => Ok(VisualTyreCompound::Wet),
        9u8 => Ok(VisualTyreCompound::F1ClassicDry),
        10u8 => Ok(VisualTyreCompound::F1ClassicWet),
        11u8 => Ok(VisualTyreCompound::F2SuperSoft),
        12u8 => Ok(VisualTyreCompound::F2Soft),
        13u8 => Ok(VisualTyreCompound::F2Medium),
        14u8 => Ok(VisualTyreCompound::F2Hard),
        15u8 => Ok(VisualTyreCompound::F2Wet),
        0u8 => Ok(VisualTyreCompound::Unknown),
        255u8 => Ok(VisualTyreCompound::Unknown),
        _ => Err(DecodeError::InvalidEnumValue(CodedField::VisualTyreCompound, value as i16)),
    }
}

/// The anti-lock-brakes table: 0 off, 1 on.
pub open spec fn spec_parse_anti_lock_brakes(value: u8) -> Result<AntiLockBrakes, DecodeError> {
    match value {
        0u8 => Ok(AntiLockBrakes::Off),
        1u8 => Ok(AntiLockBrakes::On),
        _ => Err(DecodeError::InvalidEnumValue(CodedField::AntiLockBrakes, value as i16)),
    }
}

/// Decodes an anti-lock-brakes code.
pub fn parse_anti_lock_brakes(value: u8) -> (r: Result<AntiLockBrakes, DecodeError>)
    ensures
        r == spec_parse_anti_lock_brakes(value),
{
    match value {
        0u8 => Ok(AntiLockBrakes::Off),
        1u8 => Ok(AntiLockBrakes::On),
        _ => Err(DecodeError::InvalidEnumValue(CodedField::AntiLockBrakes, value as i16)),
    }
}

/// The 60-byte status entry laid out at `pos`: the decoded record, or the
/// first error met reading the fields in wire order.
pub open spec fn spec_car_status(s: Seq<u8>, pos: int) -> Result<CarStatusData, DecodeError> {
    if pos + 1 > s.len() {
        Err(DecodeError::UnexpectedEndOfBuffer)
    } else if spec_parse_traction_control(s[pos]) is Err {
        Err(spec_parse_traction_control(s[pos])->Err_0)
    } else if pos + 2 > s.len() {
        Err(DecodeError::UnexpectedEndOfBuffer)
    } else if spec_parse_anti_lock_brakes(s[pos + 1]) is Err {
        Err(spec_parse_anti_lock_brakes(s[pos + 1])->Err_0)
    } else if pos + 3 > s.len() {
        Err(DecodeError::UnexpectedEndOfBuffer)
    } else if spec_parse_fuel_mix(s[pos + 2]) is Err {
        Err(spec_parse_fuel_mix(s[pos + 2])->Err_0)
    } else if pos + 23 > s.len() {
        Err(DecodeError::UnexpectedEndOfBuffer)
    } else if spec_parse_drs(s[pos + 22] as i8) is Err {
        Err(spec_parse_drs(s[pos + 22] as i8)->Err_0)
    } else if pos + 30 > s.len() {
        Err(DecodeError::UnexpectedEndOfBuffer)
    } else if spec_parse_actual_tyre_compound(s[pos + 29]) is Err {
        Err(spec_parse_actual_tyre_compound(s[pos + 29])->Err_0)
    } else if pos + 31 > s.len() {
        Err(DecodeError::UnexpectedEndOfBuffer)
    } else if spec_parse_visual_tyre_compound(s[pos + 30]) is Err {
        Err(spec_parse_visual_tyre_compound(s[pos + 30])->Err_0)
    } else if pos + 43 > s.len() {
        Err(DecodeError::UnexpectedEndOfBuffer)
    } else if spec_parse_flag(s[pos + 42] as i8) is Err {
        Err(spec_parse_flag(s[pos + 42] as i8)->Err_0)
    } else if pos + 48 > s.len() {
        Err(DecodeError::UnexpectedEndOfBuffer)
    } else if spec_parse_ers_deployment_mode(s[pos + 47]) is Err {
        Err(spec_parse_ers_deployment_mode(s[pos + 47])->Err_0)
    } else if pos + 60 > s.len() {
        Err(DecodeError::UnexpectedEndOfBuffer)
    } else {
        Ok(
            CarStatusData {
                traction_control: spec_parse_traction_control(s[pos])->Ok_0,
                anti_lock_brakes: spec_parse_anti_lock_brakes(s[pos + 1])->Ok_0,
                fuel_mix: spec_parse_fuel_mix(s[pos + 2])->Ok_0,
                front_brake_bias: s[pos + 3],
                pit_limiter: s[pos + 4] == 1,
                fuel_in_tank: Float32 { bits: le_u32(s, pos + 5) },
                fuel_capacity: Float32 { bits: le_u32(s, pos + 9) },
                fuel_remaining_laps: Float32 { bits: le_u32(s, pos + 13) },
                max_rpm: le_u16(s, pos + 17),
                idle_rpm: le_u16(s, pos + 19),
                max_gears: s[pos + 21],
                drs_allowed: spec_parse_drs(s[pos + 22] as i8)->Ok_0,
                drs_activation_distance: le_u16(s, pos + 23),
                tyres_wear: Wheel {
                    rear_left: s[pos + 25],
                    rear_right: s[pos + 26],
                    front_left: s[pos + 27],
                    front_right: s[pos + 28],
                },
                actual_tyre_compound: spec_parse_actual_tyre_compound(s[pos + 29])->Ok_0,
                visual_tyre_compound: spec_parse_visual_tyre_compound(s[pos + 30])->Ok_0,
                tyres_age_laps: s[pos + 31],
                tyres_damage: Wheel {
                    rear_left: s[pos + 32],
                    rear_right: s[pos + 33],
                    front_left: s[pos + 34],
                    front_right: s[pos + 35],
                },
                front_left_wing_damage: s[pos + 36],
                front_right_wing_damage: s[pos + 37],
                rear_wing_damage: s[pos + 38],
                drs_fault: s[pos + 39] == 1,
                engine_damage: s[pos + 40],
                gear_box_damage: s[pos + 41],
                vehicle_fia_flags: spec_parse_flag(s[pos + 42] as i8)->Ok_0,
                ers_store_energy: Float32 { bits: le_u32(s, pos + 43) },
                ers_deploy_mode: spec_parse_ers_deployment_mode(s[pos + 47])->Ok_0,
                ers_harvested_this_lap_mguk: Float32 { bits: le_u32(s, pos + 48) },
                ers_harvested_this_lap_mguh: Float32 { bits: le_u32(s, pos + 52) },
                ers_deployed_this_lap: Float32 { bits: le_u32(s, pos + 56) },
            },
        )
    }
}

/// Decodes one 60-byte status entry from the cursor's current position.
#[verifier::rlimit(30)]
fn parse_car_status(cursor: &mut Cursor) -> (r: Result<CarStatusData, DecodeError>)
    ensures
        final(cursor).data == old(cursor).data,
        r == spec_car_status(old(cursor).data@, old(cursor).pos as int),
        r is Ok ==> final(cursor).pos == old(cursor).pos + 60,
{
    let traction_control = parse_traction_control(cursor.read_u8()?)?;
    let anti_lock_brakes = parse_anti_lock_brakes(cursor.read_u8()?)?;
    let fuel_mix = parse_fuel_mix(cursor.read_u8()?)?;
    let front_brake_bias = cursor.read_u8()?;
    let pit_limiter = cursor.read_u8()? == 1;
    let fuel_in_tank = Float32 { bits: cursor.read_u32()? };
    let fuel_capacity = Float32 { bits: cursor.read_u32()? };
    let fuel_remaining_laps = Float32 { bits: cursor.read_u32()? };
    let max_rpm = cursor.read_u16()?;
    let idle_rpm = cursor.read_u16()?;
    let max_gears = cursor.read_u8()?;
    let drs_allowed = parse_drs(cursor.read_i8()?)?;
    let drs_activation_distance = cursor.read_u16()?;
    let tyres_wear = Wheel {
        rear_left: cursor.read_u8()?,
        rear_right: cursor.read_u8()?,
        front_left: cursor.read_u8()?,
        front_right: cursor.read_u8()?,
    };
    let actual_tyre_compound = parse_actual_tyre_compound(cursor.read_u8()?)?;
    let visual_tyre_compound = parse_visual_tyre_compound(cursor.read_u8()?)?;
    let tyres_age_laps = cursor.read_u8()?;
    let tyres_damage = Wheel {
        rear_left: cursor.read_u8()?,
        rear_right: cursor.read_u8()?,
        front_left: cursor.read_u8()?,
        front_right: cursor.read_u8()?,
    };
    let front_left_wing_damage = cursor.read_u8()?;
    let front_right_wing_damage = cursor.read_u8()?;
    let rear_wing_damage = cursor.read_u8()?;
    let drs_fault = cursor.read_u8()? == 1;
    let engine_damage = cursor.read_u8()?;
    let gear_box_damage = cursor.read_u8()?;
    let vehicle_fia_flags = parse_flag(cursor.read_i8()?)?;
    let ers_store_energy = Float32 { bits: cursor.read_u32()? };
    let ers_deploy_mode = parse_ers_deployment_mode(cursor.read_u8()?)?;
    let ers_harvested_this_lap_mguk = Float32 { bits: cursor.read_u32()? };
    let ers_harvested_this_lap_mguh = Float32 { bits: cursor.read_u32()? };
    let ers_deployed_this_lap = Float32 { bits: cursor.read_u32()? };

    Ok(CarStatusData {
        traction_control,
        anti_lock_brakes,
        fuel_mix,
        front_brake_bias,
        pit_limiter,
        fuel_in_tank,
        fuel_capacity,
        fuel_remaining_laps,
        max_rpm,
        idle_rpm,
        max_gears,
        drs_allowed,
        drs_activation_distance,
        tyres_wear,
        actual_tyre_compound,
        visual_tyre_compound,
        tyres_age_laps,
        tyres_damage,
        front_left_wing_damage,
        front_right_wing_damage,
        rear_wing_damage,
        drs_fault,
        engine_damage,
        gear_box_damage,
        vehicle_fia_flags,
        ers_store_energy,
        ers_deploy_mode,
        ers_harvested_this_lap_mguk,
        ers_harvested_this_lap_mguh,
        ers_deployed_this_lap,
    })
}

/// Rejects a declared datagram length other than the exact car-status size.
fn ensure_car_status_size(size: usize) -> (r: Result<(), DecodeError>)
    ensures
        size == 1344 ==> r == Ok::<(), DecodeError>(()),
        size != 1344 ==> r == Err::<(), DecodeError>(
            DecodeError::InvalidSize(Section::CarStatus, size, 1344),
        ),
{
    if size == CAR_STATUS_MIN_SIZE {
        return Ok(());
    }
    Err(DecodeError::InvalidSize(Section::CarStatus, size, CAR_STATUS_MIN_SIZE))
}

/// Everything the car-status decoder promises of its result `r`, for the
/// buffer `s`, payload start `p`, the already-decoded `header`, and the
/// declared datagram length `size`.
pub open spec fn spec_car_status_outcome(
    r: Result<PacketCarStatusData, DecodeError>,
    s: Seq<u8>,
    p: int,
    header: PacketHeader,
    size: usize,
) -> bool {
    &&& size != 1344 ==> r == Err::<PacketCarStatusData, DecodeError>(
        DecodeError::InvalidSize(Section::CarStatus, size, 1344),
    )
    &&& size == 1344 ==> (r is Ok <==> (forall|j: int|
        0 <= j < 22 ==> (#[trigger] spec_car_status(s, p + j * 60)) is Ok))
    &&& size == 1344 && r is Ok ==> {
        &&& r->Ok_0.header == header
        &&& r->Ok_0.car_status_data@.len() == 22
        &&& (forall|j: int|
            0 <= j < 22 ==> r->Ok_0.car_status_data@[j] == (#[trigger] spec_car_status(
                s,
                p + j * 60,
            ))->Ok_0)
    }
    &&& size == 1344 && r is Err ==> (exists|j: int|
        0 <= j < 22 && #[trigger] spec_car_status(s, p + j * 60) == Err::<
            CarStatusData,
            DecodeError,
        >(r->Err_0) && (forall|k: int|
            0 <= k < j ==> (#[trigger] spec_car_status(s, p + k * 60)) is Ok))
}

/// Decodes the car-status payload: 22 status entries, 1320 bytes after the
/// header.
///
/// A declared length other than exactly 1344 is rejected with `InvalidSize`
/// before any field is read (exact-size policy).  Success is exactly the case
/// where all 22 entries decode; on failure the error is the first entry error
/// in wire order.
#[verifier::rlimit(50)]
pub fn parse_car_status_data(cursor: &mut Cursor, header: PacketHeader, size: usize) -> (r: Result<
    PacketCarStatusData,
    DecodeError,
>)
    ensures
        final(cursor).data == old(cursor).data,
        spec_car_status_outcome(r, old(cursor).data@, old(cursor).pos as int, header, size),
        size != 1344 ==> final(cursor).pos == old(cursor).pos,
        r is Ok ==> final(cursor).pos == old(cursor).pos + 1320,
{
    ensure_car_status_size(size)?;

    let ghost s = cursor.data@;
    let ghost p0 = cursor.pos as int;

    let mut car_status_data: Vec<CarStatusData> = Vec::new();
    let mut i: usize = 0;
    while i < TOTAL_CARS
        invariant
            size == 1344,
            s == old(cursor).data@,
            p0 == old(cursor).pos as int,
            cursor.data == old(cursor).data,
            0 <= i <= 22,
            cursor.pos == p0 + i * 60,
            car_status_data@.len() == i,
            forall|j: int|
                0 <= j < i ==> (#[trigger] spec_car_status(s, p0 + j * 60)) is Ok
                    && car_status_data@[j] == spec_car_status(s, p0 + j * 60)->Ok_0,
        decreases 22 - i,
    {
        match parse_car_status(cursor) {
            Ok(csd) => {
                car_status_data.push(csd);
            },
            Err(e) => {
                proof {
                    assert(spec_car_status(s, p0 + (i as int) * 60) == Err::<
                        CarStatusData,
                        DecodeError,
                    >(e));
                }
                return Err(e);
            },
        }
        i = i + 1;
    }

    Ok(PacketCarStatusData { header, car_status_data })
}

} // verus!
