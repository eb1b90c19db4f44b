//! The motion packet: physics state for every car slot.

use crate::cursor::{le_u16, le_u32, Cursor};
use crate::error::{DecodeError, Section};
use crate::f1_2020::car::TOTAL_CARS;
use crate::f1_2020::header::PacketHeader;
use crate::units::Float32;
use vstd::prelude::*;

verus! {

/// Minimum expected size of a motion datagram.
pub const MOTION_MIN_SIZE: usize = 1464;

/// Motion state of a single car.
#[derive(Debug, Clone, Copy, PartialEq, Eq, Structural)]
pub struct CarMotionData {
    pub world_position_x: Float32,
    pub world_position_y: Float32,
    pub world_position_z: Float32,
    pub world_velocity_x: Float32,
    pub world_velocity_y: Float32,
    pub world_velocity_z: Float32,
    /// Forward direction, normalised fixed-point (value / 32767.0).
    pub world_forward_dir_x: i16,
    pub world_forward_dir_y: i16,
    pub world_forward_dir_z: i16,
    /// Right direction, normalised fixed-point (value / 32767.0).
    pub world_right_dir_x: i16,
    pub world_right_dir_y: i16,
    pub world_right_dir_z: i16,
    pub g_force_lateral: Float32,
    pub g_force_longitudinal: Float32,
    pub g_force_vertical: Float32,
    pub yaw: Float32,
    pub pitch: Float32,
    pub roll: Float32,
}

/// A four-value container keyed by wheel position.
#[derive(Debug, Clone, Copy, PartialEq, Eq, Structural)]
pub struct Wheel<T: Copy + Clone> {
    pub rear_left: T,
    pub rear_right: T,
    pub front_left: T,
    pub front_right: T,
}

/// The motion packet: per-car motion entries plus extra player-car data.
#[derive(Debug, Clone, PartialEq, Eq)]
pub struct PacketMotionData {
    pub header: PacketHeader,
    pub motion_data: Vec<CarMotionData>,
    pub suspension_position: Wheel<Float32>,
    pub suspension_velocity: Wheel<Float32>,
    pub suspension_acceleration: Wheel<Float32>,
    pub wheel_speed: Wheel<Float32>,
    pub wheel_slip: Wheel<Float32>,
    pub local_velocity_x: Float32,
    pub local_velocity_y: Float32,
    pub local_velocity_z: Float32,
    pub angular_velocity_x: Float32,
    pub angular_velocity_y: Float32,
    pub angular_velocity_z: Float32,
    pub angular_acceleration_x: Float32,
    pub angular_acceleration_y: Float32,
    pub angular_acceleration_z: Float32,
    pub front_wheels_angle: Float32,
}

/// The 32-bit float field at `pos`, as its bit pattern.
pub open spec fn spec_f32(s: Seq<u8>, pos: int) -> Float32 {
    Float32 { bits: le_u32(s, pos) }
}

/// Four consecutive 32-bit float fields at `pos`, in wheel order
/// rear-left, rear-right, front-left, front-right.
pub open spec fn spec_wheel_f32(s: Seq<u8>, pos: int) -> Wheel<Float32> {
    Wheel {
        rear_left: spec_f32(s, pos),
        rear_right: spec_f32(s, pos + 4),
        front_left: spec_f32(s, pos + 8),
        front_right: spec_f32(s, pos + 12),
    }
}

/// The 60-byte motion entry laid out at `pos`.
pub open spec fn spec_car_motion(s: Seq<u8>, pos: int) -> CarMotionData {
    CarMotionData {
        world_position_x: spec_f32(s, pos),
        world_position_y: spec_f32(s, pos + 4),
        world_position_z: spec_f32(s, pos + 8),
        world_velocity_x: spec_f32(s, pos + 12),
        world_velocity_y: spec_f32(s, pos + 16),
        world_velocity_z: spec_f32(s, pos + 20),
        world_forward_dir_x: le_u16(s, pos + 24) as i16,
        world_forward_dir_y: le_u16(s, pos + 26) as i16,
        world_forward_dir_z: le_u16(s, pos + 28) as i16,
        world_right_dir_x: le_u16(s, pos + 30) as i16,
        world_right_dir_y: le_u16(s, pos + 32) as i16,
        world_right_dir_z: le_u16(s, pos + 34) as i16,
        g_force_lateral: spec_f32(s, pos + 36),
        g_force_longitudinal: spec_f32(s, pos + 40),
        g_force_vertical: spec_f32(s, pos + 44),
        yaw: spec_f32(s, pos + 48),
        pitch: spec_f32(s, pos + 52),
        roll: spec_f32(s, pos + 56),
    }
}

/// Reads one 32-bit float field as its bit pattern.
pub(crate) fn read_f32(cursor: &mut Cursor) -> (r: Result<Float32, DecodeError>)
    ensures
        final(cursor).data == old(cursor).data,
        old(cursor).pos + 4 <= old(cursor).data@.len() ==> r == Ok::<Float32, DecodeError>(
            spec_f32(old(cursor).data@, old(cursor).pos as int),
        ) && final(cursor).pos == old(cursor).pos + 4,
        old(cursor).pos + 4 > old(cursor).data@.len() ==> r == Err::<Float32, DecodeError>(
            DecodeError::UnexpectedEndOfBuffer,
        ) && final(cursor).pos == old(cursor).pos,
{
    match cursor.read_u32() {
        Ok(bits) => Ok(Float32 { bits }),
        Err(e) => Err(e),
    }
}

/// Reads four consecutive 32-bit float fields in wheel order.
pub(crate) fn read_wheel_f32(cursor: &mut Cursor) -> (r: Result<Wheel<Float32>, DecodeError>)
    ensures
        final(cursor).data == old(cursor).data,
        old(cursor).pos + 16 <= old(cursor).data@.len() ==> r == Ok::<Wheel<Float32>, DecodeError>(
            spec_wheel_f32(old(cursor).data@, old(cursor).pos as int),
        ) && final(cursor).pos == old(cursor).pos + 16,
        old(cursor).pos + 16 > old(cursor).data@.len() ==> r == Err::<Wheel<Float32>, DecodeError>(
            DecodeError::UnexpectedEndOfBuffer,
        ),
{
    let rear_left = read_f32(cursor)?;
    let rear_right = read_f32(cursor)?;
    let front_left = read_f32(cursor)?;
    let front_right = read_f32(cursor)?;
    Ok(Wheel { rear_left, rear_right, front_left, front_right })
}

/// Decodes one 60-byte motion entry from the cursor's current position.
fn parse_car_motion(cursor: &mut Cursor) -> (r: Result<CarMotionData, DecodeError>)
    ensures
        final(cursor).data == old(cursor).data,
        old(cursor).pos + 60 <= old(cursor).data@.len() ==> r == Ok::<CarMotionData, DecodeError>(
            spec_car_motion(old(cursor).data@, old(cursor).pos as int),
        ) && final(cursor).pos == old(cursor).pos + 60,
        old(cursor).pos + 60 > old(cursor).data@.len() ==> r == Err::<CarMotionData, DecodeError>(
            DecodeError::UnexpectedEndOfBuffer,
        ),
{
    let world_position_x = read_f32(cursor)?;
    let world_position_y = read_f32(cursor)?;
    let world_position_z = read_f32(cursor)?;
    let world_velocity_x = read_f32(cursor)?;
    let world_velocity_y = read_f32(cursor)?;
    let world_velocity_z = read_f32(cursor)?;
    let world_forward_dir_x = cursor.read_i16()?;
    let world_forward_dir_y = cursor.read_i16()?;
    let world_forward_dir_z = cursor.read_i16()?;
    let world_right_dir_x = cursor.read_i16()?;
    let world_right_dir_y = cursor.read_i16()?;
    let world_right_dir_z = cursor.read_i16()?;
    let g_force_lateral = read_f32(cursor)?;
    let g_force_longitudinal = read_f32(cursor)?;
    let g_force_vertical = read_f32(cursor)?;
    let yaw = read_f32(cursor)?;
    let pitch = read_f32(cursor)?;
    let roll = read_f32(cursor)?;

    Ok(CarMotionData {
        world_position_x,
        world_position_y,
        world_position_z,
        world_velocity_x,
        world_velocity_y,
        world_velocity_z,
        world_forward_dir_x,
        world_forward_dir_y,
        world_forward_dir_z,
        world_right_dir_x,
        world_right_dir_y,
        world_right_dir_z,
        g_force_lateral,
        g_force_longitudinal,
        g_force_vertical,
        yaw,
        pitch,
        roll,
    })
}

/// Rejects a declared datagram length below the motion minimum.
fn ensure_motion_size(size: usize) -> (r: Result<(), DecodeError>)
    ensures
        size >= 1464 ==> r == Ok::<(), DecodeError>(()),
        size < 1464 ==> r == Err::<(), DecodeError>(
            DecodeError::InvalidSize(Section::Motion, size, 1464),
        ),
{
    if size < MOTION_MIN_SIZE {
        return Err(DecodeError::InvalidSize(Section::Motion, size, MOTION_MIN_SIZE));
    }
    Ok(())
}

/// Everything the motion decoder promises of its result `r`, for the buffer
/// `s`, payload start `p`, the already-decoded `header`, and the declared
/// datagram length `size`.
pub open spec fn spec_motion_outcome(
    r: Result<PacketMotionData, DecodeError>,
    s: Seq<u8>,
    p: int,
    header: PacketHeader,
    size: usize,
) -> bool {
    &&& size < 1464 ==> r == Err::<PacketMotionData, DecodeError>(
        DecodeError::InvalidSize(Section::Motion, size, 1464),
    )
    &&& size >= 1464 && p + 1440 > s.len() ==> r == Err::<PacketMotionData, DecodeError>(
        DecodeError::UnexpectedEndOfBuffer,
    )
    &&& size >= 1464 && p + 1440 <= s.len() ==> {
        &&& r is Ok
        &&& r->Ok_0.header == header
        &&& r->Ok_0.motion_data@.len() == 22
        &&& (forall|j: int|
            0 <= j < 22 ==> r->Ok_0.motion_data@[j] == spec_car_motion(s, p + j * 60))
        &&& r->Ok_0.suspension_position == spec_wheel_f32(s, p + 1320)
        &&& r->Ok_0.suspension_velocity == spec_wheel_f32(s, p + 1336)
        &&& r->Ok_0.suspension_acceleration == spec_wheel_f32(s, p + 1352)
        &&& r->Ok_0.wheel_speed == spec_wheel_f32(s, p + 1368)
        &&& r->Ok_0.wheel_slip == spec_wheel_f32(s, p + 1384)
        &&& r->Ok_0.local_velocity_x == spec_f32(s, p + 1400)
        &&& r->Ok_0.local_velocity_y == spec_f32(s, p + 1404)
        &&& r->Ok_0.local_velocity_z == spec_f32(s, p + 1408)
        &&& r->Ok_0.angular_velocity_x == spec_f32(s, p + 1412)
        &&& r->Ok_0.angular_velocity_y == spec_f32(s, p + 1416)
        &&& r->Ok_0.angular_velocity_z == spec_f32(s, p + 1420)
        &&& r->Ok_0.angular_acceleration_x == spec_f32(s, p + 1424)
        &&& r->Ok_0.angular_acceleration_y == spec_f32(s, p + 1428)
        &&& r->Ok_0.angular_acceleration_z == spec_f32(s, p + 1432)
        &&& r->Ok_0.front_wheels_angle == spec_f32(s, p + 1436)
    }
}

/// Decodes the motion payload: 22 motion entries, five wheel quads, and the
/// player-car scalar fields, 1440 bytes in all after the header.
///
/// A declared length below 1464 is rejected with `InvalidSize` before any
/// field is read; a longer datagram is accepted (minimum-size policy).  The
/// payload itself holds no coded field, so with enough bytes in the buffer
/// the decode always succeeds.
pub fn parse_motion_data(cursor: &mut Cursor, header: PacketHeader, size: usize) -> (r: Result<
    PacketMotionData,
    DecodeError,
>)
    ensures
        final(cursor).data == old(cursor).data,
        spec_motion_outcome(r, old(cursor).data@, old(cursor).pos as int, header, size),
        size < 1464 ==> final(cursor).pos == old(cursor).pos,
        r is Ok ==> final(cursor).pos == old(cursor).pos + 1440,
{
    ensure_motion_size(size)?;

    let ghost s = cursor.data@;
    let ghost p0 = cursor.pos as int;

    let mut car_motion_data: Vec<CarMotionData> = Vec::new();
    let mut i: usize = 0;
    while i < TOTAL_CARS
        invariant
            size >= 1464,
            s == old(cursor).data@,
            p0 == old(cursor).pos as int,
            cursor.data == old(cursor).data,
            0 <= i <= 22,
            cursor.pos == p0 + i * 60,
            car_motion_data@.len() == i,
            forall|j: int| 0 <= j < i ==> car_motion_data@[j] == spec_car_motion(s, p0 + j * 60),
        decreases 22 - i,
    {
        let car_motion = parse_car_motion(cursor)?;
        car_motion_data.push(car_motion);
        i = i + 1;
    }

    let suspension_position = read_wheel_f32(cursor)?;
    let suspension_velocity = read_wheel_f32(cursor)?;
    let suspension_acceleration = read_wheel_f32(cursor)?;
    let wheel_speed = read_wheel_f32(cursor)?;
    let wheel_slip = read_wheel_f32(cursor)?;

    let local_velocity_x = read_f32(cursor)?;
    let local_velocity_y = read_f32(cursor)?;
    let local_velocity_z = read_f32(cursor)?;
    let angular_velocity_x = read_f32(cursor)?;
    let angular_velocity_y = read_f32(cursor)?;
    let angular_velocity_z = read_f32(cursor)?;
    let angular_acceleration_x = read_f32(cursor)?;
    let angular_acceleration_y = read_f32(cursor)?;
    let angular_acceleration_z = read_f32(cursor)?;
    let front_wheels_angle = read_f32(cursor)?;

    Ok(PacketMotionData {
        header,
        motion_data: car_motion_data,
        suspension_position,
        suspension_velocity,
        suspension_acceleration,
        wheel_speed,
        wheel_slip,
        local_velocity_x,
        local_velocity_y,
        local_velocity_z,
        angular_velocity_x,
        angular_velocity_y,
        angular_velocity_z,
        angular_acceleration_x,
        angular_acceleration_y,
        angular_acceleration_z,
        front_wheels_angle,
    })
}

} // verus!
