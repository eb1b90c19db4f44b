//! The car-setups packet: the setup of every car slot.

use crate::cursor::{le_u32, Cursor};
use crate::error::{DecodeError, Section};
use crate::f1_2020::car::{CarSetupData, PacketCarSetupData, TyrePressure, CAR_SETUP_MIN_SIZE,
    TOTAL_CARS};
use crate::f1_2020::header::PacketHeader;
use crate::units::Float32;
use vstd::prelude::*;

verus! {

/// The 49-byte setup entry laid out at `pos`.
pub open spec fn spec_car_setup(s: Seq<u8>, pos: int) -> CarSetupData {
    CarSetupData {
        front_wing: s[pos],
        rear_wing: s[pos + 1],
        on_throttle: s[pos + 2],
        off_throttle: s[pos + 3],
        front_camber: Float32 { bits: le_u32(s, pos + 4) },
        rear_camber: Float32 { bits: le_u32(s, pos + 8) },
        front_toe: Float32 { bits: le_u32(s, pos + 12) },
        rear_toe: Float32 { bits: le_u32(s, pos + 16) },
        front_suspension: s[pos + 20],
        rear_suspension: s[pos + 21],
        front_anti_roll_bar: s[pos + 22],
        rear_anti_roll_bar: s[pos + 23],
        front_suspension_height: s[pos + 24],
        rear_suspension_height: s[pos + 25],
        brake_pressure: s[pos + 26],
        brake_bias: s[pos + 27],
        rear_tyre_pressure: TyrePressure {
            left: Float32 { bits: le_u32(s, pos + 28) },
            right: Float32 { bits: le_u32(s, pos + 32) },
        },
        front_tyre_pressure: TyrePressure {
            left: Float32 { bits: le_u32(s, pos + 36) },
            right: Float32 { bits: le_u32(s, pos + 40) },
        },
        ballast: s[pos + 44],
        fuel_load: Float32 { bits: le_u32(s, pos + 45) },
    }
}

/// Decodes one 49-byte setup entry from the cursor's current position.
fn parse_car_setup(cursor: &mut Cursor) -> (r: Result<CarSetupData, DecodeError>)
    ensures
        final(cursor).data == old(cursor).data,
        old(cursor).pos + 49 <= old(cursor).data@.len() ==> r == Ok::<CarSetupData, DecodeError>(
            spec_car_setup(old(cursor).data@, old(cursor).pos as int),
        ) && final(cursor).pos == old(cursor).pos + 49,
        old(cursor).pos + 49 > old(cursor).data@.len() ==> r == Err::<CarSetupData, DecodeError>(
            DecodeError::UnexpectedEndOfBuffer,
        ),
{
    let front_wing = cursor.read_u8()?;
    let rear_wing = cursor.read_u8()?;
    let on_throttle = cursor.read_u8()?;
    let off_throttle = cursor.read_u8()?;
    let front_camber = Float32 { bits: cursor.read_u32()? };
    let rear_camber = Float32 { bits: cursor.read_u32()? };
    let front_toe = Float32 { bits: cursor.read_u32()? };
    let rear_toe = Float32 { bits: cursor.read_u32()? };
    let front_suspension = cursor.read_u8()?;
    let rear_suspension = cursor.read_u8()?;
    let front_anti_roll_bar = cursor.read_u8()?;
    let rear_anti_roll_bar = cursor.read_u8()?;
    let front_suspension_height = cursor.read_u8()?;
    let rear_suspension_height = cursor.read_u8()?;
    let brake_pressure = cursor.read_u8()?;
    let brake_bias = cursor.read_u8()?;
    let rear_tyre_pressure = TyrePressure {
        left: Float32 { bits: cursor.read_u32()? },
        right: Float32 { bits: cursor.read_u32()? },
    };
    let front_tyre_pressure = TyrePressure {
        left: Float32 { bits: cursor.read_u32()? },
        right: Float32 { bits: cursor.read_u32()? },
    };
    let ballast = cursor.read_u8()?;
    let fuel_load = Float32 { bits: cursor.read_u32()? };

    Ok(CarSetupData {
        front_wing,
        rear_wing,
        on_throttle,
        off_throttle,
        front_camber,
        rear_camber,
        front_toe,
        rear_toe,
        front_suspension,
        rear_suspension,
        front_anti_roll_bar,
        rear_anti_roll_bar,
        front_suspension_height,
        rear_suspension_height,
        brake_pressure,
        brake_bias,
        rear_tyre_pressure,
        front_tyre_pressure,
        ballast,
        fuel_load,
    })
}

/// Rejects a declared datagram length other than the exact car-setups size.
fn ensure_car_setup_size(size: usize) -> (r: Result<(), DecodeError>)
    ensures
        size == 1102 ==> r == Ok::<(), DecodeError>(()),
        size != 1102 ==> r == Err::<(), DecodeError>(
            DecodeError::InvalidSize(Section::CarSetups, size, 1102),
        ),
{
    if size == CAR_SETUP_MIN_SIZE {
        return Ok(());
    }
    Err(DecodeError::InvalidSize(Section::CarSetups, size, CAR_SETUP_MIN_SIZE))
}

/// Everything the car-setups decoder promises of its result `r`, for the
/// buffer `s`, payload start `p`, the already-decoded `header`, and the
/// declared datagram length `size`.
pub open spec fn spec_car_setup_outcome(
    r: Result<PacketCarSetupData, DecodeError>,
    s: Seq<u8>,
    p: int,
    header: PacketHeader,
    size: usize,
) -> bool {
    &&& size != 1102 ==> r == Err::<PacketCarSetupData, DecodeError>(
        DecodeError::InvalidSize(Section::CarSetups, size, 1102),
    )
    &&& size == 1102 && p + 1078 > s.len() ==> r == Err::<PacketCarSetupData, DecodeError>(
        DecodeError::UnexpectedEndOfBuffer,
    )
    &&& size == 1102 && p + 1078 <= s.len() ==> {
        &&& r is Ok
        &&& r->Ok_0.header == header
        &&& r->Ok_0.car_setup_data@.len() == 22
        &&& (forall|j: int|
            0 <= j < 22 ==> r->Ok_0.car_setup_data@[j] == spec_car_setup(s, p + j * 49))
    }
}

/// Decodes the car-setups payload: 22 setup entries, 1078 bytes after the
/// header.
///
/// A declared length other than exactly 1102 is rejected with `InvalidSize`
/// before any field is read (exact-size policy).  The payload holds no coded
/// field, so with enough bytes in the buffer the decode always succeeds.
pub fn parse_car_setup_data(cursor: &mut Cursor, header: PacketHeader, size: usize) -> (r: Result<
    PacketCarSetupData,
    DecodeError,
>)
    ensures
        final(cursor).data == old(cursor).data,
        spec_car_setup_outcome(r, old(cursor).data@, old(cursor).pos as int, header, size),
        size != 1102 ==> final(cursor).pos == old(cursor).pos,
        r is Ok ==> final(cursor).pos == old(cursor).pos + 1078,
{
    ensure_car_setup_size(size)?;

    let ghost s = cursor.data@;
    let ghost p0 = cursor.pos as int;

    let mut car_setup_data: Vec<CarSetupData> = Vec::new();
    let mut i: usize = 0;
    while i < TOTAL_CARS
        invariant
            size == 1102,
            s == old(cursor).data@,
            p0 == old(cursor).pos as int,
            cursor.data == old(cursor).data,
            0 <= i <= 22,
            cursor.pos == p0 + i * 49,
            i > 0 ==> p0 + i * 49 <= s.len(),
            car_setup_data@.len() == i,
            forall|j: int| 0 <= j < i ==> car_setup_data@[j] == spec_car_setup(s, p0 + j * 49),
        decreases 22 - i,
    {
        let csd = parse_car_setup(cursor)?;
        car_setup_data.push(csd);
        i = i + 1;
    }

    Ok(PacketCarSetupData { header, car_setup_data })
}

} // verus!
