//! The 24-byte header common to every packet kind.

use crate::cursor::{le_u16, le_u32, le_u64, Cursor};
use crate::error::{DecodeError, Section};
use crate::units::Seconds32;
use vstd::prelude::*;

verus! {

/// The fixed size of the common header in bytes.
pub const HEADER_MIN_SIZE: usize = 24;

/// The header present verbatim at the front of every packet kind.
///
/// No field beyond the datagram's size is validated here: packet-kind and
/// protocol-version checks belong to the dispatcher.
#[derive(Debug, Clone, Copy, PartialEq, Eq, Structural)]
pub struct PacketHeader {
    /// Protocol year of the datagram (2020 is the supported value).
    pub packet_format: u16,
    pub major_version: u8,
    pub minor_version: u8,
    pub packet_version: u8,
    /// Selects the packet kind; see the dispatcher's table.
    pub packet_id: u8,
    /// Unique identifier of the session.
    pub session_uid: u64,
    /// Session timestamp, seconds as 32-bit floating point.
    pub session_time: Seconds32,
    /// Identifier of the frame the data was retrieved on.
    pub frame_identifier: u32,
    pub player_car_index: u8,
    pub secondary_player_car_index: u8,
}

/// The header laid out at `pos` in `s`: ten little-endian fields over 24 bytes.
pub open spec fn spec_header(s: Seq<u8>, pos: int) -> PacketHeader {
    PacketHeader {
        packet_format: le_u16(s, pos),
        major_version: s[pos + 2],
        minor_version: s[pos + 3],
        packet_version: s[pos + 4],
        packet_id: s[pos + 5],
        session_uid: le_u64(s, pos + 6),
        session_time: Seconds32 { bits: le_u32(s, pos + 14) },
        frame_identifier: le_u32(s, pos + 18),
        player_car_index: s[pos + 22],
        secondary_player_car_index: s[pos + 23],
    }
}

/// Rejects a declared datagram length too small to hold the header.
fn ensure_header_size(size: usize) -> (r: Result<(), DecodeError>)
    ensures
        size >= 24 ==> r == Ok::<(), DecodeError>(()),
        size < 24 ==> r == Err::<(), DecodeError>(DecodeError::InvalidSize(Section::Header, size, 24)),
{
    if size < HEADER_MIN_SIZE {
        return Err(DecodeError::InvalidSize(Section::Header, size, HEADER_MIN_SIZE));
    }
    Ok(())
}

/// Decodes the common header from the cursor's current position.
///
/// Fails with `InvalidSize` when the declared length `size` is below 24, before
/// any field is read; with `UnexpectedEndOfBuffer` when the buffer itself ends
/// inside the header; and succeeds with the fields of [`spec_header`] otherwise.
pub fn parse_headers(cursor: &mut Cursor, size: usize) -> (r: Result<PacketHeader, DecodeError>)
    ensures
        final(cursor).data == old(cursor).data,
        size < 24 ==> r == Err::<PacketHeader, DecodeError>(
            DecodeError::InvalidSize(Section::Header, size, 24),
        ) && final(cursor).pos == old(cursor).pos,
        size >= 24 && old(cursor).pos + 24 > old(cursor).data@.len() ==> r == Err::<
            PacketHeader,
            DecodeError,
        >(DecodeError::UnexpectedEndOfBuffer),
        size >= 24 && old(cursor).pos + 24 <= old(cursor).data@.len() ==> r == Ok::<
            PacketHeader,
            DecodeError,
        >(spec_header(old(cursor).data@, old(cursor).pos as int)) && final(cursor).pos == old(
            cursor,
        ).pos + 24,
{
    ensure_header_size(size)?;

    let packet_format = cursor.read_u16()?;
    let major_version = cursor.read_u8()?;
    let minor_version = cursor.read_u8()?;
    let packet_version = cursor.read_u8()?;
    let packet_id = cursor.read_u8()?;
    let session_uid = cursor.read_u64()?;
    let session_time = Seconds32 { bits: cursor.read_u32()? };
    let frame_identifier = cursor.read_u32()?;
    let player_car_index = cursor.read_u8()?;
    let secondary_player_car_index = cursor.read_u8()?;

    Ok(PacketHeader {
        packet_format,
        major_version,
        minor_version,
        packet_version,
        packet_id,
        session_uid,
        session_time,
        frame_identifier,
        player_car_index,
        secondary_player_car_index,
    })
}

} // verus!
