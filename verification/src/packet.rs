//! The top-level packet envelope: one variant per protocol year, and the
//! entry point that peeks the year and routes a datagram to its decoder.

use crate::cursor::{le_u16, Cursor};
use crate::error::DecodeError;
use crate::f1_2020::packet::{parse_f12020, spec_f12020_outcome, Packet2020};
use vstd::prelude::*;

verus! {

/// The protocol year this decoder supports.
pub const SUPPORTED_PACKET_FORMAT: u16 = 2020;

/// One decoded datagram, tagged by protocol year.  Only the 2020 year is
/// implemented; datagrams of any other year are rejected with
/// `UnsupportedProtocolVersion`.
#[derive(Debug, Clone, PartialEq, Eq)]
pub enum Packet {
    F12020(Packet2020),
    F12019,
    F12018,
    NONE,
}

/// Decodes one datagram from the cursor's current position: peeks the
/// 16-bit format field without consuming it, rejects any protocol year but
/// 2020, and otherwise hands the buffer to the 2020 dispatcher.
pub fn parse_packet(cursor: &mut Cursor, size: usize) -> (r: Result<Packet, DecodeError>)
    ensures
        final(cursor).data == old(cursor).data,
        old(cursor).pos + 2 > old(cursor).data@.len() ==> r == Err::<Packet, DecodeError>(
            DecodeError::UnexpectedEndOfBuffer,
        ) && final(cursor).pos == old(cursor).pos,
        old(cursor).pos + 2 <= old(cursor).data@.len() && le_u16(old(cursor).data@, old(cursor).pos as int)
            != 2020 ==> r == Err::<Packet, DecodeError>(
            DecodeError::UnsupportedProtocolVersion(
                le_u16(old(cursor).data@, old(cursor).pos as int),
            ),
        ) && final(cursor).pos == old(cursor).pos,
        old(cursor).pos + 2 <= old(cursor).data@.len() && le_u16(old(cursor).data@, old(cursor).pos as int)
            == 2020 ==> {
            &&& (r matches Ok(pk) ==> pk matches Packet::F12020(inner) && spec_f12020_outcome(
                Ok::<Packet2020, DecodeError>(inner),
                old(cursor).data@,
                old(cursor).pos as int,
                size,
            ))
            &&& (r matches Err(e) ==> spec_f12020_outcome(
                Err::<Packet2020, DecodeError>(e),
                old(cursor).data@,
                old(cursor).pos as int,
                size,
            ))
        },
{
    let n = cursor.data.len();
    if cursor.pos > n || n - cursor.pos < 2 {
        return Err(DecodeError::UnexpectedEndOfBuffer);
    }
    let b0 = cursor.data[cursor.pos];
    let b1 = cursor.data[cursor.pos + 1];
    let packet_format: u16 = (b0 as u16) | ((b1 as u16) << 8u16);
    if packet_format != SUPPORTED_PACKET_FORMAT {
        return Err(DecodeError::UnsupportedProtocolVersion(packet_format));
    }

    let result = parse_f12020(cursor, size)?;
    Ok(Packet::F12020(result))
}

} // verus!
