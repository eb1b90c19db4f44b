//! The packet dispatcher for the 2020 protocol year: decodes the common
//! header, maps the packet-id byte to a packet kind, and routes to the
//! matching per-kind decoder.

use crate::cursor::Cursor;
use crate::error::{DecodeError, Section};
use crate::f1_2020::car::{PacketCarSetupData, PacketCarStatusData, PacketCarTelemetryData};
use crate::f1_2020::car_setup::{parse_car_setup_data, spec_car_setup_outcome};
use crate::f1_2020::car_status::{parse_car_status_data, spec_car_status_outcome};
use crate::f1_2020::car_telemetry::{parse_car_telemetry_data, spec_car_telemetry_outcome};
use crate::f1_2020::event::{parse_event_data, spec_event_outcome, PacketEventData};
use crate::f1_2020::final_classification::{parse_final_classification_data,
    spec_final_classification_outcome, PacketFinalClassificationData};
use crate::f1_2020::header::{parse_headers, spec_header, PacketHeader};
use crate::f1_2020::lap::{parse_lap_data, spec_lap_outcome, PacketLapData};
use crate::f1_2020::lobby_info::{parse_lobby_info_data, spec_lobby_info_outcome,
    PacketLobbyInfoData};
use crate::f1_2020::motion::{parse_motion_data, spec_motion_outcome, PacketMotionData};
use crate::f1_2020::participants::{parse_participants_data, spec_participants_outcome,
    PacketParticipantsData};
use crate::f1_2020::session::{parse_session, spec_session_outcome, PacketSessionData};
use vstd::prelude::*;

verus! {

/// The ten packet kinds, in packet-id order.
#[derive(Debug, Clone, Copy, PartialEq, Eq, Structural)]
pub enum PacketID {
    Motion,
    Session,
    LapData,
    Event,
    Participants,
    CarSetups,
    CarTelemetry,
    CarStatus,
    FinalClassification,
    LobbyInfo,
}

/// One decoded datagram of the 2020 protocol year.
#[derive(Debug, Clone, PartialEq, Eq)]
pub enum Packet2020 {
    Motion(PacketMotionData),
    Session(PacketSessionData),
    Lap(PacketLapData),
    Event(PacketEventData),
    Participants(PacketParticipantsData),
    CarSetups(PacketCarSetupData),
    CarTelemetry(PacketCarTelemetryData),
    CarStatus(PacketCarStatusData),
    FinalClassification(PacketFinalClassificationData),
    LobbyInfo(PacketLobbyInfoData),
}

/// The packet-id table: codes 0 through 9.
pub open spec fn spec_packet_type(packet_id: u8) -> Result<PacketID, DecodeError> {
    match packet_id {
        0u8 => Ok(PacketID::Motion),
        1u8 => Ok(PacketID::Session),
        2u8 => Ok(PacketID::LapData),
        3u8 => Ok(PacketID::Event),
        4u8 => Ok(PacketID::Participants),
        5u8 => Ok(PacketID::CarSetups),
        6u8 => Ok(PacketID::CarTelemetry),
        7u8 => Ok(PacketID::CarStatus),
        8u8 => Ok(PacketID::FinalClassification),
        9u8 => Ok(PacketID::LobbyInfo),
        _ => Err(DecodeError::UnknownPacketKind(packet_id)),
    }
}

/// Decodes a packet-id byte.
pub fn packet_type(packet_id: u8) -> (r: Result<PacketID, DecodeError>)
    ensures
        r == spec_packet_type(packet_id),
{
    match packet_id {
        0u8 => Ok(PacketID::Motion),
        1u8 => Ok(PacketID::Session),
        2u8 => Ok(PacketID::LapData),
        3u8 => Ok(PacketID::Event),
        4u8 => Ok(PacketID::Participants),
        5u8 => Ok(PacketID::CarSetups),
        6u8 => Ok(PacketID::CarTelemetry),
        7u8 => Ok(PacketID::CarStatus),
        8u8 => Ok(PacketID::FinalClassification),
        9u8 => Ok(PacketID::LobbyInfo),
        _ => Err(DecodeError::UnknownPacketKind(packet_id)),
    }
}

/// The routed part of the dispatcher's promise: with the header decoded at
/// `p`, the result `r` carries the variant selected by the packet-id byte,
/// whose payload meets its own decoder's promise for the payload that starts
/// at `p + 24`.
pub open spec fn spec_f12020_dispatch(
    r: Result<Packet2020, DecodeError>,
    s: Seq<u8>,
    p: int,
    size: usize,
) -> bool {
    let hdr = spec_header(s, p);
    let h = p + 24;
    match spec_packet_type(hdr.packet_id) {
        Err(e) => r == Err::<Packet2020, DecodeError>(e),
        Ok(pid) => match pid {
            PacketID::Motion => {
                &&& (r matches Ok(pk) ==> pk matches Packet2020::Motion(m) && spec_motion_outcome(
                    Ok::<PacketMotionData, DecodeError>(m),
                    s,
                    h,
                    hdr,
                    size,
                ))
                &&& (r matches Err(e) ==> spec_motion_outcome(
                    Err::<PacketMotionData, DecodeError>(e),
                    s,
                    h,
                    hdr,
                    size,
                ))
            },
            PacketID::Session => {
                &&& (r matches Ok(pk) ==> pk matches Packet2020::Session(m)
                    && spec_session_outcome(
                    Ok::<PacketSessionData, DecodeError>(m),
                    s,
                    h,
                    hdr,
                    size,
                ))
                &&& (r matches Err(e) ==> spec_session_outcome(
                    Err::<PacketSessionData, DecodeError>(e),
                    s,
                    h,
                    hdr,
                    size,
                ))
            },
            PacketID::LapData => {
                &&& (r matches Ok(pk) ==> pk matches Packet2020::Lap(m) && spec_lap_outcome(
                    Ok::<PacketLapData, DecodeError>(m),
                    s,
                    h,
                    hdr,
                    size,
                ))
                &&& (r matches Err(e) ==> spec_lap_outcome(
                    Err::<PacketLapData, DecodeError>(e),
                    s,
                    h,
                    hdr,
                    size,
                ))
            },
            PacketID::Event => {
                &&& (r matches Ok(pk) ==> pk matches Packet2020::Event(m) && spec_event_outcome(
                    Ok::<PacketEventData, DecodeError>(m),
                    s,
                    h,
                    hdr,
                    size,
                ))
                &&& (r matches Err(e) ==> spec_event_outcome(
                    Err::<PacketEventData, DecodeError>(e),
                    s,
                    h,
                    hdr,
                    size,
                ))
            },
            PacketID::Participants => {
                &&& (r matches Ok(pk) ==> pk matches Packet2020::Participants(m)
                    && spec_participants_outcome(
                    Ok::<PacketParticipantsData, DecodeError>(m),
                    s,
                    h,
                    hdr,
                    size,
                ))
                &&& (r matches Err(e) ==> spec_participants_outcome(
                    Err::<PacketParticipantsData, DecodeError>(e),
                    s,
                    h,
                    hdr,
                    size,
                ))
            },
            PacketID::CarSetups => {
                &&& (r matches Ok(pk) ==> pk matches Packet2020::CarSetups(m)
                    && spec_car_setup_outcome(
                    Ok::<PacketCarSetupData, DecodeError>(m),
                    s,
                    h,
                    hdr,
                    size,
                ))
                &&& (r matches Err(e) ==> spec_car_setup_outcome(
                    Err::<PacketCarSetupData, DecodeError>(e),
                    s,
                    h,
                    hdr,
                    size,
                ))
            },
            PacketID::CarTelemetry => {
                &&& (r matches Ok(pk) ==> pk matches Packet2020::CarTelemetry(m)
                    && spec_car_telemetry_outcome(
                    Ok::<PacketCarTelemetryData, DecodeError>(m),
                    s,
                    h,
                    hdr,
                    size,
                ))
                &&& (r matches Err(e) ==> spec_car_telemetry_outcome(
                    Err::<PacketCarTelemetryData, DecodeError>(e),
                    s,
                    h,
                    hdr,
                    size,
                ))
            },
            PacketID::CarStatus => {
                &&& (r matches Ok(pk) ==> pk matches Packet2020::CarStatus(m)
                    && spec_car_status_outcome(
                    Ok::<PacketCarStatusData, DecodeError>(m),
                    s,
                    h,
                    hdr,
                    size,
                ))
                &&& (r matches Err(e) ==> spec_car_status_outcome(
                    Err::<PacketCarStatusData, DecodeError>(e),
                    s,
                    h,
                    hdr,
                    size,
                ))
            },
            PacketID::FinalClassification => {
                &&& (r matches Ok(pk) ==> pk matches Packet2020::FinalClassification(m)
                    && spec_final_classification_outcome(
                    Ok::<PacketFinalClassificationData, DecodeError>(m),
                    s,
                    h,
                    hdr,
                    size,
                ))
                &&& (r matches Err(e) ==> spec_final_classification_outcome(
                    Err::<PacketFinalClassificationData, DecodeError>(e),
                    s,
                    h,
                    hdr,
                    size,
                ))
            },
            PacketID::LobbyInfo => {
                &&& (r matches Ok(pk) ==> pk matches Packet2020::LobbyInfo(m)
                    && spec_lobby_info_outcome(
                    Ok::<PacketLobbyInfoData, DecodeError>(m),
                    s,
                    h,
                    hdr,
                    size,
                ))
                &&& (r matches Err(e) ==> spec_lobby_info_outcome(
                    Err::<PacketLobbyInfoData, DecodeError>(e),
                    s,
                    h,
                    hdr,
                    size,
                ))
            },
        },
    }
}

/// Everything the 2020 dispatcher promises of its result `r`, for the buffer
/// `s`, datagram start `p`, and declared datagram length `size`: the header
/// size check, the header decode, and the routed per-kind outcome.
pub open spec fn spec_f12020_outcome(
    r: Result<Packet2020, DecodeError>,
    s: Seq<u8>,
    p: int,
    size: usize,
) -> bool {
    &&& size < 24 ==> r == Err::<Packet2020, DecodeError>(
        DecodeError::InvalidSize(Section::Header, size, 24),
    )
    &&& size >= 24 && p + 24 > s.len() ==> r == Err::<Packet2020, DecodeError>(
        DecodeError::UnexpectedEndOfBuffer,
    )
    &&& size >= 24 && p + 24 <= s.len() ==> spec_f12020_dispatch(r, s, p, size)
}

/// Decodes one datagram of the 2020 protocol year from the cursor's current
/// position: the 24-byte header, then the payload of the kind selected by
/// the header's packet-id byte.
///
/// A declared length below 24 is rejected with `InvalidSize` before any
/// field is read; an unmapped packet-id byte with `UnknownPacketKind`; and
/// the payload decode follows the selected kind's own size policy and field
/// rules exactly.
#[verifier::rlimit(50)]
pub fn parse_f12020(cursor: &mut Cursor, size: usize) -> (r: Result<Packet2020, DecodeError>)
    ensures
        final(cursor).data == old(cursor).data,
        spec_f12020_outcome(r, old(cursor).data@, old(cursor).pos as int, size),
{
    let header = parse_headers(cursor, size)?;
    match packet_type(header.packet_id)? {
        PacketID::Motion => {
            let motion = parse_motion_data(cursor, header, size)?;
            Ok(Packet2020::Motion(motion))
        },
        PacketID::Session => {
            let session = parse_session(cursor, header, size)?;
            Ok(Packet2020::Session(session))
        },
        PacketID::LapData => {
            let lap = parse_lap_data(cursor, header, size)?;
            Ok(Packet2020::Lap(lap))
        },
        PacketID::Event => {
            let event = parse_event_data(cursor, header, size)?;
            Ok(Packet2020::Event(event))
        },
        PacketID::Participants => {
            let participants = parse_participants_data(cursor, header, size)?;
            Ok(Packet2020::Participants(participants))
        },
        PacketID::CarSetups => {
            let car_setups = parse_car_setup_data(cursor, header, size)?;
            Ok(Packet2020::CarSetups(car_setups))
        },
        PacketID::CarTelemetry => {
            let car_telemetry = parse_car_telemetry_data(cursor, header, size)?;
            Ok(Packet2020::CarTelemetry(car_telemetry))
        },
        PacketID::CarStatus => {
            let car_status = parse_car_status_data(cursor, header, size)?;
            Ok(Packet2020::CarStatus(car_status))
        },
        PacketID::FinalClassification => {
            let final_classification = parse_final_classification_data(cursor, header, size)?;
            Ok(Packet2020::FinalClassification(final_classification))
        },
        PacketID::LobbyInfo => {
            let lobby_info = parse_lobby_info_data(cursor, header, size)?;
            Ok(Packet2020::LobbyInfo(lobby_info))
        },
    }
}

} // verus!
