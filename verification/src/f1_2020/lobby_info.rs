//! The lobby-info packet: the multiplayer lobby roster.

use crate::cursor::Cursor;
use crate::error::{CodedField, DecodeError, Section};
use crate::f1_2020::car::TOTAL_CARS;
use crate::f1_2020::header::PacketHeader;
use crate::f1_2020::nationality::Nationality;
use crate::f1_2020::participants::{parse_name, parse_nationality, parse_team, spec_name_chars,
    spec_parse_nationality, spec_parse_team};
use crate::f1_2020::team::Team;
use vstd::prelude::*;

verus! {

/// Exact expected size of a lobby-info datagram.
pub const LOBBY_INFO_MIN_SIZE: usize = 1169;

/// Readiness of a lobby player.
#[derive(Debug, Clone, Copy, PartialEq, Eq, Structural)]
pub enum ReadyStatus {
    NotReady,
    Ready,
    Spectating,
}

/// One player of the lobby.
#[derive(Debug, Clone, PartialEq, Eq)]
pub struct LobbyInfoData {
    /// Whether the slot is AI (true) or human (false) controlled.
    pub ai_controlled: bool,
    pub team: Team,
    pub nationality: Nationality,
    /// Name of the player: the 48-byte wire field up to (excluding) its
    /// first null byte.
    pub name: String,
    pub ready_status: ReadyStatus,
}

/// The lobby-info packet: the declared player count and one entry per car
/// slot.
#[derive(Debug, Clone, PartialEq, Eq)]
pub struct PacketLobbyInfoData {
    pub header: PacketHeader,
    /// Number of players declared in the packet; the array below always
    /// holds every slot regardless.
    pub num_players: u8,
    pub lobby_info_data: Vec<LobbyInfoData>,
}

/// The ready-status table: codes 0 through 2.
pub open spec fn spec_parse_ready_status(value: u8) -> Result<ReadyStatus, DecodeError> {
    match value {
        0u8 => Ok(ReadyStatus::NotReady),
        1u8 => Ok(ReadyStatus::Ready),
        2u8 => Ok(ReadyStatus::Spectating),
        _ => Err(DecodeError::InvalidEnumValue(CodedField::ReadyStatus, value as i16)),
    }
}

/// Decodes a ready-status code.
pub fn parse_ready_status(value: u8) -> (r: Result<ReadyStatus, DecodeError>)
    ensures
        r == spec_parse_ready_status(value),
{
    match value {
        0u8 => Ok(ReadyStatus::NotReady),
        1u8 => Ok(ReadyStatus::Ready),
        2u8 => Ok(ReadyStatus::Spectating),
        _ => Err(DecodeError::InvalidEnumValue(CodedField::ReadyStatus, value as i16)),
    }
}

/// Whether the 52-byte lobby entry at `pos` decodes without error.
pub open spec fn spec_lobby_ok(s: Seq<u8>, pos: int) -> bool {
    &&& pos + 52 <= s.len()
    &&& spec_parse_team(s[pos + 1]) is Ok
    &&& spec_parse_nationality(s[pos + 2]) is Ok
    &&& spec_parse_ready_status(s[pos + 51]) is Ok
}

/// The first error met reading the lobby entry at `pos` in wire order;
/// meaningful only when the entry does not decode.
pub open spec fn spec_lobby_err(s: Seq<u8>, pos: int) -> DecodeError {
    if pos + 2 > s.len() {
        DecodeError::UnexpectedEndOfBuffer
    } else if spec_parse_team(s[pos + 1]) is Err {
        spec_parse_team(s[pos + 1])->Err_0
    } else if pos + 3 > s.len() {
        DecodeError::UnexpectedEndOfBuffer
    } else if spec_parse_nationality(s[pos + 2]) is Err {
        spec_parse_nationality(s[pos + 2])->Err_0
    } else if pos + 52 > s.len() {
        DecodeError::UnexpectedEndOfBuffer
    } else {
        spec_parse_ready_status(s[pos + 51])->Err_0
    }
}

/// Whether `e` holds exactly the fields of the lobby entry laid out at `q`.
pub open spec fn spec_lobby_matches(e: LobbyInfoData, s: Seq<u8>, q: int) -> bool {
    &&& e.ai_controlled == (s[q] == 1)
    &&& e.team == spec_parse_team(s[q + 1])->Ok_0
    &&& e.nationality == spec_parse_nationality(s[q + 2])->Ok_0
    &&& e.name@ == spec_name_chars(s, q + 3, 48)
    &&& e.ready_status == spec_parse_ready_status(s[q + 51])->Ok_0
}

/// Decodes one 52-byte lobby entry from the cursor's current position.
pub fn parse_lobby_info(cursor: &mut Cursor) -> (r: Result<LobbyInfoData, DecodeError>)
    ensures
        final(cursor).data == old(cursor).data,
        spec_lobby_ok(old(cursor).data@, old(cursor).pos as int) <==> r is Ok,
        r is Ok ==> final(cursor).pos == old(cursor).pos + 52 && spec_lobby_matches(
            r->Ok_0,
            old(cursor).data@,
            old(cursor).pos as int,
        ),
        r is Err ==> r->Err_0 == spec_lobby_err(old(cursor).data@, old(cursor).pos as int),
{
    let ai_controlled = cursor.read_u8()? == 1;
    let team = parse_team(cursor.read_u8()?)?;
    let nationality = parse_nationality(cursor.read_u8()?)?;
    let name = parse_name(cursor)?;
    let ready_status = parse_ready_status(cursor.read_u8()?)?;

    Ok(LobbyInfoData { ai_controlled, team, nationality, name, ready_status })
}

/// Rejects a declared datagram length other than the exact lobby-info size.
fn ensure_lobby_info_size(size: usize) -> (r: Result<(), DecodeError>)
    ensures
        size == 1169 ==> r == Ok::<(), DecodeError>(()),
        size != 1169 ==> r == Err::<(), DecodeError>(
            DecodeError::InvalidSize(Section::LobbyInfo, size, 1169),
        ),
{
    if size == LOBBY_INFO_MIN_SIZE {
        return Ok(());
    }
    Err(DecodeError::InvalidSize(Section::LobbyInfo, size, LOBBY_INFO_MIN_SIZE))
}

/// Everything the lobby-info decoder promises of its result `r`, for the
/// buffer `s`, payload start `p`, the already-decoded `header`, and the
/// declared datagram length `size`.
pub open spec fn spec_lobby_info_outcome(
    r: Result<PacketLobbyInfoData, DecodeError>,
    s: Seq<u8>,
    p: int,
    header: PacketHeader,
    size: usize,
) -> bool {
    &&& size != 1169 ==> r == Err::<PacketLobbyInfoData, DecodeError>(
        DecodeError::InvalidSize(Section::LobbyInfo, size, 1169),
    )
    &&& size == 1169 ==> (r is Ok <==> (p + 1 <= s.len() && (forall|j: int|
        0 <= j < 22 ==> #[trigger] spec_lobby_ok(s, p + 1 + j * 52))))
    &&& size == 1169 && r is Ok ==> {
        &&& r->Ok_0.header == header
        &&& r->Ok_0.num_players == s[p]
        &&& r->Ok_0.lobby_info_data@.len() == 22
        &&& (forall|j: int|
            0 <= j < 22 ==> spec_lobby_matches(
                #[trigger] r->Ok_0.lobby_info_data@[j],
                s,
                p + 1 + j * 52,
            ))
    }
    &&& size == 1169 && r is Err ==> ((p + 1 > s.len() && r->Err_0
        == DecodeError::UnexpectedEndOfBuffer) || (p + 1 <= s.len() && (exists|j: int|
        0 <= j < 22 && !(#[trigger] spec_lobby_ok(s, p + 1 + j * 52)) && r->Err_0
            == spec_lobby_err(s, p + 1 + j * 52) && (forall|k: int|
            0 <= k < j ==> #[trigger] spec_lobby_ok(s, p + 1 + k * 52)))))
}

/// Decodes the lobby-info payload: the player count, then 22 lobby entries,
/// 1145 bytes after the header.
///
/// A declared length other than exactly 1169 is rejected with `InvalidSize`
/// before any field is read (exact-size policy).  The roster always holds
/// all 22 slots, whatever the declared player count.  Success is exactly the
/// case where the count byte is present and all 22 entries decode; on
/// failure the error is the first error in wire order.
#[verifier::rlimit(50)]
pub fn parse_lobby_info_data(cursor: &mut Cursor, header: PacketHeader, size: usize) -> (r: Result<
    PacketLobbyInfoData,
    DecodeError,
>)
    ensures
        final(cursor).data == old(cursor).data,
        spec_lobby_info_outcome(r, old(cursor).data@, old(cursor).pos as int, header, size),
        size != 1169 ==> final(cursor).pos == old(cursor).pos,
        r is Ok ==> final(cursor).pos == old(cursor).pos + 1145,
{
    ensure_lobby_info_size(size)?;

    let ghost s = cursor.data@;
    let ghost p0 = cursor.pos as int;

    let num_players = cursor.read_u8()?;

    let mut lobby_info_data: Vec<LobbyInfoData> = Vec::new();
    let mut i: usize = 0;
    while i < TOTAL_CARS
        invariant
            size == 1169,
            s == old(cursor).data@,
            p0 == old(cursor).pos as int,
            p0 + 1 <= s.len(),
            cursor.data == old(cursor).data,
            0 <= i <= 22,
            cursor.pos == p0 + 1 + i * 52,
            lobby_info_data@.len() == i,
            forall|j: int| 0 <= j < i ==> #[trigger] spec_lobby_ok(s, p0 + 1 + j * 52),
            forall|j: int|
                0 <= j < i ==> spec_lobby_matches(
                    #[trigger] lobby_info_data@[j],
                    s,
                    p0 + 1 + j * 52,
                ),
        decreases 22 - i,
    {
        match parse_lobby_info(cursor) {
            Ok(data) => {
                lobby_info_data.push(data);
            },
            Err(e) => {
                proof {
                    assert(!spec_lobby_ok(s, p0 + 1 + (i as int) * 52));
                    assert(e == spec_lobby_err(s, p0 + 1 + (i as int) * 52));
                }
                return Err(e);
            },
        }
        i = i + 1;
    }

    Ok(PacketLobbyInfoData { header, num_players, lobby_info_data })
}

} // verus!
