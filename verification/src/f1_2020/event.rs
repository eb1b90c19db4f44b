//! The event packet: a 4-byte ASCII code selecting one of eleven discrete
//! race events, each with its own trailing field set.

use crate::cursor::{le_u32, Cursor};
use crate::error::{CodedField, DecodeError, Section};
use crate::f1_2020::header::PacketHeader;
use crate::units::{Float32, Seconds32, Seconds8};
use vstd::prelude::*;

verus! {

/// Exact expected size of an event datagram.
pub const EVENT_MIN_SIZE: usize = 35;

/// ASCII code of the letter `A`, and likewise below: the event codes arrive
/// as four raw ASCII bytes.
pub const CH_A: u8 = 65;

pub const CH_C: u8 = 67;

pub const CH_D: u8 = 68;

pub const CH_E: u8 = 69;

pub const CH_F: u8 = 70;

pub const CH_H: u8 = 72;

pub const CH_L: u8 = 76;

pub const CH_M: u8 = 77;

pub const CH_N: u8 = 78;

pub const CH_P: u8 = 80;

pub const CH_Q: u8 = 81;

pub const CH_R: u8 = 82;

pub const CH_S: u8 = 83;

pub const CH_T: u8 = 84;

pub const CH_W: u8 = 87;

/// Fastest lap of the session (`FTLP`).
#[derive(Debug, Clone, Copy, PartialEq, Eq, Structural)]
pub struct FastestLap {
    /// Vehicle index of the car achieving the fastest lap.
    pub vehicle_index: u8,
    /// Lap time, seconds as 32-bit floating point.
    pub lap_time: Seconds32,
}

/// A car retired (`RTMT`).
#[derive(Debug, Clone, Copy, PartialEq, Eq, Structural)]
pub struct Retirement {
    pub vehicle_index: u8,
}

/// The player's team mate entered the pits (`TMPT`).
#[derive(Debug, Clone, Copy, PartialEq, Eq, Structural)]
pub struct TeamMateInPits {
    pub vehicle_index: u8,
}

/// The race winner is decided (`RCWN`).
#[derive(Debug, Clone, Copy, PartialEq, Eq, Structural)]
pub struct RaceWinner {
    pub vehicle_index: u8,
}

/// Kind of penalty handed out.
#[derive(Debug, Clone, Copy, PartialEq, Eq, Structural)]
pub enum PenaltyType {
    DriveThrough,
    StopGo,
    GridPenalty,
    PenaltyReminder,
    TimePenalty,
    Warning,
    Disqualified,
    RemovedFromFormationLap,
    ParkedTooLongTimer,
    TyreRegulations,
    ThisLapInvalidated,
    ThisAndNextLapInvalidated,
    ThisLapInvalidatedWithoutReason,
    ThisAndNextLapInvalidatedWithoutReason,
    ThisAndPreviousLapInvalidated,
    ThisAndPreviousLapInvalidatedWithoutReason,
    Retired,
    BlackFlagTimer,
}

/// Infringement that caused a penalty.
#[derive(Debug, Clone, Copy, PartialEq, Eq, Structural)]
pub enum InfringementType {
    BlockingBySlowDriving,
    BlockingByWrongWayDriving,
    ReversingOffTheStartLine,
    BigCollision,
    SmallCollision,
    CollisionFailedToHandBackPositionSingle,
    CollisionFailedToHandBackPositionMultiple,
    CornerCuttingGainedTime,
    CornerCuttingOvertakeSingle,
    CornerCuttingOvertakeMultiple,
    CrossedPitExitLane,
    IgnoringBlueFlags,
    IgnoringYellowFlags,
    IgnoringDriveThrough,
    TooManyDriveThroughs,
    DriveThroughReminderServeWithinNLaps,
    DriveThroughReminderServeThisLap,
    PitLaneSpeeding,
    ParkedForTooLong,
    IgnoringTyreRegulations,
    TooManyPenalties,
    MultipleWarnings,
    ApproachingDisqualification,
    TyreRegulationsSelectSingle,
    TyreRegulationsSelectMultiple,
    LapInvalidatedCornerCutting,
    LapInvalidatedRunningWide,
    CornerCuttingRanWideGainedTimeMinor,
    CornerCuttingRanWideGainedTimeSignificant,
    CornerCuttingRanWideGainedTimeExtreme,
    LapInvalidatedWallRiding,
    LapInvalidatedFlashbackUsed,
    LapInvalidatedResetToTrack,
    BlockingThePitlane,
    JumpStart,
    SafetyCarToCarCollision,
    SafetyCarIllegalOvertake,
    SafetyCarExceedingAllowedPace,
    VirtualSafetyCarExceedingAllowedPace,
    FormationLapBelowAllowedSpeed,
    RetiredMechanicalFailure,
    RetiredTerminallyDamaged,
    SafetyCarFallingTooFarBack,
    BlackFlagTimer,
    UnservedStopGoPenalty,
    UnservedDriveThroughPenalty,
    EngineComponentChange,
    GearboxChange,
    LeagueGridPenalty,
    RetryPenalty,
    IllegalTimeGain,
    MandatoryPitstop,
}

/// The penalty-type table: codes 0 through 17.
pub open spec fn spec_parse_penalty_type(value: u8) -> Result<PenaltyType, DecodeError> {
    match value {
        0u8 => Ok(PenaltyType::DriveThrough),
        1u8 => Ok(PenaltyType::StopGo),
        2u8 => Ok(PenaltyType::GridPenalty),
        3u8 => Ok(PenaltyType::PenaltyReminder),
        4u8 => Ok(PenaltyType::TimePenalty),
        5u8 => Ok(PenaltyType::Warning),
        6u8 => Ok(PenaltyType::Disqualified),
        7u8 => Ok(PenaltyType::RemovedFromFormationLap),
        8u8 => Ok(PenaltyType::ParkedTooLongTimer),
        9u8 => Ok(PenaltyType::TyreRegulations),
        10u8 => Ok(PenaltyType::ThisLapInvalidated),
        11u8 => Ok(PenaltyType::ThisAndNextLapInvalidated),
        12u8 => Ok(PenaltyType::ThisLapInvalidatedWithoutReason),
        13u8 => Ok(PenaltyType::ThisAndNextLapInvalidatedWithoutReason),
        14u8 => Ok(PenaltyType::ThisAndPreviousLapInvalidated),
        15u8 => Ok(PenaltyType::ThisAndPreviousLapInvalidatedWithoutReason),
        16u8 => Ok(PenaltyType::Retired),
        17u8 => Ok(PenaltyType::BlackFlagTimer),
        _ => Err(DecodeError::InvalidEnumValue(CodedField::PenaltyType, value as i16)),
    }
}

/// Decodes a penalty-type code.
pub fn parse_penalty_type(value: u8) -> (r: Result<PenaltyType, DecodeError>)
    ensures
        r == spec_parse_penalty_type(value),
{
    match value {
        0u8 => Ok(PenaltyType::DriveThrough),
        1u8 => Ok(PenaltyType::StopGo),
        2u8 => Ok(PenaltyType::GridPenalty),
        3u8 => Ok(PenaltyType::PenaltyReminder),
        4u8 => Ok(PenaltyType::TimePenalty),
        5u8 => Ok(PenaltyType::Warning),
        6u8 => Ok(PenaltyType::Disqualified),
        7u8 => Ok(PenaltyType::RemovedFromFormationLap),
        8u8 => Ok(PenaltyType::ParkedTooLongTimer),
        9u8 => Ok(PenaltyType::TyreRegulations),
        10u8 => Ok(PenaltyType::ThisLapInvalidated),
        11u8 => Ok(PenaltyType::ThisAndNextLapInvalidated),
        12u8 => Ok(PenaltyType::ThisLapInvalidatedWithoutReason),
        13u8 => Ok(PenaltyType::ThisAndNextLapInvalidatedWithoutReason),
        14u8 => Ok(PenaltyType::ThisAndPreviousLapInvalidated),
        15u8 => Ok(PenaltyType::ThisAndPreviousLapInvalidatedWithoutReason),
        16u8 => Ok(PenaltyType::Retired),
        17u8 => Ok(PenaltyType::BlackFlagTimer),
        _ => Err(DecodeError::InvalidEnumValue(CodedField::PenaltyType, value as i16)),
    }
}

/// The infringement-type table: codes 0 through 51.
pub open spec fn spec_parse_infringement_type(value: u8) -> Result<InfringementType, DecodeError> {
    match value {
        0u8 => Ok(InfringementType::BlockingBySlowDriving),
        1u8 => Ok(InfringementType::BlockingByWrongWayDriving),
        2u8 => Ok(InfringementType::ReversingOffTheStartLine),
        3u8 => Ok(InfringementType::BigCollision),
        4u8 => Ok(InfringementType::SmallCollision),
        5u8 => Ok(InfringementType::CollisionFailedToHandBackPositionSingle),
        6u8 => Ok(InfringementType::CollisionFailedToHandBackPositionMultiple),
        7u8 => Ok(InfringementType::CornerCuttingGainedTime),
        8u8 => Ok(InfringementType::CornerCuttingOvertakeSingle),
        9u8 => Ok(InfringementType::CornerCuttingOvertakeMultiple),
        10u8 => Ok(InfringementType::CrossedPitExitLane),
        11u8 => Ok(InfringementType::IgnoringBlueFlags),
        12u8 => Ok(InfringementType::IgnoringYellowFlags),
        13u8 => Ok(InfringementType::IgnoringDriveThrough),
        14u8 => Ok(InfringementType::TooManyDriveThroughs),
        15u8 => Ok(InfringementType::DriveThroughReminderServeWithinNLaps),
        16u8 => Ok(InfringementType::DriveThroughReminderServeThisLap),
        17u8 => Ok(InfringementType::PitLaneSpeeding),
        18u8 => Ok(InfringementType::ParkedForTooLong),
        19u8 => Ok(InfringementType::IgnoringTyreRegulations),
        20u8 => Ok(InfringementType::TooManyPenalties),
        21u8 => Ok(InfringementType::MultipleWarnings),
        22u8 => Ok(InfringementType::ApproachingDisqualification),
        23u8 => Ok(InfringementType::TyreRegulationsSelectSingle),
        24u8 => Ok(InfringementType::TyreRegulationsSelectMultiple),
        25u8 => Ok(InfringementType::LapInvalidatedCornerCutting),
        26u8 => Ok(InfringementType::LapInvalidatedRunningWide),
        27u8 => Ok(InfringementType::CornerCuttingRanWideGainedTimeMinor),
        28u8 => Ok(InfringementType::CornerCuttingRanWideGainedTimeSignificant),
        29u8 => Ok(InfringementType::CornerCuttingRanWideGainedTimeExtreme),
        30u8 => Ok(InfringementType::LapInvalidatedWallRiding),
        31u8 => Ok(InfringementType::LapInvalidatedFlashbackUsed),
        32u8 => Ok(InfringementType::LapInvalidatedResetToTrack),
        33u8 => Ok(InfringementType::BlockingThePitlane),
        34u8 => Ok(InfringementType::JumpStart),
        35u8 => Ok(InfringementType::SafetyCarToCarCollision),
        36u8 => Ok(InfringementType::SafetyCarIllegalOvertake),
        37u8 => Ok(InfringementType::SafetyCarExceedingAllowedPace),
        38u8 => Ok(InfringementType::VirtualSafetyCarExceedingAllowedPace),
        39u8 => Ok(InfringementType::FormationLapBelowAllowedSpeed),
        40u8 => Ok(InfringementType::RetiredMechanicalFailure),
        41u8 => Ok(InfringementType::RetiredTerminallyDamaged),
        42u8 => Ok(InfringementType::SafetyCarFallingTooFarBack),
        43u8 => Ok(InfringementType::BlackFlagTimer),
        44u8 => Ok(InfringementType::UnservedStopGoPenalty),
        45u8 => Ok(InfringementType::UnservedDriveThroughPenalty),
        46u8 => Ok(InfringementType::EngineComponentChange),
        47u8 => Ok(InfringementType::GearboxChange),
        48u8 => Ok(InfringementType::LeagueGridPenalty),
        49u8 => Ok(InfringementType::RetryPenalty),
        50u8 => Ok(InfringementType::IllegalTimeGain),
        51u8 => Ok(InfringementType::MandatoryPitstop),
        _ => Err(DecodeError::InvalidEnumValue(CodedField::InfringementType, value as i16)),
    }
}

/// Decodes an infringement-type code.
pub fn parse_infringement_type(value: u8) -> (r: Result<InfringementType, DecodeError>)
    ensures
        r == spec_parse_infringement_type(value),
{
    match value {
        0u8 => Ok(InfringementType::BlockingBySlowDriving),
        1u8 => Ok(InfringementType::BlockingByWrongWayDriving),
        2u8 => Ok(InfringementType::ReversingOffTheStartLine),
        3u8 => Ok(InfringementType::BigCollision),
        4u8 => Ok(InfringementType::SmallCollision),
        5u8 => Ok(InfringementType::CollisionFailedToHandBackPositionSingle),
        6u8 => Ok(InfringementType::CollisionFailedToHandBackPositionMultiple),
        7u8 => Ok(InfringementType::CornerCuttingGainedTime),
        8u8 => Ok(InfringementType::CornerCuttingOvertakeSingle),
        9u8 => Ok(InfringementType::CornerCuttingOvertakeMultiple),
        10u8 => Ok(InfringementType::CrossedPitExitLane),
        11u8 => Ok(InfringementType::IgnoringBlueFlags),
        12u8 => Ok(InfringementType::IgnoringYellowFlags),
        13u8 => Ok(InfringementType::IgnoringDriveThrough),
        14u8 => Ok(InfringementType::TooManyDriveThroughs),
        15u8 => Ok(InfringementType::DriveThroughReminderServeWithinNLaps),
        16u8 => Ok(InfringementType::DriveThroughReminderServeThisLap),
        17u8 => Ok(InfringementType::PitLaneSpeeding),
        18u8 => Ok(InfringementType::ParkedForTooLong),
        19u8 => Ok(InfringementType::IgnoringTyreRegulations),
        20u8 => Ok(InfringementType::TooManyPenalties),
        21u8 => Ok(InfringementType::MultipleWarnings),
        22u8 => Ok(InfringementType::ApproachingDisqualification),
        23u8 => Ok(InfringementType::TyreRegulationsSelectSingle),
        24u8 => Ok(InfringementType::TyreRegulationsSelectMultiple),
        25u8 => Ok(InfringementType::LapInvalidatedCornerCutting),
        26u8 => Ok(InfringementType::LapInvalidatedRunningWide),
        27u8 => Ok(InfringementType::CornerCuttingRanWideGainedTimeMinor),
        28u8 => Ok(InfringementType::CornerCuttingRanWideGainedTimeSignificant),
        29u8 => Ok(InfringementType::CornerCuttingRanWideGainedTimeExtreme),
        30u8 => Ok(InfringementType::LapInvalidatedWallRiding),
        31u8 => Ok(InfringementType::LapInvalidatedFlashbackUsed),
        32u8 => Ok(InfringementType::LapInvalidatedResetToTrack),
        33u8 => Ok(InfringementType::BlockingThePitlane),
        34u8 => Ok(InfringementType::JumpStart),
        35u8 => Ok(InfringementType::SafetyCarToCarCollision),
        36u8 => Ok(InfringementType::SafetyCarIllegalOvertake),
        37u8 => Ok(InfringementType::SafetyCarExceedingAllowedPace),
        38u8 => Ok(InfringementType::VirtualSafetyCarExceedingAllowedPace),
        39u8 => Ok(InfringementType::FormationLapBelowAllowedSpeed),
        40u8 => Ok(InfringementType::RetiredMechanicalFailure),
        41u8 => Ok(InfringementType::RetiredTerminallyDamaged),
        42u8 => Ok(InfringementType::SafetyCarFallingTooFarBack),
        43u8 => Ok(InfringementType::BlackFlagTimer),
        44u8 => Ok(InfringementType::UnservedStopGoPenalty),
        45u8 => Ok(InfringementType::UnservedDriveThroughPenalty),
        46u8 => Ok(InfringementType::EngineComponentChange),
        47u8 => Ok(InfringementType::GearboxChange),
        48u8 => Ok(InfringementType::LeagueGridPenalty),
        49u8 => Ok(InfringementType::RetryPenalty),
        50u8 => Ok(InfringementType::IllegalTimeGain),
        51u8 => Ok(InfringementType::MandatoryPitstop),
        _ => Err(DecodeError::InvalidEnumValue(CodedField::InfringementType, value as i16)),
    }
}

/// A penalty was issued (`PENA`).
#[derive(Debug, Clone, Copy, PartialEq, Eq, Structural)]
pub struct Penalty {
    pub penalty_type: PenaltyType,
    pub infringement_type: InfringementType,
    /// Vehicle index of the car the penalty is applied to.
    pub vehicle_index: u8,
    /// Vehicle index of the other car involved.
    pub other_vehicle_index: u8,
    /// Time gained, or time spent doing the action, in whole seconds.
    pub time: Seconds8,
    /// Lap the penalty occurred on.
    pub lap_num: u8,
    /// Number of places gained by the infringement.
    pub places_gained: u8,
}

/// A speed-trap reading (`SPTP`).
#[derive(Debug, Clone, Copy, PartialEq, Eq, Structural)]
pub struct SpeedTrap {
    pub vehicle_index: u8,
    /// Speed in kilometres per hour, 32-bit floating point.
    pub speed: Float32,
}

/// A discrete race event, selected by the packet's 4-byte ASCII code.
#[derive(Debug, Clone, Copy, PartialEq, Eq, Structural)]
pub enum Event {
    SessionStarted,
    SessionEnded,
    FastestLap(FastestLap),
    Retirement(Retirement),
    DRSEnabled,
    DRSDisabled,
    TeamMateInPits(TeamMateInPits),
    ChequeredFlag,
    RaceWinner(RaceWinner),
    Penalty(Penalty),
    SpeedTrap(SpeedTrap),
}

/// The event packet.
#[derive(Debug, Clone, Copy, PartialEq, Eq, Structural)]
pub struct PacketEventData {
    pub header: PacketHeader,
    pub event: Event,
}

/// The event payload laid out at `pos`: a 4-byte ASCII code, then the
/// trailing fields of the selected variant, read in wire order.  A code
/// outside the eleven known ones yields `UnknownEventCode` and no trailing
/// byte is interpreted.
pub open spec fn spec_event_payload(s: Seq<u8>, pos: int) -> Result<Event, DecodeError> {
    if pos + 4 > s.len() {
        Err(DecodeError::UnexpectedEndOfBuffer)
    } else {
        let c0 = s[pos];
        let c1 = s[pos + 1];
        let c2 = s[pos + 2];
        let c3 = s[pos + 3];
        if c0 == CH_S && c1 == CH_S && c2 == CH_T && c3 == CH_A {
            Ok(Event::SessionStarted)
        } else if c0 == CH_S && c1 == CH_E && c2 == CH_N && c3 == CH_D {
            Ok(Event::SessionEnded)
        } else if c0 == CH_F && c1 == CH_T && c2 == CH_L && c3 == CH_P {
            if pos + 9 > s.len() {
                Err(DecodeError::UnexpectedEndOfBuffer)
            } else {
                Ok(
                    Event::FastestLap(
                        FastestLap {
                            vehicle_index: s[pos + 4],
                            lap_time: Seconds32 { bits: le_u32(s, pos + 5) },
                        },
                    ),
                )
            }
        } else if c0 == CH_R && c1 == CH_T && c2 == CH_M && c3 == CH_T {
            if pos + 5 > s.len() {
                Err(DecodeError::UnexpectedEndOfBuffer)
            } else {
                Ok(Event::Retirement(Retirement { vehicle_index: s[pos + 4] }))
            }
        } else if c0 == CH_D && c1 == CH_R && c2 == CH_S && c3 == CH_E {
            Ok(Event::DRSEnabled)
        } else if c0 == CH_D && c1 == CH_R && c2 == CH_S && c3 == CH_D {
            Ok(Event::DRSDisabled)
        } else if c0 == CH_T && c1 == CH_M && c2 == CH_P && c3 == CH_T {
            if pos + 5 > s.len() {
                Err(DecodeError::UnexpectedEndOfBuffer)
            } else {
                Ok(Event::TeamMateInPits(TeamMateInPits { vehicle_index: s[pos + 4] }))
            }
        } else if c0 == CH_C && c1 == CH_H && c2 == CH_Q && c3 == CH_F {
            Ok(Event::ChequeredFlag)
        } else if c0 == CH_R && c1 == CH_C && c2 == CH_W && c3 == CH_N {
            if pos + 5 > s.len() {
                Err(DecodeError::UnexpectedEndOfBuffer)
            } else {
                Ok(Event::RaceWinner(RaceWinner { vehicle_index: s[pos + 4] }))
            }
        } else if c0 == CH_P && c1 == CH_E && c2 == CH_N && c3 == CH_A {
            if pos + 5 > s.len() {
                Err(DecodeError::UnexpectedEndOfBuffer)
            } else if spec_parse_penalty_type(s[pos + 4]) is Err {
                Err(spec_parse_penalty_type(s[pos + 4])->Err_0)
            } else if pos + 6 > s.len() {
                Err(DecodeError::UnexpectedEndOfBuffer)
            } else if spec_parse_infringement_type(s[pos + 5]) is Err {
                Err(spec_parse_infringement_type(s[pos + 5])->Err_0)
            } else if pos + 11 > s.len() {
                Err(DecodeError::UnexpectedEndOfBuffer)
            } else {
                Ok(
                    Event::Penalty(
                        Penalty {
                            penalty_type: spec_parse_penalty_type(s[pos + 4])->Ok_0,
                            infringement_type: spec_parse_infringement_type(s[pos + 5])->Ok_0,
                            vehicle_index: s[pos + 6],
                            other_vehicle_index: s[pos + 7],
                            time: Seconds8 { secs: s[pos + 8] },
                            lap_num: s[pos + 9],
                            places_gained: s[pos + 10],
                        },
                    ),
                )
            }
        } else if c0 == CH_S && c1 == CH_P && c2 == CH_T && c3 == CH_P {
            if pos + 9 > s.len() {
                Err(DecodeError::UnexpectedEndOfBuffer)
            } else {
                Ok(
                    Event::SpeedTrap(
                        SpeedTrap {
                            vehicle_index: s[pos + 4],
                            speed: Float32 { bits: le_u32(s, pos + 5) },
                        },
                    ),
                )
            }
        } else {
            Err(DecodeError::UnknownEventCode)
        }
    }
}

/// How many bytes of trailing fields each event variant carries after its
/// 4-byte code.
pub open spec fn spec_event_trailing(e: Event) -> int {
    match e {
        Event::SessionStarted => 0,
        Event::SessionEnded => 0,
        Event::FastestLap(_) => 5,
        Event::Retirement(_) => 1,
        Event::DRSEnabled => 0,
        Event::DRSDisabled => 0,
        Event::TeamMateInPits(_) => 1,
        Event::ChequeredFlag => 0,
        Event::RaceWinner(_) => 1,
        Event::Penalty(_) => 7,
        Event::SpeedTrap(_) => 5,
    }
}

/// Decodes the 4-byte event code and the trailing fields of the selected
/// variant from the cursor's current position.  On success the cursor has
/// consumed exactly 4 bytes plus the variant's trailing field bytes; an
/// unrecognized code consumes exactly the 4 code bytes and no trailing byte
/// is interpreted.
#[verifier::rlimit(30)]
pub fn parse_event(cursor: &mut Cursor) -> (r: Result<Event, DecodeError>)
    ensures
        final(cursor).data == old(cursor).data,
        r == spec_event_payload(old(cursor).data@, old(cursor).pos as int),
        r is Ok ==> final(cursor).pos == old(cursor).pos + 4 + spec_event_trailing(r->Ok_0),
        r == Err::<Event, DecodeError>(DecodeError::UnknownEventCode)
            ==> final(cursor).pos == old(cursor).pos + 4,
{
    let c0 = cursor.read_u8()?;
    let c1 = cursor.read_u8()?;
    let c2 = cursor.read_u8()?;
    let c3 = cursor.read_u8()?;

    if c0 == CH_S && c1 == CH_S && c2 == CH_T && c3 == CH_A {
        Ok(Event::SessionStarted)
    } else if c0 == CH_S && c1 == CH_E && c2 == CH_N && c3 == CH_D {
        Ok(Event::SessionEnded)
    } else if c0 == CH_F && c1 == CH_T && c2 == CH_L && c3 == CH_P {
        let vehicle_index = cursor.read_u8()?;
        let lap_time = Seconds32 { bits: cursor.read_u32()? };
        Ok(Event::FastestLap(FastestLap { vehicle_index, lap_time }))
    } else if c0 == CH_R && c1 == CH_T && c2 == CH_M && c3 == CH_T {
        let vehicle_index = cursor.read_u8()?;
        Ok(Event::Retirement(Retirement { vehicle_index }))
    } else if c0 == CH_D && c1 == CH_R && c2 == CH_S && c3 == CH_E {
        Ok(Event::DRSEnabled)
    } else if c0 == CH_D && c1 == CH_R && c2 == CH_S && c3 == CH_D {
        Ok(Event::DRSDisabled)
    } else if c0 == CH_T && c1 == CH_M && c2 == CH_P && c3 == CH_T {
        let vehicle_index = cursor.read_u8()?;
        Ok(Event::TeamMateInPits(TeamMateInPits { vehicle_index }))
    } else if c0 == CH_C && c1 == CH_H && c2 == CH_Q && c3 == CH_F {
        Ok(Event::ChequeredFlag)
    } else if c0 == CH_R && c1 == CH_C && c2 == CH_W && c3 == CH_N {
        let vehicle_index = cursor.read_u8()?;
        Ok(Event::RaceWinner(RaceWinner { vehicle_index }))
    } else if c0 == CH_P && c1 == CH_E && c2 == CH_N && c3 == CH_A {
        let penalty_type = parse_penalty_type(cursor.read_u8()?)?;
        let infringement_type = parse_infringement_type(cursor.read_u8()?)?;
        let vehicle_index = cursor.read_u8()?;
        let other_vehicle_index = cursor.read_u8()?;
        let time = Seconds8 { secs: cursor.read_u8()? };
        let lap_num = cursor.read_u8()?;
        let places_gained = cursor.read_u8()?;
        Ok(
            Event::Penalty(
                Penalty {
                    penalty_type,
                    infringement_type,
                    vehicle_index,
                    other_vehicle_index,
                    time,
                    lap_num,
                    places_gained,
                },
            ),
        )
    } else if c0 == CH_S && c1 == CH_P && c2 == CH_T && c3 == CH_P {
        let vehicle_index = cursor.read_u8()?;
        let speed = Float32 { bits: cursor.read_u32()? };
        Ok(Event::SpeedTrap(SpeedTrap { vehicle_index, speed }))
    } else {
        Err(DecodeError::UnknownEventCode)
    }
}

/// Rejects a declared datagram length other than the exact event size.
fn ensure_event_size(size: usize) -> (r: Result<(), DecodeError>)
    ensures
        size == 35 ==> r == Ok::<(), DecodeError>(()),
        size != 35 ==> r == Err::<(), DecodeError>(
            DecodeError::InvalidSize(Section::Event, size, 35),
        ),
{
    if size == EVENT_MIN_SIZE {
        return Ok(());
    }
    Err(DecodeError::InvalidSize(Section::Event, size, EVENT_MIN_SIZE))
}

/// Everything the event decoder promises of its result `r`, for the buffer
/// `s`, payload start `p`, the already-decoded `header`, and the declared
/// datagram length `size`.
pub open spec fn spec_event_outcome(
    r: Result<PacketEventData, DecodeError>,
    s: Seq<u8>,
    p: int,
    header: PacketHeader,
    size: usize,
) -> bool {
    &&& size != 35 ==> r == Err::<PacketEventData, DecodeError>(
        DecodeError::InvalidSize(Section::Event, size, 35),
    )
    &&& size == 35 ==> (r is Ok <==> spec_event_payload(s, p) is Ok)
    &&& size == 35 && r is Ok ==> {
        &&& r->Ok_0.header == header
        &&& r->Ok_0.event == spec_event_payload(s, p)->Ok_0
    }
    &&& size == 35 && r is Err ==> r->Err_0 == spec_event_payload(s, p)->Err_0
}

/// Decodes the event payload after the header.
///
/// A declared length other than exactly 35 is rejected with `InvalidSize`
/// before any field is read (exact-size policy); otherwise the result is
/// exactly that of [`spec_event_payload`] at the cursor's position.
pub fn parse_event_data(cursor: &mut Cursor, header: PacketHeader, size: usize) -> (r: Result<
    PacketEventData,
    DecodeError,
>)
    ensures
        final(cursor).data == old(cursor).data,
        spec_event_outcome(r, old(cursor).data@, old(cursor).pos as int, header, size),
        size != 35 ==> final(cursor).pos == old(cursor).pos,
        r is Ok ==> final(cursor).pos == old(cursor).pos + 4 + spec_event_trailing(r->Ok_0.event),
        r == Err::<PacketEventData, DecodeError>(DecodeError::UnknownEventCode)
            ==> final(cursor).pos == old(cursor).pos + 4,
{
    ensure_event_size(size)?;

    let event = parse_event(cursor)?;
    Ok(PacketEventData { header, event })
}

} // verus!
