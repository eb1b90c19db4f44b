//! The error model of the decoder.
//!
//! Any error aborts the decode of the current datagram: no partial record is
//! ever returned and no field is silently defaulted.

use vstd::prelude::*;

verus! {

/// The part of a datagram whose size check failed: the common header, or one
/// of the ten packet kinds.
#[derive(Debug, Clone, Copy, PartialEq, Eq, Structural)]
pub enum Section {
    Header,
    Motion,
    Session,
    Lap,
    Event,
    Participants,
    CarSetups,
    CarTelemetry,
    CarStatus,
    FinalClassification,
    LobbyInfo,
}

/// A coded wire field: names the enum table that rejected a value.
#[derive(Debug, Clone, Copy, PartialEq, Eq, Structural)]
pub enum CodedField {
    Weather,
    SessionType,
    TrackId,
    Formula,
    ZoneFlag,
    SafetyCar,
    NetworkGame,
    PitStatus,
    DriverStatus,
    ResultStatus,
    PenaltyType,
    InfringementType,
    SurfaceType,
    MfdPanel,
    TractionControl,
    AntiLockBrakes,
    FuelMix,
    DrsAllowed,
    ErsDeployMode,
    ActualTyreCompound,
    VisualTyreCompound,
    Driver,
    Team,
    Nationality,
    YourTelemetry,
    ReadyStatus,
}

/// Why a datagram failed to decode.
#[derive(Debug, Clone, Copy, PartialEq, Eq, Structural)]
pub enum DecodeError {
    /// Fewer bytes remain in the buffer than a primitive read requires.
    UnexpectedEndOfBuffer,
    /// The declared datagram length failed a size check:
    /// the section checked, the declared length, and the expected length
    /// (exact or minimum depending on the section).
    InvalidSize(Section, usize, usize),
    /// The header's format field is not the supported protocol year (2020).
    UnsupportedProtocolVersion(u16),
    /// The header's packet-id byte maps to no packet kind.
    UnknownPacketKind(u8),
    /// The event packet's 4-byte code maps to no event.
    UnknownEventCode,
    /// A coded field's value is outside its declared domain:
    /// the field and the offending wire code.
    InvalidEnumValue(CodedField, i16),
}

} // verus!
