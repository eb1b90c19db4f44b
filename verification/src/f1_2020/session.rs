//! The session packet: track, weather and session state, with a
//! count-prefixed marshal-zone list and a fixed weather-forecast array.

use crate::cursor::{le_u16, le_u32, Cursor};
use crate::error::{CodedField, DecodeError, Section};
use crate::f1_2020::header::PacketHeader;
use crate::units::Float32;
use vstd::prelude::*;

verus! {

/// Exact expected size of a session datagram.
pub const SESSION_MIN_SIZE: usize = 251;

/// Most marshal zones a session packet can describe.
pub const MARSHAL_ZONE_MAX: usize = 21;

/// Fixed count of weather-forecast samples in every session packet.
pub const WEATHER_FORECAST_SAMPLE_MAX: usize = 20;

/// Flag shown in a marshal zone (also used for the per-car FIA flag).
#[derive(Debug, Clone, Copy, PartialEq, Eq, Structural)]
pub enum ZoneFlag {
    /// Wire code -1: invalid or unknown.
    Unknown,
    /// Wire code 0: no flag shown.
    NoFlag,
    Green,
    Blue,
    Yellow,
    Red,
}

/// Kind of session being run.
#[derive(Debug, Clone, Copy, PartialEq, Eq, Structural)]
pub enum SessionType {
    Unknown,
    P1,
    P2,
    P3,
    ShortP,
    Q1,
    Q2,
    Q3,
    ShortQ,
    OSQ,
    R,
    R2,
    TimeTrial,
}

/// Current weather.
#[derive(Debug, Clone, Copy, PartialEq, Eq, Structural)]
pub enum Weather {
    Clear,
    LightCloud,
    Overcast,
    LightRain,
    HeavyRain,
    Storm,
}

/// Formula being raced.
#[derive(Debug, Clone, Copy, PartialEq, Eq, Structural)]
pub enum Formula {
    F1Modern,
    F1Classic,
    F2,
    F1Generic,
}

/// Safety-car deployment state.
#[derive(Debug, Clone, Copy, PartialEq, Eq, Structural)]
pub enum SafetyCar {
    /// Wire code 0: no safety car deployed.
    NoSafetyCar,
    Full,
    Virtual,
}

/// Whether the session is networked.
#[derive(Debug, Clone, Copy, PartialEq, Eq, Structural)]
pub enum NetworkGame {
    Offline,
    Online,
}

/// Track the session is held on.
#[derive(Debug, Clone, Copy, PartialEq, Eq, Structural)]
pub enum Track {
    Melbourne,
    PaulRicard,
    Shanghai,
    Sakhir,
    Catalunya,
    Monaco,
    Montreal,
    Silverstone,
    Hockenheim,
    Hungaroring,
    Spa,
    Monza,
    Singapore,
    Suzuka,
    AbuDhabi,
    Texas,
    Brazil,
    Austria,
    Sochi,
    Mexico,
    Baku,
    SakhirShort,
    SilverstoneShort,
    TexasShort,
    SuzukaShort,
    Hanoi,
    Zandvoort,
    /// Wire code -1: unknown track.
    Unknown,
}

/// A track segment watched by marshals.
#[derive(Debug, Clone, Copy, PartialEq, Eq, Structural)]
pub struct MarshalZone {
    /// Fraction (0..1) of the way through the lap the zone starts,
    /// 32-bit floating point.
    pub zone_start: Float32,
    /// Flag currently shown in the zone.
    pub zone_flag: ZoneFlag,
}

/// One weather-forecast sample.
#[derive(Debug, Clone, Copy, PartialEq, Eq, Structural)]
pub struct WeatherForecastSample {
    /// Session the forecast is for.
    pub session_type: SessionType,
    /// Time in minutes the forecast is for.
    pub time_offset: u8,
    /// Forecast weather.
    pub weather: Weather,
    /// Track temperature in degrees Celsius.
    pub track_temperature: i8,
    /// Air temperature in degrees Celsius.
    pub air_temperature: i8,
}

/// The session packet.
#[derive(Debug, Clone, PartialEq, Eq)]
pub struct PacketSessionData {
    pub header: PacketHeader,
    pub weather: Weather,
    /// Track temperature in degrees Celsius.
    pub track_temperature: i8,
    /// Air temperature in degrees Celsius.
    pub air_temperature: i8,
    /// Total number of laps in this race.
    pub total_laps: u8,
    /// Track length in metres.
    pub track_length: u16,
    pub session_type: SessionType,
    pub track_id: Track,
    pub formula: Formula,
    /// Time left in the session in seconds.
    pub session_time_left: u16,
    /// Session duration in seconds.
    pub session_duration: u16,
    /// Pit speed limit in kilometres per hour.
    pub pit_speed_limit: u8,
    /// Whether the game is paused.
    pub game_paused: u8,
    /// Whether the player is spectating.
    pub is_spectating: u8,
    /// Index of the car being spectated.
    pub spectator_car_index: u8,
    /// SLI Pro support: 0 inactive, 1 active.
    pub sli_pro_native_support: u8,
    /// Number of marshal zones that were declared (and read).
    pub num_marshal_zones: u8,
    /// Exactly the declared number of marshal zones.
    pub marshal_zone: Vec<MarshalZone>,
    pub safety_car_status: SafetyCar,
    pub network_game: NetworkGame,
    /// Number of weather samples declared; the array below is always full.
    pub num_weather_forecast_samples: u8,
    /// Fixed 20-entry array of forecast samples, read regardless of the
    /// declared count.
    pub weather_forecast_sample: Vec<WeatherForecastSample>,
}

/// The weather table: codes 0 through 5.
pub open spec fn spec_parse_weather(value: u8) -> Result<Weather, DecodeError> {
    match value {
        0u8 => Ok(Weather::Clear),
        1u8 => Ok(Weather::LightCloud),
        2u8 => Ok(Weather::Overcast),
        3u8 => Ok(Weather::LightRain),
        4u8 => Ok(Weather::HeavyRain),
        5u8 => Ok(Weather::Storm),
        _ => Err(DecodeError::InvalidEnumValue(CodedField::Weather, value as i16)),
    }
}

/// Decodes a weather code.
pub fn parse_weather(value: u8) -> (r: Result<Weather, DecodeError>)
    ensures
        r == spec_parse_weather(value),
{
    match value {
        0u8 => Ok(Weather::Clear),
        1u8 => Ok(Weather::LightCloud),
        2u8 => Ok(Weather::Overcast),
        3u8 => Ok(Weather::LightRain),
        4u8 => Ok(Weather::HeavyRain),
        5u8 => Ok(Weather::Storm),
        _ => Err(DecodeError::InvalidEnumValue(CodedField::Weather, value as i16)),
    }
}

/// The session-type table: codes 0 through 12.
pub open spec fn spec_parse_session_type(value: u8) -> Result<SessionType, DecodeError> {
    match value {
        0u8 => Ok(SessionType::Unknown),
        1u8 => Ok(SessionType::P1),
        2u8 => Ok(SessionType::P2),
        3u8 => Ok(SessionType::P3),
        4u8 => Ok(SessionType::ShortP),
        5u8 => Ok(SessionType::Q1),
        6u8 => Ok(SessionType::Q2),
        7u8 => Ok(SessionType::Q3),
        8u8 => Ok(SessionType::ShortQ),
        9u8 => Ok(SessionType::OSQ),
        10u8 => Ok(SessionType::R),
        11u8 => Ok(SessionType::R2),
        12u8 => Ok(SessionType::TimeTrial),
        _ => Err(DecodeError::InvalidEnumValue(CodedField::SessionType, value as i16)),
    }
}

/// Decodes a session-type code.
pub fn parse_session_type(value: u8) -> (r: Result<SessionType, DecodeError>)
    ensures
        r == spec_parse_session_type(value),
{
    match value {
        0u8 => Ok(SessionType::Unknown),
        1u8 => Ok(SessionType::P1),
        2u8 => Ok(SessionType::P2),
        3u8 => Ok(SessionType::P3),
        4u8 => Ok(SessionType::ShortP),
        5u8 => Ok(SessionType::Q1),
        6u8 => Ok(SessionType::Q2),
        7u8 => Ok(SessionType::Q3),
        8u8 => Ok(SessionType::ShortQ),
        9u8 => Ok(SessionType::OSQ),
        10u8 => Ok(SessionType::R),
        11u8 => Ok(SessionType::R2),
        12u8 => Ok(SessionType::TimeTrial),
        _ => Err(DecodeError::InvalidEnumValue(CodedField::SessionType, value as i16)),
    }
}

/// The track table: -1 for unknown, 0 through 26 for tracks.
pub open spec fn spec_parse_track(value: i8) -> Result<Track, DecodeError> {
    match value {
        -1i8 => Ok(Track::Unknown),
        0i8 => Ok(Track::Melbourne),
        1i8 => Ok(Track::PaulRicard),
        2i8 => Ok(Track::Shanghai),
        3i8 => Ok(Track::Sakhir),
        4i8 => Ok(Track::Catalunya),
        5i8 => Ok(Track::Monaco),
        6i8 => Ok(Track::Montreal),
        7i8 => Ok(Track::Silverstone),
        8i8 => Ok(Track::Hockenheim),
        9i8 => Ok(Track::Hungaroring),
        10i8 => Ok(Track::Spa),
        11i8 => Ok(Track::Monza),
        12i8 => Ok(Track::Singapore),
        13i8 => Ok(Track::Suzuka),
        14i8 => Ok(Track::AbuDhabi),
        15i8 => Ok(Track::Texas),
        16i8 => Ok(Track::Brazil),
        17i8 => Ok(Track::Austria),
        18i8 => Ok(Track::Sochi),
        19i8 => Ok(Track::Mexico),
        20i8 => Ok(Track::Baku),
        21i8 => Ok(Track::SakhirShort),
        22i8 => Ok(Track::SilverstoneShort),
        23i8 => Ok(Track::TexasShort),
        24i8 => Ok(Track::SuzukaShort),
        25i8 => Ok(Track::Hanoi),
        26i8 => Ok(Track::Zandvoort),
        _ => Err(DecodeError::InvalidEnumValue(CodedField::TrackId, value as i16)),
    }
}

/// Decodes a track code.
pub fn parse_track(value: i8) -> (r: Result<Track, DecodeError>)
    ensures
        r == spec_parse_track(value),
{
    match value {
        -1i8 => Ok(Track::Unknown),
        0i8 => Ok(Track::Melbourne),
        1i8 => Ok(Track::PaulRicard),
        2i8 => Ok(Track::Shanghai),
        3i8 => Ok(Track::Sakhir),
        4i8 => Ok(Track::Catalunya),
        5i8 => Ok(Track::Monaco),
        6i8 => Ok(Track::Montreal),
        7i8 => Ok(Track::Silverstone),
        8i8 => Ok(Track::Hockenheim),
        9i8 => Ok(Track::Hungaroring),
        10i8 => Ok(Track::Spa),
        11i8 => Ok(Track::Monza),
        12i8 => Ok(Track::Singapore),
        13i8 => Ok(Track::Suzuka),
        14i8 => Ok(Track::AbuDhabi),
        15i8 => Ok(Track::Texas),
        16i8 => Ok(Track::Brazil),
        17i8 => Ok(Track::Austria),
        18i8 => Ok(Track::Sochi),
        19i8 => Ok(Track::Mexico),
        20i8 => Ok(Track::Baku),
        21i8 => Ok(Track::SakhirShort),
        22i8 => Ok(Track::SilverstoneShort),
        23i8 => Ok(Track::TexasShort),
        24i8 => Ok(Track::SuzukaShort),
        25i8 => Ok(Track::Hanoi),
        26i8 => Ok(Track::Zandvoort),
        _ => Err(DecodeError::InvalidEnumValue(CodedField::TrackId, value as i16)),
    }
}

/// The formula table: codes 0 through 3.
pub open spec fn spec_parse_formula(value: u8) -> Result<Formula, DecodeError> {
    match value {
        0u8 => Ok(Formula::F1Modern),
        1u8 => Ok(Formula::F1Classic),
        2u8 => Ok(Formula::F2),
        3u8 => Ok(Formula::F1Generic),
        _ => Err(DecodeError::InvalidEnumValue(CodedField::Formula, value as i16)),
    }
}

/// Decodes a formula code.
pub fn parse_formula(value: u8) -> (r: Result<Formula, DecodeError>)
    ensures
        r == spec_parse_formula(value),
{
    match value {
        0u8 => Ok(Formula::F1Modern),
        1u8 => Ok(Formula::F1Classic),
        2u8 => Ok(Formula::F2),
        3u8 => Ok(Formula::F1Generic),
        _ => Err(DecodeError::InvalidEnumValue(CodedField::Formula, value as i16)),
    }
}

/// The flag table: -1 for unknown, 0 for none, then green, blue, yellow, red.
pub open spec fn spec_parse_flag(value: i8) -> Result<ZoneFlag, DecodeError> {
    match value {
        -1i8 => Ok(ZoneFlag::Unknown),
        0i8 => Ok(ZoneFlag::NoFlag),
        1i8 => Ok(ZoneFlag::Green),
        2i8 => Ok(ZoneFlag::Blue),
        3i8 => Ok(ZoneFlag::Yellow),
        4i8 => Ok(ZoneFlag::Red),
        _ => Err(DecodeError::InvalidEnumValue(CodedField::ZoneFlag, value as i16)),
    }
}

/// Decodes a flag code.
pub fn parse_flag(value: i8) -> (r: Result<ZoneFlag, DecodeError>)
    ensures
        r == spec_parse_flag(value),
{
    match value {
        -1i8 => Ok(ZoneFlag::Unknown),
        0i8 => Ok(ZoneFlag::NoFlag),
        1i8 => Ok(ZoneFlag::Green),
        2i8 => Ok(ZoneFlag::Blue),
        3i8 => Ok(ZoneFlag::Yellow),
        4i8 => Ok(ZoneFlag::Red),
        _ => Err(DecodeError::InvalidEnumValue(CodedField::ZoneFlag, value as i16)),
    }
}

/// The safety-car table: codes 0 through 2.
pub open spec fn spec_parse_safety_car(value: u8) -> Result<SafetyCar, DecodeError> {
    match value {
        0u8 => Ok(SafetyCar::NoSafetyCar),
        1u8 => Ok(SafetyCar::Full),
        2u8 => Ok(SafetyCar::Virtual),
        _ => Err(DecodeError::InvalidEnumValue(CodedField::SafetyCar, value as i16)),
    }
}

/// Decodes a safety-car code.
pub fn parse_safety_car(value: u8) -> (r: Result<SafetyCar, DecodeError>)
    ensures
        r == spec_parse_safety_car(value),
{
    match value {
        0u8 => Ok(SafetyCar::NoSafetyCar),
        1u8 => Ok(SafetyCar::Full),
        2u8 => Ok(SafetyCar::Virtual),
        _ => Err(DecodeError::InvalidEnumValue(CodedField::SafetyCar, value as i16)),
    }
}

/// The network-game table: 0 offline, 1 online.
pub open spec fn spec_parse_network_game(value: u8) -> Result<NetworkGame, DecodeError> {
    match value {
        0u8 => Ok(NetworkGame::Offline),
        1u8 => Ok(NetworkGame::Online),
        _ => Err(DecodeError::InvalidEnumValue(CodedField::NetworkGame, value as i16)),
    }
}

/// Decodes a network-game code.
pub fn parse_network_game(value: u8) -> (r: Result<NetworkGame, DecodeError>)
    ensures
        r == spec_parse_network_game(value),
{
    match value {
        0u8 => Ok(NetworkGame::Offline),
        1u8 => Ok(NetworkGame::Online),
        _ => Err(DecodeError::InvalidEnumValue(CodedField::NetworkGame, value as i16)),
    }
}

/// Number of marshal zones the packet at header-end `h` declares.
pub open spec fn spec_num_zones(s: Seq<u8>, h: int) -> int {
    s[h + 18] as int
}

/// Position just after the variable marshal-zone list.
pub open spec fn spec_after_zones(s: Seq<u8>, h: int) -> int {
    h + 19 + 5 * spec_num_zones(s, h)
}

/// Whether the 5-byte marshal zone at `z` decodes without error.
pub open spec fn spec_zone_ok(s: Seq<u8>, z: int) -> bool {
    z + 5 <= s.len() && spec_parse_flag(s[z + 4] as i8) is Ok
}

/// The first error met reading the marshal zone at `z`; meaningful only when
/// the zone does not decode.
pub open spec fn spec_zone_err(s: Seq<u8>, z: int) -> DecodeError {
    if z + 5 > s.len() {
        DecodeError::UnexpectedEndOfBuffer
    } else {
        spec_parse_flag(s[z + 4] as i8)->Err_0
    }
}

/// The marshal zone laid out at `z`: start fraction, then flag code.
pub open spec fn spec_zone(s: Seq<u8>, z: int) -> MarshalZone {
    MarshalZone {
        zone_start: Float32 { bits: le_u32(s, z) },
        zone_flag: spec_parse_flag(s[z + 4] as i8)->Ok_0,
    }
}

/// Whether the 5-byte forecast sample at `p` decodes without error.
pub open spec fn spec_forecast_ok(s: Seq<u8>, p: int) -> bool {
    &&& p + 5 <= s.len()
    &&& spec_parse_session_type(s[p]) is Ok
    &&& spec_parse_weather(s[p + 2]) is Ok
}

/// The first error met reading the forecast sample at `p` in wire order;
/// meaningful only when the sample does not decode.
pub open spec fn spec_forecast_err(s: Seq<u8>, p: int) -> DecodeError {
    if p + 1 > s.len() {
        DecodeError::UnexpectedEndOfBuffer
    } else if spec_parse_session_type(s[p]) is Err {
        spec_parse_session_type(s[p])->Err_0
    } else if p + 3 > s.len() {
        DecodeError::UnexpectedEndOfBuffer
    } else if spec_parse_weather(s[p + 2]) is Err {
        spec_parse_weather(s[p + 2])->Err_0
    } else {
        DecodeError::UnexpectedEndOfBuffer
    }
}

/// The forecast sample laid out at `p`.
pub open spec fn spec_forecast(s: Seq<u8>, p: int) -> WeatherForecastSample {
    WeatherForecastSample {
        session_type: spec_parse_session_type(s[p])->Ok_0,
        time_offset: s[p + 1],
        weather: spec_parse_weather(s[p + 2])->Ok_0,
        track_temperature: s[p + 3] as i8,
        air_temperature: s[p + 4] as i8,
    }
}

/// Whether the session payload at header-end `h` decodes without error.
pub open spec fn spec_session_ok(s: Seq<u8>, h: int) -> bool {
    &&& h + 19 <= s.len()
    &&& spec_parse_weather(s[h]) is Ok
    &&& spec_parse_session_type(s[h + 6]) is Ok
    &&& spec_parse_track(s[h + 7] as i8) is Ok
    &&& spec_parse_formula(s[h + 8]) is Ok
    &&& (forall|j: int| 0 <= j < spec_num_zones(s, h) ==> #[trigger] spec_zone_ok(s, h + 19 + 5 * j))
    &&& spec_after_zones(s, h) + 3 <= s.len()
    &&& spec_parse_safety_car(s[spec_after_zones(s, h)]) is Ok
    &&& spec_parse_network_game(s[spec_after_zones(s, h) + 1]) is Ok
    &&& (forall|j: int|
        0 <= j < 20 ==> #[trigger] spec_forecast_ok(s, spec_after_zones(s, h) + 3 + 5 * j))
}

/// Whether `e` is the first error met reading the session payload at
/// header-end `h` in wire order; meaningful only when the payload does not
/// decode.
pub open spec fn spec_session_err_matches(s: Seq<u8>, h: int, e: DecodeError) -> bool {
    if h + 1 > s.len() {
        e == DecodeError::UnexpectedEndOfBuffer
    } else if spec_parse_weather(s[h]) is Err {
        e == spec_parse_weather(s[h])->Err_0
    } else if h + 7 > s.len() {
        e == DecodeError::UnexpectedEndOfBuffer
    } else if spec_parse_session_type(s[h + 6]) is Err {
        e == spec_parse_session_type(s[h + 6])->Err_0
    } else if h + 8 > s.len() {
        e == DecodeError::UnexpectedEndOfBuffer
    } else if spec_parse_track(s[h + 7] as i8) is Err {
        e == spec_parse_track(s[h + 7] as i8)->Err_0
    } else if h + 9 > s.len() {
        e == DecodeError::UnexpectedEndOfBuffer
    } else if spec_parse_formula(s[h + 8]) is Err {
        e == spec_parse_formula(s[h + 8])->Err_0
    } else if h + 19 > s.len() {
        e == DecodeError::UnexpectedEndOfBuffer
    } else if !(forall|j: int|
        0 <= j < spec_num_zones(s, h) ==> #[trigger] spec_zone_ok(s, h + 19 + 5 * j)) {
        exists|j: int|
            0 <= j < spec_num_zones(s, h) && !(#[trigger] spec_zone_ok(s, h + 19 + 5 * j)) && e
                == spec_zone_err(s, h + 19 + 5 * j) && (forall|k: int|
                0 <= k < j ==> #[trigger] spec_zone_ok(s, h + 19 + 5 * k))
    } else if spec_after_zones(s, h) + 1 > s.len() {
        e == DecodeError::UnexpectedEndOfBuffer
    } else if spec_parse_safety_car(s[spec_after_zones(s, h)]) is Err {
        e == spec_parse_safety_car(s[spec_after_zones(s, h)])->Err_0
    } else if spec_after_zones(s, h) + 2 > s.len() {
        e == DecodeError::UnexpectedEndOfBuffer
    } else if spec_parse_network_game(s[spec_after_zones(s, h) + 1]) is Err {
        e == spec_parse_network_game(s[spec_after_zones(s, h) + 1])->Err_0
    } else if spec_after_zones(s, h) + 3 > s.len() {
        e == DecodeError::UnexpectedEndOfBuffer
    } else if !(forall|j: int|
        0 <= j < 20 ==> #[trigger] spec_forecast_ok(s, spec_after_zones(s, h) + 3 + 5 * j)) {
        exists|j: int|
            0 <= j < 20 && !(#[trigger] spec_forecast_ok(s, spec_after_zones(s, h) + 3 + 5 * j))
                && e == spec_forecast_err(s, spec_after_zones(s, h) + 3 + 5 * j) && (forall|k: int|
                0 <= k < j ==> #[trigger] spec_forecast_ok(s, spec_after_zones(s, h) + 3 + 5 * k))
    } else {
        false
    }
}

/// Whether `p` holds exactly the fields of the session payload laid out at
/// header-end `h`.
pub open spec fn spec_session_matches(p: PacketSessionData, s: Seq<u8>, h: int) -> bool {
    &&& p.weather == spec_parse_weather(s[h])->Ok_0
    &&& p.track_temperature == s[h + 1] as i8
    &&& p.air_temperature == s[h + 2] as i8
    &&& p.total_laps == s[h + 3]
    &&& p.track_length == le_u16(s, h + 4)
    &&& p.session_type == spec_parse_session_type(s[h + 6])->Ok_0
    &&& p.track_id == spec_parse_track(s[h + 7] as i8)->Ok_0
    &&& p.formula == spec_parse_formula(s[h + 8])->Ok_0
    &&& p.session_time_left == le_u16(s, h + 9)
    &&& p.session_duration == le_u16(s, h + 11)
    &&& p.pit_speed_limit == s[h + 13]
    &&& p.game_paused == s[h + 14]
    &&& p.is_spectating == s[h + 15]
    &&& p.spectator_car_index == s[h + 16]
    &&& p.sli_pro_native_support == s[h + 17]
    &&& p.num_marshal_zones == s[h + 18]
    &&& p.marshal_zone@.len() == spec_num_zones(s, h)
    &&& (forall|j: int|
        0 <= j < spec_num_zones(s, h) ==> #[trigger] p.marshal_zone@[j] == spec_zone(
            s,
            h + 19 + 5 * j,
        ))
    &&& p.safety_car_status == spec_parse_safety_car(s[spec_after_zones(s, h)])->Ok_0
    &&& p.network_game == spec_parse_network_game(s[spec_after_zones(s, h) + 1])->Ok_0
    &&& p.num_weather_forecast_samples == s[spec_after_zones(s, h) + 2]
    &&& p.weather_forecast_sample@.len() == 20
    &&& (forall|j: int|
        0 <= j < 20 ==> #[trigger] p.weather_forecast_sample@[j] == spec_forecast(
            s,
            spec_after_zones(s, h) + 3 + 5 * j,
        ))
}

/// Decodes one 5-byte weather-forecast sample from the cursor's current
/// position.
fn parse_weather_forecast_sample(cursor: &mut Cursor) -> (r: Result<
    WeatherForecastSample,
    DecodeError,
>)
    ensures
        final(cursor).data == old(cursor).data,
        spec_forecast_ok(old(cursor).data@, old(cursor).pos as int) <==> r is Ok,
        r is Ok ==> final(cursor).pos == old(cursor).pos + 5 && r->Ok_0 == spec_forecast(
            old(cursor).data@,
            old(cursor).pos as int,
        ),
        r is Err ==> r->Err_0 == spec_forecast_err(old(cursor).data@, old(cursor).pos as int),
{
    let session_type = parse_session_type(cursor.read_u8()?)?;
    let time_offset = cursor.read_u8()?;
    let weather = parse_weather(cursor.read_u8()?)?;
    let track_temperature = cursor.read_i8()?;
    let air_temperature = cursor.read_i8()?;

    Ok(WeatherForecastSample { session_type, time_offset, weather, track_temperature, air_temperature })
}

/// Rejects a declared datagram length other than the exact session size.
fn ensure_session_size(size: usize) -> (r: Result<(), DecodeError>)
    ensures
        size == 251 ==> r == Ok::<(), DecodeError>(()),
        size != 251 ==> r == Err::<(), DecodeError>(
            DecodeError::InvalidSize(Section::Session, size, 251),
        ),
{
    if size == SESSION_MIN_SIZE {
        return Ok(());
    }
    Err(DecodeError::InvalidSize(Section::Session, size, SESSION_MIN_SIZE))
}

/// Everything the session decoder promises of its result `r`, for the
/// buffer `s`, payload start `h` (the end of the header), the already-decoded
/// `header`, and the declared datagram length `size`.
pub open spec fn spec_session_outcome(
    r: Result<PacketSessionData, DecodeError>,
    s: Seq<u8>,
    h: int,
    header: PacketHeader,
    size: usize,
) -> bool {
    &&& size != 251 ==> r == Err::<PacketSessionData, DecodeError>(
        DecodeError::InvalidSize(Section::Session, size, 251),
    )
    &&& size == 251 ==> (r is Ok <==> spec_session_ok(s, h))
    &&& size == 251 && r is Ok ==> r->Ok_0.header == header && spec_session_matches(r->Ok_0, s, h)
    &&& size == 251 && r is Err ==> spec_session_err_matches(s, h, r->Err_0)
}

/// Decodes the session payload: the fixed leading fields, exactly the
/// declared number of marshal zones, the safety-car and network fields, and
/// the fixed 20-entry weather-forecast array.
///
/// A declared length other than exactly 251 is rejected with `InvalidSize`
/// before any field is read (exact-size policy).  The marshal-zone list is
/// read to exactly the declared count; the forecast array is always read in
/// full, whatever its declared count.  Success is exactly the case where
/// every field decodes; on failure the error is the first error in wire
/// order.
#[verifier::rlimit(100)]
pub fn parse_session(cursor: &mut Cursor, header: PacketHeader, size: usize) -> (r: Result<
    PacketSessionData,
    DecodeError,
>)
    ensures
        final(cursor).data == old(cursor).data,
        spec_session_outcome(r, old(cursor).data@, old(cursor).pos as int, header, size),
        size != 251 ==> final(cursor).pos == old(cursor).pos,
        r is Ok ==> final(cursor).pos == spec_after_zones(old(cursor).data@, old(cursor).pos as int)
            + 103,
{
    ensure_session_size(size)?;

    let ghost s = cursor.data@;
    let ghost h = cursor.pos as int;

    let weather = parse_weather(cursor.read_u8()?)?;
    let track_temperature = cursor.read_i8()?;
    let air_temperature = cursor.read_i8()?;
    let total_laps = cursor.read_u8()?;
    let track_length = cursor.read_u16()?;
    let session_type = parse_session_type(cursor.read_u8()?)?;
    let track_id = parse_track(cursor.read_i8()?)?;
    let formula = parse_formula(cursor.read_u8()?)?;
    let session_time_left = cursor.read_u16()?;
    let session_duration = cursor.read_u16()?;
    let pit_speed_limit = cursor.read_u8()?;
    let game_paused = cursor.read_u8()?;
    let is_spectating = cursor.read_u8()?;
    let spectator_car_index = cursor.read_u8()?;
    let sli_pro_native_support = cursor.read_u8()?;

    let num_marshal_zones = cursor.read_u8()?;
    let ghost n = spec_num_zones(s, h);

    let mut marshal_zone: Vec<MarshalZone> = Vec::new();
    let mut i: usize = 0;
    while i < num_marshal_zones as usize
        invariant
            size == 251,
            s == cursor.data@,
            s == old(cursor).data@,
            cursor.data == old(cursor).data,
            h == old(cursor).pos as int,
            n == spec_num_zones(s, h),
            h + 19 <= s.len(),
            spec_parse_weather(s[h]) is Ok,
            spec_parse_session_type(s[h + 6]) is Ok,
            spec_parse_track(s[h + 7] as i8) is Ok,
            spec_parse_formula(s[h + 8]) is Ok,
            num_marshal_zones as int == n,
            0 <= i <= n,
            cursor.pos == h + 19 + 5 * i,
            marshal_zone@.len() == i,
            forall|j: int| 0 <= j < i ==> #[trigger] spec_zone_ok(s, h + 19 + 5 * j),
            forall|j: int|
                0 <= j < i ==> #[trigger] marshal_zone@[j] == spec_zone(s, h + 19 + 5 * j),
        decreases n - i,
    {
        let ghost z = h + 19 + 5 * (i as int);
        let bits = match cursor.read_u32() {
            Ok(b) => b,
            Err(e) => {
                proof {
                    assert(!spec_zone_ok(s, z));
                    assert(e == spec_zone_err(s, z));
                }
                return Err(e);
            },
        };
        let flag_code = match cursor.read_i8() {
            Ok(v) => v,
            Err(e) => {
                proof {
                    assert(!spec_zone_ok(s, z));
                    assert(e == spec_zone_err(s, z));
                }
                return Err(e);
            },
        };
        let zone_flag = match parse_flag(flag_code) {
            Ok(f) => f,
            Err(e) => {
                proof {
                    assert(!spec_zone_ok(s, z));
                    assert(e == spec_zone_err(s, z));
                }
                return Err(e);
            },
        };
        marshal_zone.push(MarshalZone { zone_start: Float32 { bits }, zone_flag });
        i = i + 1;
    }

    let safety_car_status = parse_safety_car(cursor.read_u8()?)?;
    let network_game = parse_network_game(cursor.read_u8()?)?;

    let num_weather_forecast_samples = cursor.read_u8()?;
    let ghost f = spec_after_zones(s, h) + 3;

    let mut weather_forecast_sample: Vec<WeatherForecastSample> = Vec::new();
    let mut i: usize = 0;
    while i < WEATHER_FORECAST_SAMPLE_MAX
        invariant
            size == 251,
            s == cursor.data@,
            s == old(cursor).data@,
            cursor.data == old(cursor).data,
            h == old(cursor).pos as int,
            h + 19 <= s.len(),
            spec_parse_weather(s[h]) is Ok,
            spec_parse_session_type(s[h + 6]) is Ok,
            spec_parse_track(s[h + 7] as i8) is Ok,
            spec_parse_formula(s[h + 8]) is Ok,
            forall|j: int| 0 <= j < spec_num_zones(s, h) ==> #[trigger] spec_zone_ok(s, h + 19 + 5 * j),
            f == spec_after_zones(s, h) + 3,
            f <= s.len(),
            spec_parse_safety_car(s[spec_after_zones(s, h)]) is Ok,
            spec_parse_network_game(s[spec_after_zones(s, h) + 1]) is Ok,
            0 <= i <= 20,
            cursor.pos == f + 5 * i,
            weather_forecast_sample@.len() == i,
            forall|j: int| 0 <= j < i ==> #[trigger] spec_forecast_ok(s, f + 5 * j),
            forall|j: int|
                0 <= j < i ==> #[trigger] weather_forecast_sample@[j] == spec_forecast(s, f + 5 * j),
        decreases 20 - i,
    {
        match parse_weather_forecast_sample(cursor) {
            Ok(sample) => {
                weather_forecast_sample.push(sample);
            },
            Err(e) => {
                proof {
                    assert(!spec_forecast_ok(s, f + 5 * (i as int)));
                    assert(e == spec_forecast_err(s, f + 5 * (i as int)));
                }
                return Err(e);
            },
        }
        i = i + 1;
    }

    Ok(PacketSessionData {
        header,
        weather,
        track_temperature,
        air_temperature,
        total_laps,
        track_length,
        session_type,
        track_id,
        formula,
        session_time_left,
        session_duration,
        pit_speed_limit,
        game_paused,
        is_spectating,
        spectator_car_index,
        sli_pro_native_support,
        num_marshal_zones,
        marshal_zone,
        safety_car_status,
        network_game,
        num_weather_forecast_samples,
        weather_forecast_sample,
    })
}

} // verus!
