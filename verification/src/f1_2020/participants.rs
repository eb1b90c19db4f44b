//! The participants packet: the roster of every car slot.

use crate::cursor::Cursor;
use crate::error::{CodedField, DecodeError, Section};
use crate::f1_2020::car::TOTAL_CARS;
use crate::f1_2020::driver::Driver;
use crate::f1_2020::header::PacketHeader;
use crate::f1_2020::nationality::Nationality;
use crate::f1_2020::team::Team;
use vstd::prelude::*;

verus! {

/// Minimum expected size of a participants datagram.
pub const PARTICIPANTS_MIN_SIZE: usize = 1213;

/// Width of the fixed name field in bytes.
pub const NAME_FIELD_SIZE: usize = 48;

/// Whether a player's telemetry is visible to others.
#[derive(Debug, Clone, Copy, PartialEq, Eq, Structural)]
pub enum YourTelemetry {
    Restricted,
    Public,
}

/// One car slot of the roster.
#[derive(Debug, Clone, PartialEq, Eq)]
pub struct ParticipantData {
    /// Whether the vehicle is AI (true) or human (false) controlled.
    pub ai_controlled: bool,
    pub driver: Driver,
    pub team: Team,
    /// Race number of the car.
    pub race_number: u8,
    pub nationality: Nationality,
    /// Name of the participant: the 48-byte wire field up to (excluding) its
    /// first null byte.
    pub name: String,
    /// The player's telemetry-visibility setting.
    pub your_telemetry: YourTelemetry,
}

/// The participants packet: the declared active-car count and one entry per
/// car slot.
#[derive(Debug, Clone, PartialEq, Eq)]
pub struct PacketParticipantsData {
    pub header: PacketHeader,
    /// Number of active cars declared in the packet; the array below always
    /// holds every slot regardless.
    pub num_active_cars: u8,
    pub participants: Vec<ParticipantData>,
}

/// The your-telemetry table: 0 restricted, 1 public.
pub open spec fn spec_parse_your_telemetry(value: u8) -> Result<YourTelemetry, DecodeError> {
    match value {
        0u8 => Ok(YourTelemetry::Restricted),
        1u8 => Ok(YourTelemetry::Public),
        _ => Err(DecodeError::InvalidEnumValue(CodedField::YourTelemetry, value as i16)),
    }
}

/// Decodes a your-telemetry code.
pub fn parse_your_telemetry(value: u8) -> (r: Result<YourTelemetry, DecodeError>)
    ensures
        r == spec_parse_your_telemetry(value),
{
    match value {
        0u8 => Ok(YourTelemetry::Restricted),
        1u8 => Ok(YourTelemetry::Public),
        _ => Err(DecodeError::InvalidEnumValue(CodedField::YourTelemetry, value as i16)),
    }
}

/// The driver table: the declared codes, with every code of 100 or above
/// denoting a human player.
pub open spec fn spec_parse_driver(value: u8) -> Result<Driver, DecodeError> {
    if value >= 100 {
        Ok(Driver::Player)
    } else {
        match value {
            0u8 => Ok(Driver::CarlosSainz),
            1u8 => Ok(Driver::DaniilKvyat),
            2u8 => Ok(Driver::DanielRicciardo),
            6u8 => Ok(Driver::KimiRaikkonen),
            7u8 => Ok(Driver::LewisHamilton),
            9u8 => Ok(Driver::MaxVerstappen),
            10u8 => Ok(Driver::NicoHulkenburg),
            11u8 => Ok(Driver::KevinMagnussen),
            12u8 => Ok(Driver::RomainGrosjean),
            13u8 => Ok(Driver::SebastianVettel),
            14u8 => Ok(Driver::SergioPerez),
            15u8 => Ok(Driver::ValtteriBottas),
            17u8 => Ok(Driver::EstebanOcon),
            19u8 => Ok(Driver::LanceStroll),
            20u8 => Ok(Driver::ArronBarnes),
            21u8 => Ok(Driver::MartinGiles),
            22u8 => Ok(Driver::AlexMurray),
            23u8 => Ok(Driver::LucasRoth),
            24u8 => Ok(Driver::IgorCorreia),
            25u8 => Ok(Driver::SophieLevasseur),
            26u8 => Ok(Driver::JonasSchiffer),
            27u8 => Ok(Driver::AlainForest),
            28u8 => Ok(Driver::JayLetourneau),
            29u8 => Ok(Driver::EstoSaari),
            30u8 => Ok(Driver::YasarAtiyeh),
            31u8 => Ok(Driver::CallistoCalabresi),
            32u8 => Ok(Driver::NaotaIzum),
            33u8 => Ok(Driver::HowardClarke),
            34u8 => Ok(Driver::WilhelmKaufmann),
            35u8 => Ok(Driver::MarieLaursen),
            36u8 => Ok(Driver::FlavioNieves),
            37u8 => Ok(Driver::PeterBelousov),
            38u8 => Ok(Driver::KlimekMichalski),
            39u8 => Ok(Driver::SantiagoMoreno),
            40u8 => Ok(Driver::BenjaminCoppens),
            41u8 => Ok(Driver::NoahVisser),
            42u8 => Ok(Driver::GertWaldmuller),
            43u8 => Ok(Driver::JulianQuesada),
            44u8 => Ok(Driver::DanielJones),
            45u8 => Ok(Driver::ArtemMarkelov),
            46u8 => Ok(Driver::TadasukeMakino),
            47u8 => Ok(Driver::SeanGelael),
            48u8 => Ok(Driver::NyckDeVries),
            49u8 => Ok(Driver::JackAitken),
            50u8 => Ok(Driver::GeorgeRussell),
            51u8 => Ok(Driver::MaximilianGunther),
            52u8 => Ok(Driver::NireiFukuzumi),
            53u8 => Ok(Driver::LucaGhiotto),
            54u8 => Ok(Driver::LandoNorris),
            55u8 => Ok(Driver::SergioSetteCamara),
            56u8 => Ok(Driver::LouisDeletraz),
            57u8 => Ok(Driver::AntonioFuoco),
            58u8 => Ok(Driver::CharlesLeclerc),
            59u8 => Ok(Driver::PierreGasly),
            62u8 => Ok(Driver::AlexanderAlbon),
            63u8 => Ok(Driver::NicholasLatifi),
            64u8 => Ok(Driver::DorianBoccolacci),
            65u8 => Ok(Driver::NikoKari),
            66u8 => Ok(Driver::RobertoMerhi),
            67u8 => Ok(Driver::ArjunMaini),
            68u8 => Ok(Driver::AlessioLorandi),
            69u8 => Ok(Driver::RubenMeijer),
            70u8 => Ok(Driver::RashidNair),
            71u8 => Ok(Driver::JackTremblay),
            74u8 => Ok(Driver::AntonioGiovinazzi),
            75u8 => Ok(Driver::RobertKubica),
            78u8 => Ok(Driver::NobuharuMatsushita),
            79u8 => Ok(Driver::NikitaMazepin),
            80u8 => Ok(Driver::GuanyaZhou),
            81u8 => Ok(Driver::MickSchumacher),
            82u8 => Ok(Driver::CallumIlott),
            83u8 => Ok(Driver::JuanManuelCorrea),
            84u8 => Ok(Driver::JordanKing),
            85u8 => Ok(Driver::MahaveerRaghunathan),
            86u8 => Ok(Driver::TatianaCalderon),
            87u8 => Ok(Driver::AnthoineHubert),
            88u8 => Ok(Driver::GuilianoAlesi),
            89u8 => Ok(Driver::RalphBoschung),
            _ => Err(DecodeError::InvalidEnumValue(CodedField::Driver, value as i16)),
        }
    }
}

/// Decodes a driver code.
pub fn parse_driver(value: u8) -> (r: Result<Driver, DecodeError>)
    ensures
        r == spec_parse_driver(value),
{
    if value >= 100 {
        Ok(Driver::Player)
    } else {
        match value {
            0u8 => Ok(Driver::CarlosSainz),
            1u8 => Ok(Driver::DaniilKvyat),
            2u8 => Ok(Driver::DanielRicciardo),
            6u8 => Ok(Driver::KimiRaikkonen),
            7u8 => Ok(Driver::LewisHamilton),
            9u8 => Ok(Driver::MaxVerstappen),
            10u8 => Ok(Driver::NicoHulkenburg),
            11u8 => Ok(Driver::KevinMagnussen),
            12u8 => Ok(Driver::RomainGrosjean),
            13u8 => Ok(Driver::SebastianVettel),
            14u8 => Ok(Driver::SergioPerez),
            15u8 => Ok(Driver::ValtteriBottas),
            17u8 => Ok(Driver::EstebanOcon),
            19u8 => Ok(Driver::LanceStroll),
            20u8 => Ok(Driver::ArronBarnes),
            21u8 => Ok(Driver::MartinGiles),
            22u8 => Ok(Driver::AlexMurray),
            23u8 => Ok(Driver::LucasRoth),
            24u8 => Ok(Driver::IgorCorreia),
            25u8 => Ok(Driver::SophieLevasseur),
            26u8 => Ok(Driver::JonasSchiffer),
            27u8 => Ok(Driver::AlainForest),
            28u8 => Ok(Driver::JayLetourneau),
            29u8 => Ok(Driver::EstoSaari),
            30u8 => Ok(Driver::YasarAtiyeh),
            31u8 => Ok(Driver::CallistoCalabresi),
            32u8 => Ok(Driver::NaotaIzum),
            33u8 => Ok(Driver::HowardClarke),
            34u8 => Ok(Driver::WilhelmKaufmann),
            35u8 => Ok(Driver::MarieLaursen),
            36u8 => Ok(Driver::FlavioNieves),
            37u8 => Ok(Driver::PeterBelousov),
            38u8 => Ok(Driver::KlimekMichalski),
            39u8 => Ok(Driver::SantiagoMoreno),
            40u8 => Ok(Driver::BenjaminCoppens),
            41u8 => Ok(Driver::NoahVisser),
            42u8 => Ok(Driver::GertWaldmuller),
            43u8 => Ok(Driver::JulianQuesada),
            44u8 => Ok(Driver::DanielJones),
            45u8 => Ok(Driver::ArtemMarkelov),
            46u8 => Ok(Driver::TadasukeMakino),
            47u8 => Ok(Driver::SeanGelael),
            48u8 => Ok(Driver::NyckDeVries),
            49u8 => Ok(Driver::JackAitken),
            50u8 => Ok(Driver::GeorgeRussell),
            51u8 => Ok(Driver::MaximilianGunther),
            52u8 => Ok(Driver::NireiFukuzumi),
            53u8 => Ok(Driver::LucaGhiotto),
            54u8 => Ok(Driver::LandoNorris),
            55u8 => Ok(Driver::SergioSetteCamara),
            56u8 => Ok(Driver::LouisDeletraz),
            57u8 => Ok(Driver::AntonioFuoco),
            58u8 => Ok(Driver::CharlesLeclerc),
            59u8 => Ok(Driver::PierreGasly),
            62u8 => Ok(Driver::AlexanderAlbon),
            63u8 => Ok(Driver::NicholasLatifi),
            64u8 => Ok(Driver::DorianBoccolacci),
            65u8 => Ok(Driver::NikoKari),
            66u8 => Ok(Driver::RobertoMerhi),
            67u8 => Ok(Driver::ArjunMaini),
            68u8 => Ok(Driver::AlessioLorandi),
            69u8 => Ok(Driver::RubenMeijer),
            70u8 => Ok(Driver::RashidNair),
            71u8 => Ok(Driver::JackTremblay),
            74u8 => Ok(Driver::AntonioGiovinazzi),
            75u8 => Ok(Driver::RobertKubica),
            78u8 => Ok(Driver::NobuharuMatsushita),
            79u8 => Ok(Driver::NikitaMazepin),
            80u8 => Ok(Driver::GuanyaZhou),
            81u8 => Ok(Driver::MickSchumacher),
            82u8 => Ok(Driver::CallumIlott),
            83u8 => Ok(Driver::JuanManuelCorrea),
            84u8 => Ok(Driver::JordanKing),
            85u8 => Ok(Driver::MahaveerRaghunathan),
            86u8 => Ok(Driver::TatianaCalderon),
            87u8 => Ok(Driver::AnthoineHubert),
            88u8 => Ok(Driver::GuilianoAlesi),
            89u8 => Ok(Driver::RalphBoschung),
            _ => Err(DecodeError::InvalidEnumValue(CodedField::Driver, value as i16)),
        }
    }
}

/// The team table: the declared codes, with 255 denoting the custom team.
pub open spec fn spec_parse_team(value: u8) -> Result<Team, DecodeError> {
    match value {
        0u8 => Ok(Team::Mercedes),
        1u8 => Ok(Team::Ferrari),
        2u8 => Ok(Team::RedBullRacing),
        3u8 => Ok(Team::Williams),
        4u8 => Ok(Team::RacingPoint),
        5u8 => Ok(Team::Renault),
        6u8 => Ok(Team::AlphaTauri),
        7u8 => Ok(Team::Haas),
        8u8 => Ok(Team::McLaren),
        9u8 => Ok(Team::AlfaRomeo),
        10u8 => Ok(Team::McLaren1988),
        11u8 => Ok(Team::McLaren1991),
        12u8 => Ok(Team::Williams1992),
        13u8 => Ok(Team::Ferrari1995),
        14u8 => Ok(Team::Williams1996),
        15u8 => Ok(Team::McLaren1998),
        16u8 => Ok(Team::Ferrari2002),
        17u8 => Ok(Team::Ferrari2004),
        18u8 => Ok(Team::Renault2006),
        19u8 => Ok(Team::Ferrari2007),
        20u8 => Ok(Team::McLaren2008),
        21u8 => Ok(Team::RedBull2010),
        22u8 => Ok(Team::Ferrari1976),
        23u8 => Ok(Team::ARTGrandPrix),
        24u8 => Ok(Team::CamposVexatecRacing),
        25u8 => Ok(Team::Carlin),
        26u8 => Ok(Team::CharouzRacingSystem),
        27u8 => Ok(Team::DAMS),
        28u8 => Ok(Team::RussianTime),
        29u8 => Ok(Team::MPMotorsport),
        30u8 => Ok(Team::Pertamina),
        31u8 => Ok(Team::McLaren1990),
        32u8 => Ok(Team::Trident),
        33u8 => Ok(Team::BWTArden),
        34u8 => Ok(Team::McLaren1976),
        35u8 => Ok(Team::Lotus1972),
        36u8 => Ok(Team::Ferrari1979),
        37u8 => Ok(Team::McLaren1982),
        38u8 => Ok(Team::Williams2003),
        39u8 => Ok(Team::Brawn2009),
        40u8 => Ok(Team::Lotus1978),
        41u8 => Ok(Team::F1GenericCar),
        42u8 => Ok(Team::ArtGP2019),
        43u8 => Ok(Team::Campos2019),
        44u8 => Ok(Team::Carlin2019),
        45u8 => Ok(Team::SauberJuniorCharouz2019),
        46u8 => Ok(Team::Dams2019),
        47u8 => Ok(Team::UniVirtuosi2019),
        48u8 => Ok(Team::MPMotorsport2019),
        49u8 => Ok(Team::Prema2019),
        50u8 => Ok(Team::Trident2019),
        51u8 => Ok(Team::Arden2019),
        53u8 => Ok(Team::Benetton1994),
        54u8 => Ok(Team::Benetton1995),
        55u8 => Ok(Team::Ferrari2000),
        56u8 => Ok(Team::Jordan1991),
        255u8 => Ok(Team::MyTeam),
        _ => Err(DecodeError::InvalidEnumValue(CodedField::Team, value as i16)),
    }
}

/// Decodes a team code.
pub fn parse_team(value: u8) -> (r: Result<Team, DecodeError>)
    ensures
        r == spec_parse_team(value),
{
    match value {
        0u8 => Ok(Team::Mercedes),
        1u8 => Ok(Team::Ferrari),
        2u8 => Ok(Team::RedBullRacing),
        3u8 => Ok(Team::Williams),
        4u8 => Ok(Team::RacingPoint),
        5u8 => Ok(Team::Renault),
        6u8 => Ok(Team::AlphaTauri),
        7u8 => Ok(Team::Haas),
        8u8 => Ok(Team::McLaren),
        9u8 => Ok(Team::AlfaRomeo),
        10u8 => Ok(Team::McLaren1988),
        11u8 => Ok(Team::McLaren1991),
        12u8 => Ok(Team::Williams1992),
        13u8 => Ok(Team::Ferrari1995),
        14u8 => Ok(Team::Williams1996),
        15u8 => Ok(Team::McLaren1998),
        16u8 => Ok(Team::Ferrari2002),
        17u8 => Ok(Team::Ferrari2004),
        18u8 => Ok(Team::Renault2006),
        19u8 => Ok(Team::Ferrari2007),
        20u8 => Ok(Team::McLaren2008),
        21u8 => Ok(Team::RedBull2010),
        22u8 => Ok(Team::Ferrari1976),
        23u8 => Ok(Team::ARTGrandPrix),
        24u8 => Ok(Team::CamposVexatecRacing),
        25u8 => Ok(Team::Carlin),
        26u8 => Ok(Team::CharouzRacingSystem),
        27u8 => Ok(Team::DAMS),
        28u8 => Ok(Team::RussianTime),
        29u8 => Ok(Team::MPMotorsport),
        30u8 => Ok(Team::Pertamina),
        31u8 => Ok(Team::McLaren1990),
        32u8 => Ok(Team::Trident),
        33u8 => Ok(Team::BWTArden),
        34u8 => Ok(Team::McLaren1976),
        35u8 => Ok(Team::Lotus1972),
        36u8 => Ok(Team::Ferrari1979),
        37u8 => Ok(Team::McLaren1982),
        38u8 => Ok(Team::Williams2003),
        39u8 => Ok(Team::Brawn2009),
        40u8 => Ok(Team::Lotus1978),
        41u8 => Ok(Team::F1GenericCar),
        42u8 => Ok(Team::ArtGP2019),
        43u8 => Ok(Team::Campos2019),
        44u8 => Ok(Team::Carlin2019),
        45u8 => Ok(Team::SauberJuniorCharouz2019),
        46u8 => Ok(Team::Dams2019),
        47u8 => Ok(Team::UniVirtuosi2019),
        48u8 => Ok(Team::MPMotorsport2019),
        49u8 => Ok(Team::Prema2019),
        50u8 => Ok(Team::Trident2019),
        51u8 => Ok(Team::Arden2019),
        53u8 => Ok(Team::Benetton1994),
        54u8 => Ok(Team::Benetton1995),
        55u8 => Ok(Team::Ferrari2000),
        56u8 => Ok(Team::Jordan1991),
        255u8 => Ok(Team::MyTeam),
        _ => Err(DecodeError::InvalidEnumValue(CodedField::Team, value as i16)),
    }
}

/// The nationality table: codes 1 through 88, with 0 and 255 both
/// deliberately aliased to `Invalid`.
pub open spec fn spec_parse_nationality(value: u8) -> Result<Nationality, DecodeError> {
    match value {
        1u8 => Ok(Nationality::American),
        2u8 => Ok(Nationality::Argentinean),
        3u8 => Ok(Nationality::Australian),
        4u8 => Ok(Nationality::Austrian),
        5u8 => Ok(Nationality::Azerbaijani),
        6u8 => Ok(Nationality::Bahraini),
        7u8 => Ok(Nationality::Belgian),
        8u8 => Ok(Nationality::Bolivian),
        9u8 => Ok(Nationality::Brazilian),
        10u8 => Ok(Nationality::British),
        11u8 => Ok(Nationality::Bulgarian),
        12u8 => Ok(Nationality::Cameroonian),
        13u8 => Ok(Nationality::Canadian),
        14u8 => Ok(Nationality::Chilean),
        15u8 => Ok(Nationality::Chinese),
        16u8 => Ok(Nationality::Colombian),
        17u8 => Ok(Nationality::CostaRican),
        18u8 => Ok(Nationality::Croatian),
        19u8 => Ok(Nationality::Cypriot),
        20u8 => Ok(Nationality::Czech),
        21u8 => Ok(Nationality::Danish),
        22u8 => Ok(Nationality::Dutch),
        23u8 => Ok(Nationality::Ecuadorian),
        24u8 => Ok(Nationality::English),
        25u8 => Ok(Nationality::Emirian),
        26u8 => Ok(Nationality::Estonian),
        27u8 => Ok(Nationality::Finnish),
        28u8 => Ok(Nationality::French),
        29u8 => Ok(Nationality::German),
        30u8 => Ok(Nationality::Ghanaian),
        31u8 => Ok(Nationality::Greek),
        32u8 => Ok(Nationality::Guatemalan),
        33u8 => Ok(Nationality::Honduran),
        34u8 => Ok(Nationality::HongKonger),
        35u8 => Ok(Nationality::Hungarian),
        36u8 => Ok(Nationality::Icelander),
        37u8 => Ok(Nationality::Indian),
        38u8 => Ok(Nationality::Indonesian),
        39u8 => Ok(Nationality::Irish),
        40u8 => Ok(Nationality::Israeli),
        41u8 => Ok(Nationality::Italian),
        42u8 => Ok(Nationality::Jamaican),
        43u8 => Ok(Nationality::Japanese),
        44u8 => Ok(Nationality::Jordanian),
        45u8 => Ok(Nationality::Kuwaiti),
        46u8 => Ok(Nationality::Latvian),
        47u8 => Ok(Nationality::Lebanese),
        48u8 => Ok(Nationality::Lithuanian),
        49u8 => Ok(Nationality::Luxembourger),
        50u8 => Ok(Nationality::Malaysian),
        51u8 => Ok(Nationality::Maltese),
        52u8 => Ok(Nationality::Mexican),
        53u8 => Ok(Nationality::Monegasque),
        54u8 => Ok(Nationality::NewZealander),
        55u8 => Ok(Nationality::Nicaraguan),
        56u8 => Ok(Nationality::NorthKorean),
        57u8 => Ok(Nationality::NorthernIrish),
        58u8 => Ok(Nationality::Norwegian),
        59u8 => Ok(Nationality::Omani),
        60u8 => Ok(Nationality::Pakistani),
        61u8 => Ok(Nationality::Panamanian),
        62u8 => Ok(Nationality::Paraguayan),
        63u8 => Ok(Nationality::Peruvian),
        64u8 => Ok(Nationality::Polish),
        65u8 => Ok(Nationality::Portuguese),
        66u8 => Ok(Nationality::Qatari),
        67u8 => Ok(Nationality::Romanian),
        68u8 => Ok(Nationality::Russian),
        69u8 => Ok(Nationality::Salvadoran),
        70u8 => Ok(Nationality::Saudi),
        71u8 => Ok(Nationality::Scottish),
        72u8 => Ok(Nationality::Serbian),
        73u8 => Ok(Nationality::Singaporean),
        74u8 => Ok(Nationality::Slovakian),
        75u8 => Ok(Nationality::Slovenian),
        76u8 => Ok(Nationality::SouthKorean),
        77u8 => Ok(Nationality::SouthAfrican),
        78u8 => Ok(Nationality::Spanish),
        79u8 => Ok(Nationality::Swedish),
        80u8 => Ok(Nationality::Swiss),
        81u8 => Ok(Nationality::Thai),
        82u8 => Ok(Nationality::Turkish),
        83u8 => Ok(Nationality::Uruguayan),
        84u8 => Ok(Nationality::Ukrainian),
        85u8 => Ok(Nationality::Venezuelan),
        86u8 => Ok(Nationality::Welsh),
        87u8 => Ok(Nationality::Barbadian),
        88u8 => Ok(Nationality::Vietnamese),
        0u8 | 255u8 => Ok(Nationality::Invalid),
        _ => Err(DecodeError::InvalidEnumValue(CodedField::Nationality, value as i16)),
    }
}

/// Decodes a nationality code.
pub fn parse_nationality(value: u8) -> (r: Result<Nationality, DecodeError>)
    ensures
        r == spec_parse_nationality(value),
{
    match value {
        1u8 => Ok(Nationality::American),
        2u8 => Ok(Nationality::Argentinean),
        3u8 => Ok(Nationality::Australian),
        4u8 => Ok(Nationality::Austrian),
        5u8 => Ok(Nationality::Azerbaijani),
        6u8 => Ok(Nationality::Bahraini),
        7u8 => Ok(Nationality::Belgian),
        8u8 => Ok(Nationality::Bolivian),
        9u8 => Ok(Nationality::Brazilian),
        10u8 => Ok(Nationality::British),
        11u8 => Ok(Nationality::Bulgarian),
        12u8 => Ok(Nationality::Cameroonian),
        13u8 => Ok(Nationality::Canadian),
        14u8 => Ok(Nationality::Chilean),
        15u8 => Ok(Nationality::Chinese),
        16u8 => Ok(Nationality::Colombian),
        17u8 => Ok(Nationality::CostaRican),
        18u8 => Ok(Nationality::Croatian),
        19u8 => Ok(Nationality::Cypriot),
        20u8 => Ok(Nationality::Czech),
        21u8 => Ok(Nationality::Danish),
        22u8 => Ok(Nationality::Dutch),
        23u8 => Ok(Nationality::Ecuadorian),
        24u8 => Ok(Nationality::English),
        25u8 => Ok(Nationality::Emirian),
        26u8 => Ok(Nationality::Estonian),
        27u8 => Ok(Nationality::Finnish),
        28u8 => Ok(Nationality::French),
        29u8 => Ok(Nationality::German),
        30u8 => Ok(Nationality::Ghanaian),
        31u8 => Ok(Nationality::Greek),
        32u8 => Ok(Nationality::Guatemalan),
        33u8 => Ok(Nationality::Honduran),
        34u8 => Ok(Nationality::HongKonger),
        35u8 => Ok(Nationality::Hungarian),
        36u8 => Ok(Nationality::Icelander),
        37u8 => Ok(Nationality::Indian),
        38u8 => Ok(Nationality::Indonesian),
        39u8 => Ok(Nationality::Irish),
        40u8 => Ok(Nationality::Israeli),
        41u8 => Ok(Nationality::Italian),
        42u8 => Ok(Nationality::Jamaican),
        43u8 => Ok(Nationality::Japanese),
        44u8 => Ok(Nationality::Jordanian),
        45u8 => Ok(Nationality::Kuwaiti),
        46u8 => Ok(Nationality::Latvian),
        47u8 => Ok(Nationality::Lebanese),
        48u8 => Ok(Nationality::Lithuanian),
        49u8 => Ok(Nationality::Luxembourger),
        50u8 => Ok(Nationality::Malaysian),
        51u8 => Ok(Nationality::Maltese),
        52u8 => Ok(Nationality::Mexican),
        53u8 => Ok(Nationality::Monegasque),
        54u8 => Ok(Nationality::NewZealander),
        55u8 => Ok(Nationality::Nicaraguan),
        56u8 => Ok(Nationality::NorthKorean),
        57u8 => Ok(Nationality::NorthernIrish),
        58u8 => Ok(Nationality::Norwegian),
        59u8 => Ok(Nationality::Omani),
        60u8 => Ok(Nationality::Pakistani),
        61u8 => Ok(Nationality::Panamanian),
        62u8 => Ok(Nationality::Paraguayan),
        63u8 => Ok(Nationality::Peruvian),
        64u8 => Ok(Nationality::Polish),
        65u8 => Ok(Nationality::Portuguese),
        66u8 => Ok(Nationality::Qatari),
        67u8 => Ok(Nationality::Romanian),
        68u8 => Ok(Nationality::Russian),
        69u8 => Ok(Nationality::Salvadoran),
        70u8 => Ok(Nationality::Saudi),
        71u8 => Ok(Nationality::Scottish),
        72u8 => Ok(Nationality::Serbian),
        73u8 => Ok(Nationality::Singaporean),
        74u8 => Ok(Nationality::Slovakian),
        75u8 => Ok(Nationality::Slovenian),
        76u8 => Ok(Nationality::SouthKorean),
        77u8 => Ok(Nationality::SouthAfrican),
        78u8 => Ok(Nationality::Spanish),
        79u8 => Ok(Nationality::Swedish),
        80u8 => Ok(Nationality::Swiss),
        81u8 => Ok(Nationality::Thai),
        82u8 => Ok(Nationality::Turkish),
        83u8 => Ok(Nationality::Uruguayan),
        84u8 => Ok(Nationality::Ukrainian),
        85u8 => Ok(Nationality::Venezuelan),
        86u8 => Ok(Nationality::Welsh),
        87u8 => Ok(Nationality::Barbadian),
        88u8 => Ok(Nationality::Vietnamese),
        0u8 | 255u8 => Ok(Nationality::Invalid),
        _ => Err(DecodeError::InvalidEnumValue(CodedField::Nationality, value as i16)),
    }
}

/// The characters of a null-terminated name field: each byte before the
/// first null within the `n`-byte window, read as the character with that
/// code point.
pub open spec fn spec_name_chars(s: Seq<u8>, pos: int, n: nat) -> Seq<char>
    decreases n,
{
    if n == 0 {
        Seq::empty()
    } else if s[pos] == 0 {
        Seq::empty()
    } else {
        seq![s[pos] as char] + spec_name_chars(s, pos + 1, (n - 1) as nat)
    }
}

/// The name characters are exactly the bytes before the first null, in order.
proof fn lemma_name_chars(s: Seq<u8>, pos: int, n: nat, m: nat)
    requires
        m <= n,
        0 <= pos,
        pos + n <= s.len(),
        forall|k: int| 0 <= k < m ==> #[trigger] s[pos + k] != 0,
        m == n || s[pos + m] == 0,
    ensures
        spec_name_chars(s, pos, n) == Seq::new(m, |k: int| s[pos + k] as char),
    decreases n,
{
    if n == 0 {
        assert(spec_name_chars(s, pos, n) =~= Seq::new(m, |k: int| s[pos + k] as char));
    } else if m == 0 {
        assert(s[pos] == 0);
        assert(spec_name_chars(s, pos, n) =~= Seq::new(m, |k: int| s[pos + k] as char));
    } else {
        assert(s[pos + 0] != 0);
        assert forall|k: int| 0 <= k < (m - 1) as nat implies #[trigger] s[(pos + 1) + k] != 0 by {
            assert(s[pos + (k + 1)] != 0);
        }
        lemma_name_chars(s, pos + 1, (n - 1) as nat, (m - 1) as nat);
        assert(spec_name_chars(s, pos, n) =~= Seq::new(m, |k: int| s[pos + k] as char));
    }
}

/// Relies on `String::push`: appends the given character to the end of the
/// string.
#[verifier::external_body]
fn push_char(s: &mut String, c: char)
    ensures
        final(s)@ == old(s)@.push(c),
{
    s.push(c);
}

/// Decodes a 48-byte name field from the cursor's current position: the
/// string holds the bytes before the first null, and the cursor advances by
/// the full 48 bytes regardless of where the null occurred.
pub(crate) fn parse_name(cursor: &mut Cursor) -> (r: Result<String, DecodeError>)
    ensures
        final(cursor).data == old(cursor).data,
        old(cursor).pos + 48 <= old(cursor).data@.len() ==> r is Ok && r->Ok_0@ == spec_name_chars(
            old(cursor).data@,
            old(cursor).pos as int,
            48,
        ) && final(cursor).pos == old(cursor).pos + 48,
        old(cursor).pos + 48 > old(cursor).data@.len() ==> r == Err::<String, DecodeError>(
            DecodeError::UnexpectedEndOfBuffer,
        ) && final(cursor).pos == old(cursor).pos,
{
    let n = cursor.data.len();
    if cursor.pos > n || n - cursor.pos < NAME_FIELD_SIZE {
        return Err(DecodeError::UnexpectedEndOfBuffer);
    }

    let ghost s = cursor.data@;
    let ghost p0 = cursor.pos as int;

    let mut end: usize = 0;
    while end < NAME_FIELD_SIZE && cursor.data[cursor.pos + end] != 0
        invariant
            s == cursor.data@,
            p0 == cursor.pos as int,
            p0 + 48 <= s.len(),
            s.len() <= usize::MAX,
            0 <= end <= 48,
            forall|k: int| 0 <= k < end ==> #[trigger] s[p0 + k] != 0,
        decreases 48 - end,
    {
        end = end + 1;
    }

    proof {
        lemma_name_chars(s, p0, 48, end as nat);
    }

    let mut letters = String::new();
    let mut i: usize = 0;
    while i < end
        invariant
            s == cursor.data@,
            p0 == cursor.pos as int,
            p0 + 48 <= s.len(),
            s.len() <= usize::MAX,
            0 <= i <= end <= 48,
            letters@ == Seq::new(i as nat, |k: int| s[p0 + k] as char),
        decreases end - i,
    {
        let b = cursor.data[cursor.pos + i];
        push_char(&mut letters, b as char);
        i = i + 1;
        proof {
            assert(letters@ =~= Seq::new(i as nat, |k: int| s[p0 + k] as char));
        }
    }

    proof {
        assert(letters@ =~= Seq::new(end as nat, |k: int| s[p0 + k] as char));
    }
    cursor.pos = cursor.pos + NAME_FIELD_SIZE;
    Ok(letters)
}

/// Whether the 54-byte roster entry at `pos` decodes without error.
pub open spec fn spec_participant_ok(s: Seq<u8>, pos: int) -> bool {
    &&& pos + 54 <= s.len()
    &&& spec_parse_driver(s[pos + 1]) is Ok
    &&& spec_parse_team(s[pos + 2]) is Ok
    &&& spec_parse_nationality(s[pos + 4]) is Ok
    &&& spec_parse_your_telemetry(s[pos + 53]) is Ok
}

/// The first error met reading the roster entry at `pos` in wire order;
/// meaningful only when the entry does not decode.
pub open spec fn spec_participant_err(s: Seq<u8>, pos: int) -> DecodeError {
    if pos + 2 > s.len() {
        DecodeError::UnexpectedEndOfBuffer
    } else if spec_parse_driver(s[pos + 1]) is Err {
        spec_parse_driver(s[pos + 1])->Err_0
    } else if pos + 3 > s.len() {
        DecodeError::UnexpectedEndOfBuffer
    } else if spec_parse_team(s[pos + 2]) is Err {
        spec_parse_team(s[pos + 2])->Err_0
    } else if pos + 5 > s.len() {
        DecodeError::UnexpectedEndOfBuffer
    } else if spec_parse_nationality(s[pos + 4]) is Err {
        spec_parse_nationality(s[pos + 4])->Err_0
    } else if pos + 54 > s.len() {
        DecodeError::UnexpectedEndOfBuffer
    } else {
        spec_parse_your_telemetry(s[pos + 53])->Err_0
    }
}

/// Whether `e` holds exactly the fields of the roster entry laid out at `q`.
pub open spec fn spec_participant_matches(e: ParticipantData, s: Seq<u8>, q: int) -> bool {
    &&& e.ai_controlled == (s[q] == 1)
    &&& e.driver == spec_parse_driver(s[q + 1])->Ok_0
    &&& e.team == spec_parse_team(s[q + 2])->Ok_0
    &&& e.race_number == s[q + 3]
    &&& e.nationality == spec_parse_nationality(s[q + 4])->Ok_0
    &&& e.name@ == spec_name_chars(s, q + 5, 48)
    &&& e.your_telemetry == spec_parse_your_telemetry(s[q + 53])->Ok_0
}

/// Decodes one 54-byte roster entry from the cursor's current position.
fn parse_participant(cursor: &mut Cursor) -> (r: Result<ParticipantData, DecodeError>)
    ensures
        final(cursor).data == old(cursor).data,
        spec_participant_ok(old(cursor).data@, old(cursor).pos as int) <==> r is Ok,
        r is Ok ==> final(cursor).pos == old(cursor).pos + 54 && spec_participant_matches(
            r->Ok_0,
            old(cursor).data@,
            old(cursor).pos as int,
        ),
        r is Err ==> r->Err_0 == spec_participant_err(old(cursor).data@, old(cursor).pos as int),
{
    let ai_controlled = cursor.read_u8()? == 1;
    let driver = parse_driver(cursor.read_u8()?)?;
    let team = parse_team(cursor.read_u8()?)?;
    let race_number = cursor.read_u8()?;
    let nationality = parse_nationality(cursor.read_u8()?)?;
    let name = parse_name(cursor)?;
    let your_telemetry = parse_your_telemetry(cursor.read_u8()?)?;

    Ok(ParticipantData {
        ai_controlled,
        driver,
        team,
        race_number,
        nationality,
        name,
        your_telemetry,
    })
}

/// Rejects a declared datagram length below the participants minimum.
fn ensure_participants_size(size: usize) -> (r: Result<(), DecodeError>)
    ensures
        size >= 1213 ==> r == Ok::<(), DecodeError>(()),
        size < 1213 ==> r == Err::<(), DecodeError>(
            DecodeError::InvalidSize(Section::Participants, size, 1213),
        ),
{
    if size < PARTICIPANTS_MIN_SIZE {
        return Err(DecodeError::InvalidSize(Section::Participants, size, PARTICIPANTS_MIN_SIZE));
    }
    Ok(())
}

/// Everything the participants decoder promises of its result `r`, for the
/// buffer `s`, payload start `p`, the already-decoded `header`, and the
/// declared datagram length `size`.
pub open spec fn spec_participants_outcome(
    r: Result<PacketParticipantsData, DecodeError>,
    s: Seq<u8>,
    p: int,
    header: PacketHeader,
    size: usize,
) -> bool {
    &&& size < 1213 ==> r == Err::<PacketParticipantsData, DecodeError>(
        DecodeError::InvalidSize(Section::Participants, size, 1213),
    )
    &&& size >= 1213 ==> (r is Ok <==> (p + 1 <= s.len() && (forall|j: int|
        0 <= j < 22 ==> #[trigger] spec_participant_ok(s, p + 1 + j * 54))))
    &&& size >= 1213 && r is Ok ==> {
        &&& r->Ok_0.header == header
        &&& r->Ok_0.num_active_cars == s[p]
        &&& r->Ok_0.participants@.len() == 22
        &&& (forall|j: int|
            0 <= j < 22 ==> spec_participant_matches(
                #[trigger] r->Ok_0.participants@[j],
                s,
                p + 1 + j * 54,
            ))
    }
    &&& size >= 1213 && r is Err ==> ((p + 1 > s.len() && r->Err_0
        == DecodeError::UnexpectedEndOfBuffer) || (p + 1 <= s.len() && (exists|j: int|
        0 <= j < 22 && !(#[trigger] spec_participant_ok(s, p + 1 + j * 54)) && r->Err_0
            == spec_participant_err(s, p + 1 + j * 54) && (forall|k: int|
            0 <= k < j ==> #[trigger] spec_participant_ok(s, p + 1 + k * 54)))))
}

/// Decodes the participants payload: the active-car count, then 22 roster
/// entries, 1189 bytes after the header.
///
/// A declared length below 1213 is rejected with `InvalidSize` before any
/// field is read (minimum-size policy).  The roster always holds all 22
/// slots, whatever the declared active-car count.  Success is exactly the
/// case where the count byte is present and all 22 entries decode; on
/// failure the error is the first error in wire order.
#[verifier::rlimit(50)]
pub fn parse_participants_data(cursor: &mut Cursor, header: PacketHeader, size: usize) -> (r:
    Result<PacketParticipantsData, DecodeError>)
    ensures
        final(cursor).data == old(cursor).data,
        spec_participants_outcome(r, old(cursor).data@, old(cursor).pos as int, header, size),
        size < 1213 ==> final(cursor).pos == old(cursor).pos,
        r is Ok ==> final(cursor).pos == old(cursor).pos + 1189,
{
    ensure_participants_size(size)?;

    let ghost s = cursor.data@;
    let ghost p0 = cursor.pos as int;

    let num_active_cars = cursor.read_u8()?;

    let mut participants: Vec<ParticipantData> = Vec::new();
    let mut i: usize = 0;
    while i < TOTAL_CARS
        invariant
            size >= 1213,
            s == old(cursor).data@,
            p0 == old(cursor).pos as int,
            p0 + 1 <= s.len(),
            cursor.data == old(cursor).data,
            0 <= i <= 22,
            cursor.pos == p0 + 1 + i * 54,
            participants@.len() == i,
            forall|j: int|
                0 <= j < i ==> #[trigger] spec_participant_ok(s, p0 + 1 + j * 54),
            forall|j: int|
                0 <= j < i ==> spec_participant_matches(
                    #[trigger] participants@[j],
                    s,
                    p0 + 1 + j * 54,
                ),
        decreases 22 - i,
    {
        match parse_participant(cursor) {
            Ok(participant) => {
                participants.push(participant);
            },
            Err(e) => {
                proof {
                    assert(!spec_participant_ok(s, p0 + 1 + (i as int) * 54));
                    assert(e == spec_participant_err(s, p0 + 1 + (i as int) * 54));
                }
                return Err(e);
            },
        }
        i = i + 1;
    }

    Ok(PacketParticipantsData { header, num_active_cars, participants })
}

} // verus!
