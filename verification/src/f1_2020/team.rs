//! The teams the protocol can name, with their display names and colours.

use vstd::prelude::*;

verus! {

/// A team named by the participants or lobby packet.
#[derive(Debug, Clone, Copy, PartialEq, Eq, Structural)]
pub enum Team {
    Mercedes,
    Ferrari,
    RedBullRacing,
    Williams,
    RacingPoint,
    Renault,
    ToroRosso,
    Haas,
    McLaren,
    AlfaRomeo,
    McLaren1988,
    McLaren1991,
    Williams1992,
    Ferrari1995,
    Williams1996,
    McLaren1998,
    Ferrari2002,
    Ferrari2004,
    Renault2006,
    Ferrari2007,
    RedBull2010,
    Ferrari1976,
    ARTGrandPrix,
    CamposVexatecRacing,
    Carlin,
    CharouzRacingSystem,
    DAMS,
    RussianTime,
    MPMotorsport,
    Pertamina,
    McLaren1990,
    Trident,
    BWTArden,
    McLaren1976,
    Lotus1972,
    Ferrari1979,
    McLaren1982,
    Williams2003,
    Brawn2009,
    Lotus1978,
    ArtGP2019,
    Campos2019,
    Carlin2019,
    SauberJuniorCharouz2019,
    Dams2019,
    UniVirtuosi2019,
    MPMotorsport2019,
    Prema2019,
    Trident2019,
    Arden2019,
    Ferrari1990,
    McLaren2010,
    Ferrari2010,
    AlphaTauri,
    McLaren2008,
    F1GenericCar,
    Benetton1994,
    Benetton1995,
    Ferrari2000,
    Jordan1991,
    MyTeam,
    Unknown,
}

impl Team {
    /// Display name of the team; the catch-all is returned for teams without one.
    pub fn name(self) -> (r: &'static str)
        ensures
            r@ == (match self {
                Team::Mercedes => "Mercedes"@,
                Team::Ferrari => "Ferrari"@,
                Team::RedBullRacing => "Red Bull Racing"@,
                Team::RacingPoint => "Racing Point"@,
                Team::Renault => "Renault"@,
                Team::ToroRosso => "Toro Rosso"@,
                Team::Haas => "Haas"@,
                Team::McLaren => "McLaren"@,
                Team::AlfaRomeo => "Alfa Romeo"@,
                Team::AlphaTauri => "Alpha Tauri"@,
                Team::Williams => "Williams"@,
                _ => "[N/A]"@,
            }),
    {
        match self {
            Team::Mercedes => "Mercedes",
            Team::Ferrari => "Ferrari",
            Team::RedBullRacing => "Red Bull Racing",
            Team::RacingPoint => "Racing Point",
            Team::Renault => "Renault",
            Team::ToroRosso => "Toro Rosso",
            Team::Haas => "Haas",
            Team::McLaren => "McLaren",
            Team::AlfaRomeo => "Alfa Romeo",
            Team::AlphaTauri => "Alpha Tauri",
            Team::Williams => "Williams",
            _ => "[N/A]",
        }
    }

    /// Primary colour of the team as a hex string.
    pub fn hex_colors(self) -> (r: &'static str)
        ensures
            r@ == (match self {
                Team::Mercedes => "#00D2BE"@,
                Team::Ferrari => "#C00000"@,
                Team::RedBullRacing => "#0600EF"@,
                Team::RacingPoint => "#F596C8"@,
                Team::Renault => "#FFF500"@,
                Team::Haas => "#787878"@,
                Team::McLaren => "#FF8700"@,
                Team::AlfaRomeo => "#960000"@,
                Team::AlphaTauri => "#C8C8C8"@,
                Team::Williams => "#0082FA"@,
                _ => "#000000"@,
            }),
    {
        match self {
            Team::Mercedes => "#00D2BE",
            Team::Ferrari => "#C00000",
            Team::RedBullRacing => "#0600EF",
            Team::RacingPoint => "#F596C8",
            Team::Renault => "#FFF500",
            Team::Haas => "#787878",
            Team::McLaren => "#FF8700",
            Team::AlfaRomeo => "#960000",
            Team::AlphaTauri => "#C8C8C8",
            Team::Williams => "#0082FA",
            _ => "#000000",
        }
    }

    /// Primary colour of the team as an RGB triple.
    pub fn rgb(self) -> (r: (u8, u8, u8))
        ensures
            r == (match self {
                Team::Mercedes => (0u8, 210u8, 190u8),
                Team::Ferrari => (192u8, 0u8, 0u8),
                Team::RedBullRacing => (6u8, 0u8, 239u8),
                Team::RacingPoint => (245u8, 150u8, 200u8),
                Team::Renault => (255u8, 245u8, 0u8),
                Team::Haas => (120u8, 120u8, 120u8),
                Team::McLaren => (255u8, 135u8, 0u8),
                Team::AlfaRomeo => (150u8, 0u8, 0u8),
                Team::AlphaTauri => (200u8, 200u8, 200u8),
                Team::Williams => (0u8, 130u8, 250u8),
                _ => (0u8, 0u8, 0u8),
            }),
    {
        match self {
            Team::Mercedes => (0u8, 210u8, 190u8),
            Team::Ferrari => (192u8, 0u8, 0u8),
            Team::RedBullRacing => (6u8, 0u8, 239u8),
            Team::RacingPoint => (245u8, 150u8, 200u8),
            Team::Renault => (255u8, 245u8, 0u8),
            Team::Haas => (120u8, 120u8, 120u8),
            Team::McLaren => (255u8, 135u8, 0u8),
            Team::AlfaRomeo => (150u8, 0u8, 0u8),
            Team::AlphaTauri => (200u8, 200u8, 200u8),
            Team::Williams => (0u8, 130u8, 250u8),
            _ => (0u8, 0u8, 0u8),
        }
    }
}

} // verus!
