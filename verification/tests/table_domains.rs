//! Exhaustive domain tests: for each enum code table, every possible wire
//! code either maps to its declared variant or is rejected with
//! `InvalidEnumValue` naming the field and the code.

use f1_telmetry_client::error::{CodedField, DecodeError};
use f1_telmetry_client::cursor::Cursor;
use f1_telmetry_client::f1_2020::lap::{
    parse_driver_status, parse_pit_status, parse_result_status, DriverStatus, PitStatus,
    ResultStatus,
};
use f1_telmetry_client::f1_2020::car::{ActualTyreCompound, AntiLockBrakes, DRSStatus, ERSDeploymentMode, FuelMix, MFDPanel, SurfaceType, TractionControl, VisualTyreCompound};
use f1_telmetry_client::f1_2020::car_status::{parse_actual_tyre_compound, parse_anti_lock_brakes, parse_drs, parse_ers_deployment_mode, parse_fuel_mix, parse_traction_control, parse_visual_tyre_compound};
use f1_telmetry_client::f1_2020::car_telemetry::{parse_mfd_panel, parse_surface_type};
use f1_telmetry_client::f1_2020::driver::{Driver};
use f1_telmetry_client::f1_2020::event::{InfringementType, PenaltyType, parse_infringement_type, parse_penalty_type};
use f1_telmetry_client::f1_2020::lobby_info::{ReadyStatus, parse_ready_status};
use f1_telmetry_client::f1_2020::nationality::{Nationality};
use f1_telmetry_client::f1_2020::participants::{YourTelemetry, parse_driver, parse_nationality, parse_team, parse_your_telemetry};
use f1_telmetry_client::f1_2020::session::{Formula, NetworkGame, SafetyCar, SessionType, Track, Weather, ZoneFlag, parse_flag, parse_formula, parse_network_game, parse_safety_car, parse_session_type, parse_track, parse_weather};
use f1_telmetry_client::f1_2020::team::{Team};

#[test]
fn actual_tyre_compound_full_domain() {
    let declared: &[(u8, ActualTyreCompound)] = &[
        (0, ActualTyreCompound::Unknown),
        (7, ActualTyreCompound::Inter),
        (8, ActualTyreCompound::Wet),
        (9, ActualTyreCompound::F1ClassicDry),
        (10, ActualTyreCompound::F1ClassicWet),
        (11, ActualTyreCompound::F2SuperSoft),
        (12, ActualTyreCompound::F2Soft),
        (13, ActualTyreCompound::F2Medium),
        (14, ActualTyreCompound::F2Hard),
        (15, ActualTyreCompound::F2Wet),
        (16, ActualTyreCompound::C5),
        (17, ActualTyreCompound::C4),
        (18, ActualTyreCompound::C3),
        (19, ActualTyreCompound::C2),
        (20, ActualTyreCompound::C1),
        (255, ActualTyreCompound::Unknown),
    ];
    for code in u8::MIN..=u8::MAX {
        match declared.iter().find(|(c, _)| *c == code) {
            Some((_, v)) => assert_eq!(parse_actual_tyre_compound(code), Ok(*v)),
            None => assert_eq!(
                parse_actual_tyre_compound(code),
                Err(DecodeError::InvalidEnumValue(CodedField::ActualTyreCompound, code as i16))
            ),
        }
    }
}

#[test]
fn anti_lock_brakes_full_domain() {
    let declared: &[(u8, AntiLockBrakes)] = &[
        (0, AntiLockBrakes::Off),
        (1, AntiLockBrakes::On),
    ];
    for code in u8::MIN..=u8::MAX {
        match declared.iter().find(|(c, _)| *c == code) {
            Some((_, v)) => assert_eq!(parse_anti_lock_brakes(code), Ok(*v)),
            None => assert_eq!(
                parse_anti_lock_brakes(code),
                Err(DecodeError::InvalidEnumValue(CodedField::AntiLockBrakes, code as i16))
            ),
        }
    }
}

#[test]
fn driver_full_domain() {
    let declared: &[(u8, Driver)] = &[
        (0, Driver::CarlosSainz),
        (1, Driver::DaniilKvyat),
        (2, Driver::DanielRicciardo),
        (6, Driver::KimiRaikkonen),
        (7, Driver::LewisHamilton),
        (9, Driver::MaxVerstappen),
        (10, Driver::NicoHulkenburg),
        (11, Driver::KevinMagnussen),
        (12, Driver::RomainGrosjean),
        (13, Driver::SebastianVettel),
        (14, Driver::SergioPerez),
        (15, Driver::ValtteriBottas),
        (17, Driver::EstebanOcon),
        (19, Driver::LanceStroll),
        (20, Driver::ArronBarnes),
        (21, Driver::MartinGiles),
        (22, Driver::AlexMurray),
        (23, Driver::LucasRoth),
        (24, Driver::IgorCorreia),
        (25, Driver::SophieLevasseur),
        (26, Driver::JonasSchiffer),
        (27, Driver::AlainForest),
        (28, Driver::JayLetourneau),
        (29, Driver::EstoSaari),
        (30, Driver::YasarAtiyeh),
        (31, Driver::CallistoCalabresi),
        (32, Driver::NaotaIzum),
        (33, Driver::HowardClarke),
        (34, Driver::WilhelmKaufmann),
        (35, Driver::MarieLaursen),
        (36, Driver::FlavioNieves),
        (37, Driver::PeterBelousov),
        (38, Driver::KlimekMichalski),
        (39, Driver::SantiagoMoreno),
        (40, Driver::BenjaminCoppens),
        (41, Driver::NoahVisser),
        (42, Driver::GertWaldmuller),
        (43, Driver::JulianQuesada),
        (44, Driver::DanielJones),
        (45, Driver::ArtemMarkelov),
        (46, Driver::TadasukeMakino),
        (47, Driver::SeanGelael),
        (48, Driver::NyckDeVries),
        (49, Driver::JackAitken),
        (50, Driver::GeorgeRussell),
        (51, Driver::MaximilianGunther),
        (52, Driver::NireiFukuzumi),
        (53, Driver::LucaGhiotto),
        (54, Driver::LandoNorris),
        (55, Driver::SergioSetteCamara),
        (56, Driver::LouisDeletraz),
        (57, Driver::AntonioFuoco),
        (58, Driver::CharlesLeclerc),
        (59, Driver::PierreGasly),
        (62, Driver::AlexanderAlbon),
        (63, Driver::NicholasLatifi),
        (64, Driver::DorianBoccolacci),
        (65, Driver::NikoKari),
        (66, Driver::RobertoMerhi),
        (67, Driver::ArjunMaini),
        (68, Driver::AlessioLorandi),
        (69, Driver::RubenMeijer),
        (70, Driver::RashidNair),
        (71, Driver::JackTremblay),
        (74, Driver::AntonioGiovinazzi),
        (75, Driver::RobertKubica),
        (78, Driver::NobuharuMatsushita),
        (79, Driver::NikitaMazepin),
        (80, Driver::GuanyaZhou),
        (81, Driver::MickSchumacher),
        (82, Driver::CallumIlott),
        (83, Driver::JuanManuelCorrea),
        (84, Driver::JordanKing),
        (85, Driver::MahaveerRaghunathan),
        (86, Driver::TatianaCalderon),
        (87, Driver::AnthoineHubert),
        (88, Driver::GuilianoAlesi),
        (89, Driver::RalphBoschung),
    ];
    for code in u8::MIN..=u8::MAX {
        if code >= 100 {
            assert_eq!(parse_driver(code), Ok(Driver::Player));
            continue;
        }
        match declared.iter().find(|(c, _)| *c == code) {
            Some((_, v)) => assert_eq!(parse_driver(code), Ok(*v)),
            None => assert_eq!(
                parse_driver(code),
                Err(DecodeError::InvalidEnumValue(CodedField::Driver, code as i16))
            ),
        }
    }
}

#[test]
fn drs_full_domain() {
    let declared: &[(i8, DRSStatus)] = &[
        (-1, DRSStatus::Unknown),
        (0, DRSStatus::NotAllowed),
        (1, DRSStatus::Allowed),
    ];
    for code in i8::MIN..=i8::MAX {
        match declared.iter().find(|(c, _)| *c == code) {
            Some((_, v)) => assert_eq!(parse_drs(code), Ok(*v)),
            None => assert_eq!(
                parse_drs(code),
                Err(DecodeError::InvalidEnumValue(CodedField::DrsAllowed, code as i16))
            ),
        }
    }
}

#[test]
fn ers_deployment_mode_full_domain() {
    let declared: &[(u8, ERSDeploymentMode)] = &[
        (0, ERSDeploymentMode::NoDeployment),
        (1, ERSDeploymentMode::Low),
        (2, ERSDeploymentMode::Medium),
        (3, ERSDeploymentMode::High),
        (4, ERSDeploymentMode::Overtake),
        (5, ERSDeploymentMode::Hotlap),
    ];
    for code in u8::MIN..=u8::MAX {
        match declared.iter().find(|(c, _)| *c == code) {
            Some((_, v)) => assert_eq!(parse_ers_deployment_mode(code), Ok(*v)),
            None => assert_eq!(
                parse_ers_deployment_mode(code),
                Err(DecodeError::InvalidEnumValue(CodedField::ErsDeployMode, code as i16))
            ),
        }
    }
}

#[test]
fn flag_full_domain() {
    let declared: &[(i8, ZoneFlag)] = &[
        (-1, ZoneFlag::Unknown),
        (0, ZoneFlag::NoFlag),
        (1, ZoneFlag::Green),
        (2, ZoneFlag::Blue),
        (3, ZoneFlag::Yellow),
        (4, ZoneFlag::Red),
    ];
    for code in i8::MIN..=i8::MAX {
        match declared.iter().find(|(c, _)| *c == code) {
            Some((_, v)) => assert_eq!(parse_flag(code), Ok(*v)),
            None => assert_eq!(
                parse_flag(code),
                Err(DecodeError::InvalidEnumValue(CodedField::ZoneFlag, code as i16))
            ),
        }
    }
}

#[test]
fn formula_full_domain() {
    let declared: &[(u8, Formula)] = &[
        (0, Formula::F1Modern),
        (1, Formula::F1Classic),
        (2, Formula::F2),
        (3, Formula::F1Generic),
    ];
    for code in u8::MIN..=u8::MAX {
        match declared.iter().find(|(c, _)| *c == code) {
            Some((_, v)) => assert_eq!(parse_formula(code), Ok(*v)),
            None => assert_eq!(
                parse_formula(code),
                Err(DecodeError::InvalidEnumValue(CodedField::Formula, code as i16))
            ),
        }
    }
}

#[test]
fn fuel_mix_full_domain() {
    let declared: &[(u8, FuelMix)] = &[
        (0, FuelMix::Lean),
        (1, FuelMix::Standard),
        (2, FuelMix::Rich),
        (3, FuelMix::Max),
    ];
    for code in u8::MIN..=u8::MAX {
        match declared.iter().find(|(c, _)| *c == code) {
            Some((_, v)) => assert_eq!(parse_fuel_mix(code), Ok(*v)),
            None => assert_eq!(
                parse_fuel_mix(code),
                Err(DecodeError::InvalidEnumValue(CodedField::FuelMix, code as i16))
            ),
        }
    }
}

#[test]
fn infringement_type_full_domain() {
    let declared: &[(u8, InfringementType)] = &[
        (0, InfringementType::BlockingBySlowDriving),
        (1, InfringementType::BlockingByWrongWayDriving),
        (2, InfringementType::ReversingOffTheStartLine),
        (3, InfringementType::BigCollision),
        (4, InfringementType::SmallCollision),
        (5, InfringementType::CollisionFailedToHandBackPositionSingle),
        (6, InfringementType::CollisionFailedToHandBackPositionMultiple),
        (7, InfringementType::CornerCuttingGainedTime),
        (8, InfringementType::CornerCuttingOvertakeSingle),
        (9, InfringementType::CornerCuttingOvertakeMultiple),
        (10, InfringementType::CrossedPitExitLane),
        (11, InfringementType::IgnoringBlueFlags),
        (12, InfringementType::IgnoringYellowFlags),
        (13, InfringementType::IgnoringDriveThrough),
        (14, InfringementType::TooManyDriveThroughs),
        (15, InfringementType::DriveThroughReminderServeWithinNLaps),
        (16, InfringementType::DriveThroughReminderServeThisLap),
        (17, InfringementType::PitLaneSpeeding),
        (18, InfringementType::ParkedForTooLong),
        (19, InfringementType::IgnoringTyreRegulations),
        (20, InfringementType::TooManyPenalties),
        (21, InfringementType::MultipleWarnings),
        (22, InfringementType::ApproachingDisqualification),
        (23, InfringementType::TyreRegulationsSelectSingle),
        (24, InfringementType::TyreRegulationsSelectMultiple),
        (25, InfringementType::LapInvalidatedCornerCutting),
        (26, InfringementType::LapInvalidatedRunningWide),
        (27, InfringementType::CornerCuttingRanWideGainedTimeMinor),
        (28, InfringementType::CornerCuttingRanWideGainedTimeSignificant),
        (29, InfringementType::CornerCuttingRanWideGainedTimeExtreme),
        (30, InfringementType::LapInvalidatedWallRiding),
        (31, InfringementType::LapInvalidatedFlashbackUsed),
        (32, InfringementType::LapInvalidatedResetToTrack),
        (33, InfringementType::BlockingThePitlane),
        (34, InfringementType::JumpStart),
        (35, InfringementType::SafetyCarToCarCollision),
        (36, InfringementType::SafetyCarIllegalOvertake),
        (37, InfringementType::SafetyCarExceedingAllowedPace),
        (38, InfringementType::VirtualSafetyCarExceedingAllowedPace),
        (39, InfringementType::FormationLapBelowAllowedSpeed),
        (40, InfringementType::RetiredMechanicalFailure),
        (41, InfringementType::RetiredTerminallyDamaged),
        (42, InfringementType::SafetyCarFallingTooFarBack),
        (43, InfringementType::BlackFlagTimer),
        (44, InfringementType::UnservedStopGoPenalty),
        (45, InfringementType::UnservedDriveThroughPenalty),
        (46, InfringementType::EngineComponentChange),
        (47, InfringementType::GearboxChange),
        (48, InfringementType::LeagueGridPenalty),
        (49, InfringementType::RetryPenalty),
        (50, InfringementType::IllegalTimeGain),
        (51, InfringementType::MandatoryPitstop),
    ];
    for code in u8::MIN..=u8::MAX {
        match declared.iter().find(|(c, _)| *c == code) {
            Some((_, v)) => assert_eq!(parse_infringement_type(code), Ok(*v)),
            None => assert_eq!(
                parse_infringement_type(code),
                Err(DecodeError::InvalidEnumValue(CodedField::InfringementType, code as i16))
            ),
        }
    }
}

#[test]
fn mfd_panel_full_domain() {
    let declared: &[(u8, MFDPanel)] = &[
        (0, MFDPanel::CarSetup),
        (1, MFDPanel::Pits),
        (2, MFDPanel::Damage),
        (3, MFDPanel::Engine),
        (4, MFDPanel::Temperatures),
        (255, MFDPanel::Closed),
    ];
    for code in u8::MIN..=u8::MAX {
        match declared.iter().find(|(c, _)| *c == code) {
            Some((_, v)) => assert_eq!(parse_mfd_panel(code), Ok(*v)),
            None => assert_eq!(
                parse_mfd_panel(code),
                Err(DecodeError::InvalidEnumValue(CodedField::MfdPanel, code as i16))
            ),
        }
    }
}

#[test]
fn nationality_full_domain() {
    let declared: &[(u8, Nationality)] = &[
        (0, Nationality::Invalid),
        (1, Nationality::American),
        (2, Nationality::Argentinean),
        (3, Nationality::Australian),
        (4, Nationality::Austrian),
        (5, Nationality::Azerbaijani),
        (6, Nationality::Bahraini),
        (7, Nationality::Belgian),
        (8, Nationality::Bolivian),
        (9, Nationality::Brazilian),
        (10, Nationality::British),
        (11, Nationality::Bulgarian),
        (12, Nationality::Cameroonian),
        (13, Nationality::Canadian),
        (14, Nationality::Chilean),
        (15, Nationality::Chinese),
        (16, Nationality::Colombian),
        (17, Nationality::CostaRican),
        (18, Nationality::Croatian),
        (19, Nationality::Cypriot),
        (20, Nationality::Czech),
        (21, Nationality::Danish),
        (22, Nationality::Dutch),
        (23, Nationality::Ecuadorian),
        (24, Nationality::English),
        (25, Nationality::Emirian),
        (26, Nationality::Estonian),
        (27, Nationality::Finnish),
        (28, Nationality::French),
        (29, Nationality::German),
        (30, Nationality::Ghanaian),
        (31, Nationality::Greek),
        (32, Nationality::Guatemalan),
        (33, Nationality::Honduran),
        (34, Nationality::HongKonger),
        (35, Nationality::Hungarian),
        (36, Nationality::Icelander),
        (37, Nationality::Indian),
        (38, Nationality::Indonesian),
        (39, Nationality::Irish),
        (40, Nationality::Israeli),
        (41, Nationality::Italian),
        (42, Nationality::Jamaican),
        (43, Nationality::Japanese),
        (44, Nationality::Jordanian),
        (45, Nationality::Kuwaiti),
        (46, Nationality::Latvian),
        (47, Nationality::Lebanese),
        (48, Nationality::Lithuanian),
        (49, Nationality::Luxembourger),
        (50, Nationality::Malaysian),
        (51, Nationality::Maltese),
        (52, Nationality::Mexican),
        (53, Nationality::Monegasque),
        (54, Nationality::NewZealander),
        (55, Nationality::Nicaraguan),
        (56, Nationality::NorthKorean),
        (57, Nationality::NorthernIrish),
        (58, Nationality::Norwegian),
        (59, Nationality::Omani),
        (60, Nationality::Pakistani),
        (61, Nationality::Panamanian),
        (62, Nationality::Paraguayan),
        (63, Nationality::Peruvian),
        (64, Nationality::Polish),
        (65, Nationality::Portuguese),
        (66, Nationality::Qatari),
        (67, Nationality::Romanian),
        (68, Nationality::Russian),
        (69, Nationality::Salvadoran),
        (70, Nationality::Saudi),
        (71, Nationality::Scottish),
        (72, Nationality::Serbian),
        (73, Nationality::Singaporean),
        (74, Nationality::Slovakian),
        (75, Nationality::Slovenian),
        (76, Nationality::SouthKorean),
        (77, Nationality::SouthAfrican),
        (78, Nationality::Spanish),
        (79, Nationality::Swedish),
        (80, Nationality::Swiss),
        (81, Nationality::Thai),
        (82, Nationality::Turkish),
        (83, Nationality::Uruguayan),
        (84, Nationality::Ukrainian),
        (85, Nationality::Venezuelan),
        (86, Nationality::Welsh),
        (87, Nationality::Barbadian),
        (88, Nationality::Vietnamese),
        (255, Nationality::Invalid),
    ];
    for code in u8::MIN..=u8::MAX {
        match declared.iter().find(|(c, _)| *c == code) {
            Some((_, v)) => assert_eq!(parse_nationality(code), Ok(*v)),
            None => assert_eq!(
                parse_nationality(code),
                Err(DecodeError::InvalidEnumValue(CodedField::Nationality, code as i16))
            ),
        }
    }
}

#[test]
fn network_game_full_domain() {
    let declared: &[(u8, NetworkGame)] = &[
        (0, NetworkGame::Offline),
        (1, NetworkGame::Online),
    ];
    for code in u8::MIN..=u8::MAX {
        match declared.iter().find(|(c, _)| *c == code) {
            Some((_, v)) => assert_eq!(parse_network_game(code), Ok(*v)),
            None => assert_eq!(
                parse_network_game(code),
                Err(DecodeError::InvalidEnumValue(CodedField::NetworkGame, code as i16))
            ),
        }
    }
}

#[test]
fn penalty_type_full_domain() {
    let declared: &[(u8, PenaltyType)] = &[
        (0, PenaltyType::DriveThrough),
        (1, PenaltyType::StopGo),
        (2, PenaltyType::GridPenalty),
        (3, PenaltyType::PenaltyReminder),
        (4, PenaltyType::TimePenalty),
        (5, PenaltyType::Warning),
        (6, PenaltyType::Disqualified),
        (7, PenaltyType::RemovedFromFormationLap),
        (8, PenaltyType::ParkedTooLongTimer),
        (9, PenaltyType::TyreRegulations),
        (10, PenaltyType::ThisLapInvalidated),
        (11, PenaltyType::ThisAndNextLapInvalidated),
        (12, PenaltyType::ThisLapInvalidatedWithoutReason),
        (13, PenaltyType::ThisAndNextLapInvalidatedWithoutReason),
        (14, PenaltyType::ThisAndPreviousLapInvalidated),
        (15, PenaltyType::ThisAndPreviousLapInvalidatedWithoutReason),
        (16, PenaltyType::Retired),
        (17, PenaltyType::BlackFlagTimer),
    ];
    for code in u8::MIN..=u8::MAX {
        match declared.iter().find(|(c, _)| *c == code) {
            Some((_, v)) => assert_eq!(parse_penalty_type(code), Ok(*v)),
            None => assert_eq!(
                parse_penalty_type(code),
                Err(DecodeError::InvalidEnumValue(CodedField::PenaltyType, code as i16))
            ),
        }
    }
}

#[test]
fn ready_status_full_domain() {
    let declared: &[(u8, ReadyStatus)] = &[
        (0, ReadyStatus::NotReady),
        (1, ReadyStatus::Ready),
        (2, ReadyStatus::Spectating),
    ];
    for code in u8::MIN..=u8::MAX {
        match declared.iter().find(|(c, _)| *c == code) {
            Some((_, v)) => assert_eq!(parse_ready_status(code), Ok(*v)),
            None => assert_eq!(
                parse_ready_status(code),
                Err(DecodeError::InvalidEnumValue(CodedField::ReadyStatus, code as i16))
            ),
        }
    }
}

#[test]
fn safety_car_full_domain() {
    let declared: &[(u8, SafetyCar)] = &[
        (0, SafetyCar::NoSafetyCar),
        (1, SafetyCar::Full),
        (2, SafetyCar::Virtual),
    ];
    for code in u8::MIN..=u8::MAX {
        match declared.iter().find(|(c, _)| *c == code) {
            Some((_, v)) => assert_eq!(parse_safety_car(code), Ok(*v)),
            None => assert_eq!(
                parse_safety_car(code),
                Err(DecodeError::InvalidEnumValue(CodedField::SafetyCar, code as i16))
            ),
        }
    }
}

#[test]
fn session_type_full_domain() {
    let declared: &[(u8, SessionType)] = &[
        (0, SessionType::Unknown),
        (1, SessionType::P1),
        (2, SessionType::P2),
        (3, SessionType::P3),
        (4, SessionType::ShortP),
        (5, SessionType::Q1),
        (6, SessionType::Q2),
        (7, SessionType::Q3),
        (8, SessionType::ShortQ),
        (9, SessionType::OSQ),
        (10, SessionType::R),
        (11, SessionType::R2),
        (12, SessionType::TimeTrial),
    ];
    for code in u8::MIN..=u8::MAX {
        match declared.iter().find(|(c, _)| *c == code) {
            Some((_, v)) => assert_eq!(parse_session_type(code), Ok(*v)),
            None => assert_eq!(
                parse_session_type(code),
                Err(DecodeError::InvalidEnumValue(CodedField::SessionType, code as i16))
            ),
        }
    }
}

#[test]
fn surface_type_full_domain() {
    let declared: &[(u8, SurfaceType)] = &[
        (0, SurfaceType::Tarmac),
        (1, SurfaceType::RumbleStrip),
        (2, SurfaceType::Concrete),
        (3, SurfaceType::Rock),
        (4, SurfaceType::Gravel),
        (5, SurfaceType::Mud),
        (6, SurfaceType::Sand),
        (7, SurfaceType::Grass),
        (8, SurfaceType::Water),
        (9, SurfaceType::Cobblestone),
        (10, SurfaceType::Metal),
        (11, SurfaceType::Ridged),
        (12, SurfaceType::Unknown),
    ];
    for code in u8::MIN..=u8::MAX {
        match declared.iter().find(|(c, _)| *c == code) {
            Some((_, v)) => assert_eq!(parse_surface_type(code), Ok(*v)),
            None => assert_eq!(
                parse_surface_type(code),
                Err(DecodeError::InvalidEnumValue(CodedField::SurfaceType, code as i16))
            ),
        }
    }
}

#[test]
fn team_full_domain() {
    let declared: &[(u8, Team)] = &[
        (0, Team::Mercedes),
        (1, Team::Ferrari),
        (2, Team::RedBullRacing),
        (3, Team::Williams),
        (4, Team::RacingPoint),
        (5, Team::Renault),
        (6, Team::AlphaTauri),
        (7, Team::Haas),
        (8, Team::McLaren),
        (9, Team::AlfaRomeo),
        (10, Team::McLaren1988),
        (11, Team::McLaren1991),
        (12, Team::Williams1992),
        (13, Team::Ferrari1995),
        (14, Team::Williams1996),
        (15, Team::McLaren1998),
        (16, Team::Ferrari2002),
        (17, Team::Ferrari2004),
        (18, Team::Renault2006),
        (19, Team::Ferrari2007),
        (20, Team::McLaren2008),
        (21, Team::RedBull2010),
        (22, Team::Ferrari1976),
        (23, Team::ARTGrandPrix),
        (24, Team::CamposVexatecRacing),
        (25, Team::Carlin),
        (26, Team::CharouzRacingSystem),
        (27, Team::DAMS),
        (28, Team::RussianTime),
        (29, Team::MPMotorsport),
        (30, Team::Pertamina),
        (31, Team::McLaren1990),
        (32, Team::Trident),
        (33, Team::BWTArden),
        (34, Team::McLaren1976),
        (35, Team::Lotus1972),
        (36, Team::Ferrari1979),
        (37, Team::McLaren1982),
        (38, Team::Williams2003),
        (39, Team::Brawn2009),
        (40, Team::Lotus1978),
        (41, Team::F1GenericCar),
        (42, Team::ArtGP2019),
        (43, Team::Campos2019),
        (44, Team::Carlin2019),
        (45, Team::SauberJuniorCharouz2019),
        (46, Team::Dams2019),
        (47, Team::UniVirtuosi2019),
        (48, Team::MPMotorsport2019),
        (49, Team::Prema2019),
        (50, Team::Trident2019),
        (51, Team::Arden2019),
        (53, Team::Benetton1994),
        (54, Team::Benetton1995),
        (55, Team::Ferrari2000),
        (56, Team::Jordan1991),
        (255, Team::MyTeam),
    ];
    for code in u8::MIN..=u8::MAX {
        match declared.iter().find(|(c, _)| *c == code) {
            Some((_, v)) => assert_eq!(parse_team(code), Ok(*v)),
            None => assert_eq!(
                parse_team(code),
                Err(DecodeError::InvalidEnumValue(CodedField::Team, code as i16))
            ),
        }
    }
}

#[test]
fn track_full_domain() {
    let declared: &[(i8, Track)] = &[
        (-1, Track::Unknown),
        (0, Track::Melbourne),
        (1, Track::PaulRicard),
        (2, Track::Shanghai),
        (3, Track::Sakhir),
        (4, Track::Catalunya),
        (5, Track::Monaco),
        (6, Track::Montreal),
        (7, Track::Silverstone),
        (8, Track::Hockenheim),
        (9, Track::Hungaroring),
        (10, Track::Spa),
        (11, Track::Monza),
        (12, Track::Singapore),
        (13, Track::Suzuka),
        (14, Track::AbuDhabi),
        (15, Track::Texas),
        (16, Track::Brazil),
        (17, Track::Austria),
        (18, Track::Sochi),
        (19, Track::Mexico),
        (20, Track::Baku),
        (21, Track::SakhirShort),
        (22, Track::SilverstoneShort),
        (23, Track::TexasShort),
        (24, Track::SuzukaShort),
        (25, Track::Hanoi),
        (26, Track::Zandvoort),
    ];
    for code in i8::MIN..=i8::MAX {
        match declared.iter().find(|(c, _)| *c == code) {
            Some((_, v)) => assert_eq!(parse_track(code), Ok(*v)),
            None => assert_eq!(
                parse_track(code),
                Err(DecodeError::InvalidEnumValue(CodedField::TrackId, code as i16))
            ),
        }
    }
}

#[test]
fn traction_control_full_domain() {
    let declared: &[(u8, TractionControl)] = &[
        (0, TractionControl::Off),
        (1, TractionControl::Low),
        (2, TractionControl::High),
    ];
    for code in u8::MIN..=u8::MAX {
        match declared.iter().find(|(c, _)| *c == code) {
            Some((_, v)) => assert_eq!(parse_traction_control(code), Ok(*v)),
            None => assert_eq!(
                parse_traction_control(code),
                Err(DecodeError::InvalidEnumValue(CodedField::TractionControl, code as i16))
            ),
        }
    }
}

#[test]
fn visual_tyre_compound_full_domain() {
    let declared: &[(u8, VisualTyreCompound)] = &[
        (0, VisualTyreCompound::Unknown),
        (7, VisualTyreCompound::Inter),
        (8, VisualTyreCompound::Wet),
        (9, VisualTyreCompound::F1ClassicDry),
        (10, VisualTyreCompound::F1ClassicWet),
        (11, VisualTyreCompound::F2SuperSoft),
        (12, VisualTyreCompound::F2Soft),
        (13, VisualTyreCompound::F2Medium),
        (14, VisualTyreCompound::F2Hard),
        (15, VisualTyreCompound::F2Wet),
        (16, VisualTyreCompound::Soft),
        (17, VisualTyreCompound::Medium),
        (18, VisualTyreCompound::Hard),
        (255, VisualTyreCompound::Unknown),
    ];
    for code in u8::MIN..=u8::MAX {
        match declared.iter().find(|(c, _)| *c == code) {
            Some((_, v)) => assert_eq!(parse_visual_tyre_compound(code), Ok(*v)),
            None => assert_eq!(
                parse_visual_tyre_compound(code),
                Err(DecodeError::InvalidEnumValue(CodedField::VisualTyreCompound, code as i16))
            ),
        }
    }
}

#[test]
fn weather_full_domain() {
    let declared: &[(u8, Weather)] = &[
        (0, Weather::Clear),
        (1, Weather::LightCloud),
        (2, Weather::Overcast),
        (3, Weather::LightRain),
        (4, Weather::HeavyRain),
        (5, Weather::Storm),
    ];
    for code in u8::MIN..=u8::MAX {
        match declared.iter().find(|(c, _)| *c == code) {
            Some((_, v)) => assert_eq!(parse_weather(code), Ok(*v)),
            None => assert_eq!(
                parse_weather(code),
                Err(DecodeError::InvalidEnumValue(CodedField::Weather, code as i16))
            ),
        }
    }
}

#[test]
fn your_telemetry_full_domain() {
    let declared: &[(u8, YourTelemetry)] = &[
        (0, YourTelemetry::Restricted),
        (1, YourTelemetry::Public),
    ];
    for code in u8::MIN..=u8::MAX {
        match declared.iter().find(|(c, _)| *c == code) {
            Some((_, v)) => assert_eq!(parse_your_telemetry(code), Ok(*v)),
            None => assert_eq!(
                parse_your_telemetry(code),
                Err(DecodeError::InvalidEnumValue(CodedField::YourTelemetry, code as i16))
            ),
        }
    }
}
#[test]
fn pit_status_full_domain() {
    let declared = [
        (0u8, PitStatus::NoPit),
        (1, PitStatus::Pitting),
        (2, PitStatus::PitArea),
    ];
    for code in u8::MIN..=u8::MAX {
        let mut cursor = Cursor::new(vec![code]);
        let r = parse_pit_status(&mut cursor);
        match declared.iter().find(|(c, _)| *c == code) {
            Some((_, v)) => assert_eq!(r, Ok(*v)),
            None => assert_eq!(
                r,
                Err(DecodeError::InvalidEnumValue(CodedField::PitStatus, code as i16))
            ),
        }
        assert_eq!(cursor.pos, 1);
    }
}

#[test]
fn driver_status_full_domain() {
    let declared = [
        (0u8, DriverStatus::Garage),
        (1, DriverStatus::FlyingLap),
        (2, DriverStatus::InLap),
        (3, DriverStatus::OutLap),
        (4, DriverStatus::OnTrack),
    ];
    for code in u8::MIN..=u8::MAX {
        let mut cursor = Cursor::new(vec![code]);
        let r = parse_driver_status(&mut cursor);
        match declared.iter().find(|(c, _)| *c == code) {
            Some((_, v)) => assert_eq!(r, Ok(*v)),
            None => assert_eq!(
                r,
                Err(DecodeError::InvalidEnumValue(CodedField::DriverStatus, code as i16))
            ),
        }
    }
}

#[test]
fn result_status_full_domain() {
    let declared = [
        (0u8, ResultStatus::Invalid),
        (1, ResultStatus::Inactive),
        (2, ResultStatus::Active),
        (3, ResultStatus::Finished),
        (4, ResultStatus::Disqualified),
        (5, ResultStatus::NotClassified),
        (6, ResultStatus::Retired),
    ];
    for code in u8::MIN..=u8::MAX {
        let mut cursor = Cursor::new(vec![code]);
        let r = parse_result_status(&mut cursor);
        match declared.iter().find(|(c, _)| *c == code) {
            Some((_, v)) => assert_eq!(r, Ok(*v)),
            None => assert_eq!(
                r,
                Err(DecodeError::InvalidEnumValue(CodedField::ResultStatus, code as i16))
            ),
        }
    }
}
