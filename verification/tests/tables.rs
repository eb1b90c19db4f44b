//! Tests for the enum code tables: every declared code maps to its
//! documented variant, and codes outside a table's domain are rejected.

use f1_telmetry_client::error::{CodedField, DecodeError};
use f1_telmetry_client::f1_2020::car::{
    ActualTyreCompound, AntiLockBrakes, DRSStatus, ERSDeploymentMode, FuelMix, MFDPanel,
    SurfaceType, TractionControl, VisualTyreCompound,
};
use f1_telmetry_client::f1_2020::car_status::{
    parse_actual_tyre_compound, parse_anti_lock_brakes, parse_drs, parse_ers_deployment_mode,
    parse_fuel_mix, parse_traction_control, parse_visual_tyre_compound,
};
use f1_telmetry_client::f1_2020::car_telemetry::{parse_mfd_panel, parse_surface_type};
use f1_telmetry_client::f1_2020::driver::Driver;
use f1_telmetry_client::f1_2020::nationality::Nationality;
use f1_telmetry_client::f1_2020::participants::{
    parse_driver, parse_nationality, parse_team, parse_your_telemetry, YourTelemetry,
};
use f1_telmetry_client::f1_2020::lobby_info::{parse_ready_status, ReadyStatus};
use f1_telmetry_client::f1_2020::packet::{packet_type, PacketID};
use f1_telmetry_client::f1_2020::session::{
    parse_flag, parse_formula, parse_network_game, parse_safety_car, parse_session_type,
    parse_track, parse_weather, Formula, NetworkGame, SafetyCar, SessionType, Track, Weather,
    ZoneFlag,
};
use f1_telmetry_client::f1_2020::team::Team;

#[test]
fn weather_codes() {
    assert_eq!(parse_weather(0), Ok(Weather::Clear));
    assert_eq!(parse_weather(1), Ok(Weather::LightCloud));
    assert_eq!(parse_weather(2), Ok(Weather::Overcast));
    assert_eq!(parse_weather(3), Ok(Weather::LightRain));
    assert_eq!(parse_weather(4), Ok(Weather::HeavyRain));
    assert_eq!(parse_weather(5), Ok(Weather::Storm));
    assert_eq!(
        parse_weather(6),
        Err(DecodeError::InvalidEnumValue(CodedField::Weather, 6))
    );
}

#[test]
fn session_type_codes() {
    assert_eq!(parse_session_type(0), Ok(SessionType::Unknown));
    assert_eq!(parse_session_type(4), Ok(SessionType::ShortP));
    assert_eq!(parse_session_type(8), Ok(SessionType::ShortQ));
    assert_eq!(parse_session_type(9), Ok(SessionType::OSQ));
    assert_eq!(parse_session_type(12), Ok(SessionType::TimeTrial));
    assert_eq!(
        parse_session_type(13),
        Err(DecodeError::InvalidEnumValue(CodedField::SessionType, 13))
    );
}

#[test]
fn track_codes() {
    assert_eq!(parse_track(-1), Ok(Track::Unknown));
    assert_eq!(parse_track(0), Ok(Track::Melbourne));
    assert_eq!(parse_track(25), Ok(Track::Hanoi));
    assert_eq!(parse_track(26), Ok(Track::Zandvoort));
    assert_eq!(
        parse_track(27),
        Err(DecodeError::InvalidEnumValue(CodedField::TrackId, 27))
    );
    assert_eq!(
        parse_track(-2),
        Err(DecodeError::InvalidEnumValue(CodedField::TrackId, -2))
    );
}

#[test]
fn formula_codes() {
    assert_eq!(parse_formula(0), Ok(Formula::F1Modern));
    assert_eq!(parse_formula(3), Ok(Formula::F1Generic));
    assert_eq!(
        parse_formula(4),
        Err(DecodeError::InvalidEnumValue(CodedField::Formula, 4))
    );
}

#[test]
fn zone_flag_codes() {
    assert_eq!(parse_flag(-1), Ok(ZoneFlag::Unknown));
    assert_eq!(parse_flag(0), Ok(ZoneFlag::NoFlag));
    assert_eq!(parse_flag(1), Ok(ZoneFlag::Green));
    assert_eq!(parse_flag(2), Ok(ZoneFlag::Blue));
    assert_eq!(parse_flag(3), Ok(ZoneFlag::Yellow));
    assert_eq!(parse_flag(4), Ok(ZoneFlag::Red));
    assert_eq!(
        parse_flag(5),
        Err(DecodeError::InvalidEnumValue(CodedField::ZoneFlag, 5))
    );
}

#[test]
fn safety_car_and_network_codes() {
    assert_eq!(parse_safety_car(0), Ok(SafetyCar::NoSafetyCar));
    assert_eq!(parse_safety_car(2), Ok(SafetyCar::Virtual));
    assert_eq!(
        parse_safety_car(3),
        Err(DecodeError::InvalidEnumValue(CodedField::SafetyCar, 3))
    );
    assert_eq!(parse_network_game(0), Ok(NetworkGame::Offline));
    assert_eq!(parse_network_game(1), Ok(NetworkGame::Online));
    assert_eq!(
        parse_network_game(2),
        Err(DecodeError::InvalidEnumValue(CodedField::NetworkGame, 2))
    );
}

#[test]
fn traction_control_codes() {
    assert_eq!(parse_traction_control(0), Ok(TractionControl::Off));
    assert_eq!(parse_traction_control(2), Ok(TractionControl::High));
    assert_eq!(
        parse_traction_control(3),
        Err(DecodeError::InvalidEnumValue(CodedField::TractionControl, 3))
    );
}

#[test]
fn anti_lock_brakes_codes() {
    assert_eq!(parse_anti_lock_brakes(0), Ok(AntiLockBrakes::Off));
    assert_eq!(parse_anti_lock_brakes(1), Ok(AntiLockBrakes::On));
    assert_eq!(
        parse_anti_lock_brakes(2),
        Err(DecodeError::InvalidEnumValue(CodedField::AntiLockBrakes, 2))
    );
}

#[test]
fn fuel_mix_codes() {
    assert_eq!(parse_fuel_mix(0), Ok(FuelMix::Lean));
    assert_eq!(parse_fuel_mix(3), Ok(FuelMix::Max));
    assert_eq!(
        parse_fuel_mix(4),
        Err(DecodeError::InvalidEnumValue(CodedField::FuelMix, 4))
    );
}

#[test]
fn drs_codes() {
    assert_eq!(parse_drs(0), Ok(DRSStatus::NotAllowed));
    assert_eq!(parse_drs(1), Ok(DRSStatus::Allowed));
    assert_eq!(parse_drs(-1), Ok(DRSStatus::Unknown));
    assert_eq!(
        parse_drs(2),
        Err(DecodeError::InvalidEnumValue(CodedField::DrsAllowed, 2))
    );
}

#[test]
fn ers_deployment_mode_codes() {
    assert_eq!(parse_ers_deployment_mode(0), Ok(ERSDeploymentMode::NoDeployment));
    assert_eq!(parse_ers_deployment_mode(1), Ok(ERSDeploymentMode::Low));
    assert_eq!(parse_ers_deployment_mode(2), Ok(ERSDeploymentMode::Medium));
    assert_eq!(parse_ers_deployment_mode(3), Ok(ERSDeploymentMode::High));
    assert_eq!(parse_ers_deployment_mode(4), Ok(ERSDeploymentMode::Overtake));
    assert_eq!(parse_ers_deployment_mode(5), Ok(ERSDeploymentMode::Hotlap));
    assert_eq!(
        parse_ers_deployment_mode(6),
        Err(DecodeError::InvalidEnumValue(CodedField::ErsDeployMode, 6))
    );
}

#[test]
fn actual_tyre_compound_codes() {
    assert_eq!(parse_actual_tyre_compound(16), Ok(ActualTyreCompound::C5));
    assert_eq!(parse_actual_tyre_compound(20), Ok(ActualTyreCompound::C1));
    assert_eq!(parse_actual_tyre_compound(7), Ok(ActualTyreCompound::Inter));
    assert_eq!(parse_actual_tyre_compound(15), Ok(ActualTyreCompound::F2Wet));
    // Codes 0 and 255 are deliberately aliased to the same variant.
    assert_eq!(parse_actual_tyre_compound(0), Ok(ActualTyreCompound::Unknown));
    assert_eq!(parse_actual_tyre_compound(255), Ok(ActualTyreCompound::Unknown));
    assert_eq!(
        parse_actual_tyre_compound(6),
        Err(DecodeError::InvalidEnumValue(CodedField::ActualTyreCompound, 6))
    );
    assert_eq!(
        parse_actual_tyre_compound(21),
        Err(DecodeError::InvalidEnumValue(CodedField::ActualTyreCompound, 21))
    );
}

#[test]
fn visual_tyre_compound_codes() {
    assert_eq!(parse_visual_tyre_compound(16), Ok(VisualTyreCompound::Soft));
    assert_eq!(parse_visual_tyre_compound(18), Ok(VisualTyreCompound::Hard));
    // Codes 0 and 255 are deliberately aliased to the same variant.
    assert_eq!(parse_visual_tyre_compound(0), Ok(VisualTyreCompound::Unknown));
    assert_eq!(parse_visual_tyre_compound(255), Ok(VisualTyreCompound::Unknown));
    assert_eq!(
        parse_visual_tyre_compound(6),
        Err(DecodeError::InvalidEnumValue(CodedField::VisualTyreCompound, 6))
    );
    assert_eq!(
        parse_visual_tyre_compound(19),
        Err(DecodeError::InvalidEnumValue(CodedField::VisualTyreCompound, 19))
    );
}

#[test]
fn surface_type_codes() {
    assert_eq!(parse_surface_type(0), Ok(SurfaceType::Tarmac));
    assert_eq!(parse_surface_type(12), Ok(SurfaceType::Unknown));
    assert_eq!(
        parse_surface_type(13),
        Err(DecodeError::InvalidEnumValue(CodedField::SurfaceType, 13))
    );
}

#[test]
fn mfd_panel_codes() {
    assert_eq!(parse_mfd_panel(0), Ok(MFDPanel::CarSetup));
    assert_eq!(parse_mfd_panel(4), Ok(MFDPanel::Temperatures));
    assert_eq!(parse_mfd_panel(255), Ok(MFDPanel::Closed));
    assert_eq!(
        parse_mfd_panel(5),
        Err(DecodeError::InvalidEnumValue(CodedField::MfdPanel, 5))
    );
}

#[test]
fn driver_codes() {
    assert_eq!(parse_driver(0), Ok(Driver::CarlosSainz));
    assert_eq!(parse_driver(9), Ok(Driver::MaxVerstappen));
    assert_eq!(parse_driver(89), Ok(Driver::RalphBoschung));
    // Any code of 100 or above denotes a human player.
    assert_eq!(parse_driver(100), Ok(Driver::Player));
    assert_eq!(parse_driver(255), Ok(Driver::Player));
    // Gaps in the declared table are rejected.
    assert_eq!(
        parse_driver(3),
        Err(DecodeError::InvalidEnumValue(CodedField::Driver, 3))
    );
    assert_eq!(
        parse_driver(99),
        Err(DecodeError::InvalidEnumValue(CodedField::Driver, 99))
    );
}

#[test]
fn team_codes() {
    assert_eq!(parse_team(0), Ok(Team::Mercedes));
    assert_eq!(parse_team(2), Ok(Team::RedBullRacing));
    assert_eq!(parse_team(56), Ok(Team::Jordan1991));
    assert_eq!(parse_team(255), Ok(Team::MyTeam));
    assert_eq!(
        parse_team(52),
        Err(DecodeError::InvalidEnumValue(CodedField::Team, 52))
    );
    assert_eq!(
        parse_team(57),
        Err(DecodeError::InvalidEnumValue(CodedField::Team, 57))
    );
}

#[test]
fn nationality_codes() {
    assert_eq!(parse_nationality(1), Ok(Nationality::American));
    assert_eq!(parse_nationality(22), Ok(Nationality::Dutch));
    assert_eq!(parse_nationality(88), Ok(Nationality::Vietnamese));
    // Codes 0 and 255 are deliberately aliased to the same variant.
    assert_eq!(parse_nationality(0), Ok(Nationality::Invalid));
    assert_eq!(parse_nationality(255), Ok(Nationality::Invalid));
    assert_eq!(
        parse_nationality(89),
        Err(DecodeError::InvalidEnumValue(CodedField::Nationality, 89))
    );
}

#[test]
fn your_telemetry_codes() {
    assert_eq!(parse_your_telemetry(0), Ok(YourTelemetry::Restricted));
    assert_eq!(parse_your_telemetry(1), Ok(YourTelemetry::Public));
    assert_eq!(
        parse_your_telemetry(2),
        Err(DecodeError::InvalidEnumValue(CodedField::YourTelemetry, 2))
    );
}

#[test]
fn ready_status_codes() {
    assert_eq!(parse_ready_status(0), Ok(ReadyStatus::NotReady));
    assert_eq!(parse_ready_status(2), Ok(ReadyStatus::Spectating));
    assert_eq!(
        parse_ready_status(3),
        Err(DecodeError::InvalidEnumValue(CodedField::ReadyStatus, 3))
    );
}

#[test]
fn packet_id_codes() {
    assert_eq!(packet_type(0), Ok(PacketID::Motion));
    assert_eq!(packet_type(1), Ok(PacketID::Session));
    assert_eq!(packet_type(2), Ok(PacketID::LapData));
    assert_eq!(packet_type(3), Ok(PacketID::Event));
    assert_eq!(packet_type(4), Ok(PacketID::Participants));
    assert_eq!(packet_type(5), Ok(PacketID::CarSetups));
    assert_eq!(packet_type(6), Ok(PacketID::CarTelemetry));
    assert_eq!(packet_type(7), Ok(PacketID::CarStatus));
    assert_eq!(packet_type(8), Ok(PacketID::FinalClassification));
    assert_eq!(packet_type(9), Ok(PacketID::LobbyInfo));
    assert_eq!(packet_type(10), Err(DecodeError::UnknownPacketKind(10)));
}

#[test]
fn display_names() {
    assert_eq!(FuelMix::Lean.to_string(), "Lean");
    assert_eq!(FuelMix::Max.to_string(), "Max");
    assert_eq!(DRSStatus::NotAllowed.to_string(), "Not Allowed");
    assert_eq!(ERSDeploymentMode::NoDeployment.to_string(), "None");
    assert_eq!(ERSDeploymentMode::Hotlap.to_string(), "Hotlap");
    assert_eq!(VisualTyreCompound::F1ClassicDry.to_string(), "Dry");
    assert_eq!(VisualTyreCompound::Unknown.to_string(), "[N/A]");
}

#[test]
fn team_display() {
    assert_eq!(Team::Mercedes.name(), "Mercedes");
    assert_eq!(Team::RedBullRacing.name(), "Red Bull Racing");
    assert_eq!(Team::DAMS.name(), "[N/A]");
    assert_eq!(Team::Ferrari.hex_colors(), "#C00000");
    assert_eq!(Team::DAMS.hex_colors(), "#000000");
    assert_eq!(Team::McLaren.rgb(), (255, 135, 0));
    assert_eq!(Team::DAMS.rgb(), (0, 0, 0));
}
