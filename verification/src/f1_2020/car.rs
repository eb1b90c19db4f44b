//! Record types and coded enumerations shared by the car-centric packet kinds
//! (setups, telemetry, status).

use crate::f1_2020::header::PacketHeader;
use crate::f1_2020::motion::Wheel;
use crate::f1_2020::session::ZoneFlag;
use crate::units::Float32;
use vstd::prelude::*;

verus! {

/// Fixed car-slot count: every fixed-count array carries exactly this many
/// entries regardless of how many cars are semantically active.
pub const TOTAL_CARS: usize = 22;

/// Exact expected size of a car-setups datagram.
pub const CAR_SETUP_MIN_SIZE: usize = 1102;

/// Exact expected size of a car-status datagram.
pub const CAR_STATUS_MIN_SIZE: usize = 1344;

/// Exact expected size of a car-telemetry datagram.
pub const CAR_TELEMETRY_MIN_SIZE: usize = 1307;

/// Tyre pressure of one axle, left and right, in PSI.
#[derive(Debug, Clone, Copy, PartialEq, Eq, Structural)]
pub struct TyrePressure {
    pub left: Float32,
    pub right: Float32,
}

/// Setup of a single car.
#[derive(Debug, Clone, Copy, PartialEq, Eq, Structural)]
pub struct CarSetupData {
    pub front_wing: u8,
    pub rear_wing: u8,
    pub on_throttle: u8,
    pub off_throttle: u8,
    pub front_camber: Float32,
    pub rear_camber: Float32,
    pub front_toe: Float32,
    pub rear_toe: Float32,
    pub front_suspension: u8,
    pub rear_suspension: u8,
    pub front_anti_roll_bar: u8,
    pub rear_anti_roll_bar: u8,
    pub front_suspension_height: u8,
    pub rear_suspension_height: u8,
    pub brake_pressure: u8,
    pub brake_bias: u8,
    pub rear_tyre_pressure: TyrePressure,
    pub front_tyre_pressure: TyrePressure,
    pub ballast: u8,
    pub fuel_load: Float32,
}

/// The car-setups packet: one setup per car slot.
#[derive(Debug, Clone, PartialEq, Eq)]
pub struct PacketCarSetupData {
    pub header: PacketHeader,
    pub car_setup_data: Vec<CarSetupData>,
}

/// Surface under one wheel.
#[derive(Debug, Clone, Copy, PartialEq, Eq, Structural)]
pub enum SurfaceType {
    Tarmac,
    RumbleStrip,
    Concrete,
    Rock,
    Gravel,
    Mud,
    Sand,
    Grass,
    Water,
    Cobblestone,
    Metal,
    Ridged,
    Unknown,
}

/// Which multi-function-display panel is open.
#[derive(Debug, Clone, Copy, PartialEq, Eq, Structural)]
pub enum MFDPanel {
    CarSetup,
    Pits,
    Damage,
    Engine,
    Temperatures,
    Closed,
}

/// Live telemetry of a single car.
#[derive(Debug, Clone, Copy, PartialEq, Eq, Structural)]
pub struct CarTelemetryData {
    pub speed: u16,
    pub throttle: Float32,
    pub steer: Float32,
    pub brake: Float32,
    pub clutch: u8,
    pub gear: i8,
    pub engine_rpm: u16,
    pub drs: bool,
    pub rev_lights_percent: u8,
    pub brakes_temperature: Wheel<u16>,
    pub tyres_surface_temperature: Wheel<u8>,
    pub tyres_inner_temperature: Wheel<u8>,
    pub engine_temperature: u16,
    pub tyre_pressures: Wheel<Float32>,
    pub surface_types: Wheel<SurfaceType>,
}

/// The car-telemetry packet: one telemetry entry per car slot plus the
/// player's button and display state.
#[derive(Debug, Clone, PartialEq, Eq)]
pub struct PacketCarTelemetryData {
    pub header: PacketHeader,
    pub car_telemetry_data: Vec<CarTelemetryData>,
    pub button_status: u32,
    pub mfd_panel_index: MFDPanel,
    pub mfd_panel_index_secondary_player: MFDPanel,
    pub suggested_gear: i8,
}

/// Traction-control assist level.
#[derive(Debug, Clone, Copy, PartialEq, Eq, Structural)]
pub enum TractionControl {
    Off,
    Low,
    High,
}

/// Anti-lock-brake assist.
#[derive(Debug, Clone, Copy, PartialEq, Eq, Structural)]
pub enum AntiLockBrakes {
    Off,
    On,
}

/// Fuel-mix setting.
#[derive(Debug, Clone, Copy, PartialEq, Eq, Structural)]
pub enum FuelMix {
    Lean,
    Standard,
    Rich,
    Max,
}

impl FuelMix {
    /// Display name of the setting.
    pub fn to_string(&self) -> (r: &'static str)
        ensures
            r@ == (match self {
                FuelMix::Lean => "Lean"@,
                FuelMix::Standard => "Standard"@,
                FuelMix::Rich => "Rich"@,
                FuelMix::Max => "Max"@,
            }),
    {
        match self {
            FuelMix::Lean => "Lean",
            FuelMix::Standard => "Standard",
            FuelMix::Rich => "Rich",
            FuelMix::Max => "Max",
        }
    }
}

/// Whether the drag-reduction system may be deployed.
#[derive(Debug, Clone, Copy, PartialEq, Eq, Structural)]
pub enum DRSStatus {
    NotAllowed,
    Allowed,
    Unknown,
}

impl DRSStatus {
    /// Display name of the status.
    pub fn to_string(&self) -> (r: &'static str)
        ensures
            r@ == (match self {
                DRSStatus::NotAllowed => "Not Allowed"@,
                DRSStatus::Allowed => "Allowed"@,
                DRSStatus::Unknown => "Unknown"@,
            }),
    {
        match self {
            DRSStatus::NotAllowed => "Not Allowed",
            DRSStatus::Allowed => "Allowed",
            DRSStatus::Unknown => "Unknown",
        }
    }
}

/// Energy-recovery-system deployment mode.
#[derive(Debug, Clone, Copy, PartialEq, Eq, Structural)]
pub enum ERSDeploymentMode {
    NoDeployment,
    Low,
    Medium,
    High,
    Overtake,
    Hotlap,
}

impl ERSDeploymentMode {
    /// Display name of the mode.
    pub fn to_string(&self) -> (r: &'static str)
        ensures
            r@ == (match self {
                ERSDeploymentMode::NoDeployment => "None"@,
                ERSDeploymentMode::Low => "Low"@,
                ERSDeploymentMode::Medium => "Medium"@,
                ERSDeploymentMode::High => "High"@,
                ERSDeploymentMode::Overtake => "Overtake"@,
                ERSDeploymentMode::Hotlap => "Hotlap"@,
            }),
    {
        match self {
            ERSDeploymentMode::NoDeployment => "None",
            ERSDeploymentMode::Low => "Low",
            ERSDeploymentMode::Medium => "Medium",
            ERSDeploymentMode::High => "High",
            ERSDeploymentMode::Overtake => "Overtake",
            ERSDeploymentMode::Hotlap => "Hotlap",
        }
    }
}

/// Simulation-accurate tyre compound.
#[derive(Debug, Clone, Copy, PartialEq, Eq, Structural)]
pub enum ActualTyreCompound {
    C5,
    C4,
    C3,
    C2,
    C1,
    Inter,
    Wet,
    F1ClassicDry,
    F1ClassicWet,
    F2SuperSoft,
    F2Soft,
    F2Medium,
    F2Hard,
    F2Wet,
    Unknown,
}

/// Display-oriented tyre compound.
#[derive(Debug, Clone, Copy, PartialEq, Eq, Structural)]
pub enum VisualTyreCompound {
    Soft,
    Medium,
    Hard,
    Inter,
    Wet,
    F1ClassicDry,
    F1ClassicWet,
    F2SuperSoft,
    F2Soft,
    F2Medium,
    F2Hard,
    F2Wet,
    Unknown,
}

impl VisualTyreCompound {
    /// Display name of the compound.
    pub fn to_string(&self) -> (r: &'static str)
        ensures
            r@ == (match self {
                VisualTyreCompound::Soft => "Soft"@,
                VisualTyreCompound::Medium => "Medium"@,
                VisualTyreCompound::Hard => "Hard"@,
                VisualTyreCompound::Inter => "Inter"@,
                VisualTyreCompound::Wet => "Wet"@,
                VisualTyreCompound::F1ClassicDry => "Dry"@,
                VisualTyreCompound::F1ClassicWet => "Wet"@,
                VisualTyreCompound::F2SuperSoft => "Soft"@,
                VisualTyreCompound::F2Soft => "Soft"@,
                VisualTyreCompound::F2Medium => "Medium"@,
                VisualTyreCompound::F2Hard => "Hard"@,
                VisualTyreCompound::F2Wet => "Wet"@,
                VisualTyreCompound::Unknown => "[N/A]"@,
            }),
    {
        match self {
            VisualTyreCompound::Soft => "Soft",
            VisualTyreCompound::Medium => "Medium",
            VisualTyreCompound::Hard => "Hard",
            VisualTyreCompound::Inter => "Inter",
            VisualTyreCompound::Wet => "Wet",
            VisualTyreCompound::F1ClassicDry => "Dry",
            VisualTyreCompound::F1ClassicWet => "Wet",
            VisualTyreCompound::F2SuperSoft => "Soft",
            VisualTyreCompound::F2Soft => "Soft",
            VisualTyreCompound::F2Medium => "Medium",
            VisualTyreCompound::F2Hard => "Hard",
            VisualTyreCompound::F2Wet => "Wet",
            VisualTyreCompound::Unknown => "[N/A]",
        }
    }
}

/// Status of a single car: assists, fuel, tyres, damage and energy recovery.
#[derive(Debug, Clone, Copy, PartialEq, Eq, Structural)]
pub struct CarStatusData {
    pub traction_control: TractionControl,
    pub anti_lock_brakes: AntiLockBrakes,
    pub fuel_mix: FuelMix,
    pub front_brake_bias: u8,
    pub pit_limiter: bool,
    pub fuel_in_tank: Float32,
    pub fuel_capacity: Float32,
    pub fuel_remaining_laps: Float32,
    pub max_rpm: u16,
    pub idle_rpm: u16,
    pub max_gears: u8,
    pub drs_allowed: DRSStatus,
    pub drs_activation_distance: u16,
    pub tyres_wear: Wheel<u8>,
    pub actual_tyre_compound: ActualTyreCompound,
    pub visual_tyre_compound: VisualTyreCompound,
    pub tyres_age_laps: u8,
    pub tyres_damage: Wheel<u8>,
    pub front_left_wing_damage: u8,
    pub front_right_wing_damage: u8,
    pub rear_wing_damage: u8,
    pub drs_fault: bool,
    pub engine_damage: u8,
    pub gear_box_damage: u8,
    pub vehicle_fia_flags: ZoneFlag,
    pub ers_store_energy: Float32,
    pub ers_deploy_mode: ERSDeploymentMode,
    pub ers_harvested_this_lap_mguk: Float32,
    pub ers_harvested_this_lap_mguh: Float32,
    pub ers_deployed_this_lap: Float32,
}

/// The car-status packet: one status entry per car slot.
#[derive(Debug, Clone, PartialEq, Eq)]
pub struct PacketCarStatusData {
    pub header: PacketHeader,
    pub car_status_data: Vec<CarStatusData>,
}

} // verus!
