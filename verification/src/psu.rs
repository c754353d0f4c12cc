//! Typed attributes of the power-supply device class.
//!
//! One directory per supply under the class root, named by the supply's
//! own directory name. Each function here interprets the raw outcome of
//! reading one attribute file, or encodes a value for writing one; the
//! caller resolves the path with [`crate::path::power_supply_template`]
//! and performs the I/O.

use vstd::prelude::*;
use vstd::string::*;

use crate::codec::{parse_selected, spec_parse_selected, view_opt_str};
use crate::error::SysfsError;
use crate::num::{spec_format_i64, spec_format_u64, spec_parse_u64, format_i64, format_u64, parse_u64};
use crate::reader::{
    read_bool_attr, read_i64_attr, read_percent_attr, read_text_attr, read_u64_attr,
    spec_read_bool, spec_read_i64, spec_read_percent, spec_read_text, spec_read_u64,
};
use crate::text::{attr_text, spec_attr_text, str_eq, view_text_result, ReadOutcome};

verus! {

/// The main type of a supply.
#[derive(Clone, Copy, Debug, PartialEq, Eq, Structural)]
pub enum Type {
    /// A battery.
    Battery,
    /// An uninterruptible power supply.
    Ups,
    /// A mains adapter.
    Mains,
    /// A USB supply.
    Usb,
    /// A wireless supply.
    Wireless,
}

/// The label of a supply type.
pub open spec fn spec_type_label(v: Type) -> Seq<char> {
    match v {
        Type::Battery => "Battery"@,
        Type::Ups => "UPS"@,
        Type::Mains => "Mains"@,
        Type::Usb => "USB"@,
        Type::Wireless => "Wireless"@,
    }
}

/// The supply type a label denotes.
pub open spec fn spec_type_from_label(s: Seq<char>) -> Option<Type> {
    if s == "Battery"@ {
        Some(Type::Battery)
    } else if s == "UPS"@ {
        Some(Type::Ups)
    } else if s == "Mains"@ {
        Some(Type::Mains)
    } else if s == "USB"@ {
        Some(Type::Usb)
    } else if s == "Wireless"@ {
        Some(Type::Wireless)
    } else {
        None
    }
}

/// The label text of a supply type.
pub fn type_label(v: Type) -> (r: &'static str)
    ensures
        r@ == spec_type_label(v),
{
    match v {
        Type::Battery => "Battery",
        Type::Ups => "UPS",
        Type::Mains => "Mains",
        Type::Usb => "USB",
        Type::Wireless => "Wireless",
    }
}

/// Decodes a supply type label.
pub fn type_from_label(s: &str) -> (r: Option<Type>)
    ensures
        r == spec_type_from_label(s@),
{
    if str_eq(s, "Battery") {
        Some(Type::Battery)
    } else if str_eq(s, "UPS") {
        Some(Type::Ups)
    } else if str_eq(s, "Mains") {
        Some(Type::Mains)
    } else if str_eq(s, "USB") {
        Some(Type::Usb)
    } else if str_eq(s, "Wireless") {
        Some(Type::Wireless)
    } else {
        None
    }
}

/// Round trip: decoding a supply type's label gives back the value.
pub proof fn lemma_type_label_round_trip(v: Type)
    ensures
        spec_type_from_label(spec_type_label(v)) == Some(v),
{
    broadcast use vstd::string::group_string_axioms;

    reveal_strlit("Battery");
    reveal_strlit("UPS");
    reveal_strlit("Mains");
    reveal_strlit("USB");
    reveal_strlit("Wireless");
    assert("Battery"@.len() == 7);
    assert("UPS"@.len() == 3);
    assert("Mains"@.len() == 5);
    assert("USB"@.len() == 3);
    assert("Wireless"@.len() == 8);
    assert("USB"@ != "UPS"@) by {
        assert("USB"@[1] == 'S' && "UPS"@[1] == 'P');
    }
}

/// The coarse representation of battery capacity.
#[derive(Clone, Copy, Debug, PartialEq, Eq, Structural)]
pub enum CapacityLevel {
    /// The level is not known.
    Unknown,
    /// Critically low.
    Critical,
    /// Low.
    Low,
    /// Normal.
    Normal,
    /// High.
    High,
    /// Full.
    Full,
}

/// The label of a capacity level.
pub open spec fn spec_capacity_level_label(v: CapacityLevel) -> Seq<char> {
    match v {
        CapacityLevel::Unknown => "Unknown"@,
        CapacityLevel::Critical => "Critical"@,
        CapacityLevel::Low => "Low"@,
        CapacityLevel::Normal => "Normal"@,
        CapacityLevel::High => "High"@,
        CapacityLevel::Full => "Full"@,
    }
}

/// The capacity level a label denotes.
pub open spec fn spec_capacity_level_from_label(s: Seq<char>) -> Option<CapacityLevel> {
    if s == "Unknown"@ {
        Some(CapacityLevel::Unknown)
    } else if s == "Critical"@ {
        Some(CapacityLevel::Critical)
    } else if s == "Low"@ {
        Some(CapacityLevel::Low)
    } else if s == "Normal"@ {
        Some(CapacityLevel::Normal)
    } else if s == "High"@ {
        Some(CapacityLevel::High)
    } else if s == "Full"@ {
        Some(CapacityLevel::Full)
    } else {
        None
    }
}

/// The label text of a capacity level.
pub fn capacity_level_label(v: CapacityLevel) -> (r: &'static str)
    ensures
        r@ == spec_capacity_level_label(v),
{
    match v {
        CapacityLevel::Unknown => "Unknown",
        CapacityLevel::Critical => "Critical",
        CapacityLevel::Low => "Low",
        CapacityLevel::Normal => "Normal",
        CapacityLevel::High => "High",
        CapacityLevel::Full => "Full",
    }
}

/// Decodes a capacity level label.
pub fn capacity_level_from_label(s: &str) -> (r: Option<CapacityLevel>)
    ensures
        r == spec_capacity_level_from_label(s@),
{
    if str_eq(s, "Unknown") {
        Some(CapacityLevel::Unknown)
    } else if str_eq(s, "Critical") {
        Some(CapacityLevel::Critical)
    } else if str_eq(s, "Low") {
        Some(CapacityLevel::Low)
    } else if str_eq(s, "Normal") {
        Some(CapacityLevel::Normal)
    } else if str_eq(s, "High") {
        Some(CapacityLevel::High)
    } else if str_eq(s, "Full") {
        Some(CapacityLevel::Full)
    } else {
        None
    }
}

/// Round trip: decoding a capacity level's label gives back the value.
pub proof fn lemma_capacity_level_label_round_trip(v: CapacityLevel)
    ensures
        spec_capacity_level_from_label(spec_capacity_level_label(v)) == Some(v),
{
    broadcast use vstd::string::group_string_axioms;

    reveal_strlit("Unknown");
    reveal_strlit("Critical");
    reveal_strlit("Low");
    reveal_strlit("Normal");
    reveal_strlit("High");
    reveal_strlit("Full");
    assert("Unknown"@.len() == 7);
    assert("Critical"@.len() == 8);
    assert("Low"@.len() == 3);
    assert("Normal"@.len() == 6);
    assert("High"@.len() == 4);
    assert("Full"@.len() == 4);
    assert("High"@[0] == 'H' && "Full"@[0] == 'F');
}

/// The kind of charging currently applied to the battery.
#[derive(Clone, Copy, Debug, PartialEq, Eq, Structural)]
pub enum ChargeType {
    /// The charge type is not known.
    Unknown,
    /// Charge-type control is not available.
    NotAvailable,
    /// Slow trickle charging.
    Trickle,
    /// Fast charging.
    Fast,
    /// Standard charging.
    Standard,
    /// The charger adjusts the rate dynamically on its own.
    Adaptive,
    /// The charger follows the charge-control configuration.
    Custom,
    /// The charger reduces its rate to prolong battery health.
    LongLife,
    /// The charger bypasses its converter for external conversion.
    Bypass,
}

/// The label of a charge type.
pub open spec fn spec_charge_type_label(v: ChargeType) -> Seq<char> {
    match v {
        ChargeType::Unknown => "Unknown"@,
        ChargeType::NotAvailable => "N/A"@,
        ChargeType::Trickle => "Trickle"@,
        ChargeType::Fast => "Fast"@,
        ChargeType::Standard => "Standard"@,
        ChargeType::Adaptive => "Adaptive"@,
        ChargeType::Custom => "Custom"@,
        ChargeType::LongLife => "Long Life"@,
        ChargeType::Bypass => "Bypass"@,
    }
}

/// The charge type a label denotes.
pub open spec fn spec_charge_type_from_label(s: Seq<char>) -> Option<ChargeType> {
    if s == "Unknown"@ {
        Some(ChargeType::Unknown)
    } else if s == "N/A"@ {
        Some(ChargeType::NotAvailable)
    } else if s == "Trickle"@ {
        Some(ChargeType::Trickle)
    } else if s == "Fast"@ {
        Some(ChargeType::Fast)
    } else if s == "Standard"@ {
        Some(ChargeType::Standard)
    } else if s == "Adaptive"@ {
        Some(ChargeType::Adaptive)
    } else if s == "Custom"@ {
        Some(ChargeType::Custom)
    } else if s == "Long Life"@ {
        Some(ChargeType::LongLife)
    } else if s == "Bypass"@ {
        Some(ChargeType::Bypass)
    } else {
        None
    }
}

/// The label text of a charge type.
pub fn charge_type_label(v: ChargeType) -> (r: &'static str)
    ensures
        r@ == spec_charge_type_label(v),
{
    match v {
        ChargeType::Unknown => "Unknown",
        ChargeType::NotAvailable => "N/A",
        ChargeType::Trickle => "Trickle",
        ChargeType::Fast => "Fast",
        ChargeType::Standard => "Standard",
        ChargeType::Adaptive => "Adaptive",
        ChargeType::Custom => "Custom",
        ChargeType::LongLife => "Long Life",
        ChargeType::Bypass => "Bypass",
    }
}

/// Decodes a charge type label.
pub fn charge_type_from_label(s: &str) -> (r: Option<ChargeType>)
    ensures
        r == spec_charge_type_from_label(s@),
{
    if str_eq(s, "Unknown") {
        Some(ChargeType::Unknown)
    } else if str_eq(s, "N/A") {
        Some(ChargeType::NotAvailable)
    } else if str_eq(s, "Trickle") {
        Some(ChargeType::Trickle)
    } else if str_eq(s, "Fast") {
        Some(ChargeType::Fast)
    } else if str_eq(s, "Standard") {
        Some(ChargeType::Standard)
    } else if str_eq(s, "Adaptive") {
        Some(ChargeType::Adaptive)
    } else if str_eq(s, "Custom") {
        Some(ChargeType::Custom)
    } else if str_eq(s, "Long Life") {
        Some(ChargeType::LongLife)
    } else if str_eq(s, "Bypass") {
        Some(ChargeType::Bypass)
    } else {
        None
    }
}

/// Round trip: decoding a charge type's label gives back the value.
pub proof fn lemma_charge_type_label_round_trip(v: ChargeType)
    ensures
        spec_charge_type_from_label(spec_charge_type_label(v)) == Some(v),
{
    broadcast use vstd::string::group_string_axioms;

    reveal_strlit("Unknown");
    reveal_strlit("N/A");
    reveal_strlit("Trickle");
    reveal_strlit("Fast");
    reveal_strlit("Standard");
    reveal_strlit("Adaptive");
    reveal_strlit("Custom");
    reveal_strlit("Long Life");
    reveal_strlit("Bypass");
    assert("Unknown"@.len() == 7);
    assert("N/A"@.len() == 3);
    assert("Trickle"@.len() == 7);
    assert("Fast"@.len() == 4);
    assert("Standard"@.len() == 8);
    assert("Adaptive"@.len() == 8);
    assert("Custom"@.len() == 6);
    assert("Long Life"@.len() == 9);
    assert("Bypass"@.len() == 6);
    assert("Trickle"@ != "Unknown"@) by {
        assert("Trickle"@[0] == 'T' && "Unknown"@[0] == 'U');
    }
    assert("Adaptive"@ != "Standard"@) by {
        assert("Adaptive"@[0] == 'A' && "Standard"@[0] == 'S');
    }
    assert("Bypass"@ != "Custom"@) by {
        assert("Bypass"@[0] == 'B' && "Custom"@[0] == 'C');
    }
}

/// The health of the battery or of the charger's battery side.
#[derive(Clone, Copy, Debug, PartialEq, Eq, Structural)]
pub enum Health {
    /// The health is not known.
    Unknown,
    /// Good.
    Good,
    /// Overheating.
    Overheat,
    /// Dead.
    Dead,
    /// Over voltage.
    OverVoltage,
    /// An unspecified failure.
    UnspecifiedFailure,
    /// Too cold.
    Cold,
    /// The watchdog timer expired.
    WatchdogTimerExpire,
    /// The safety timer expired.
    SafetyTimerExpire,
    /// Over current.
    OverCurrent,
    /// Recalibration is required.
    CalibrationRequired,
    /// Warm.
    Warm,
    /// Cool.
    Cool,
    /// Hot.
    Hot,
    /// No battery is present.
    NoBattery,
}

/// The label of a health state.
pub open spec fn spec_health_label(v: Health) -> Seq<char> {
    match v {
        Health::Unknown => "Unknown"@,
        Health::Good => "Good"@,
        Health::Overheat => "Overheat"@,
        Health::Dead => "Dead"@,
        Health::OverVoltage => "Over voltage"@,
        Health::UnspecifiedFailure => "Unspecified failure"@,
        Health::Cold => "cold"@,
        Health::WatchdogTimerExpire => "Watchdog timer expire"@,
        Health::SafetyTimerExpire => "Safety timer expire"@,
        Health::OverCurrent => "Over current"@,
        Health::CalibrationRequired => "Calibration required"@,
        Health::Warm => "Warm"@,
        Health::Cool => "Cool"@,
        Health::Hot => "Hot"@,
        Health::NoBattery => "No battery"@,
    }
}

/// The health state a label denotes.
pub open spec fn spec_health_from_label(s: Seq<char>) -> Option<Health> {
    if s == "Unknown"@ {
        Some(Health::Unknown)
    } else if s == "Good"@ {
        Some(Health::Good)
    } else if s == "Overheat"@ {
        Some(Health::Overheat)
    } else if s == "Dead"@ {
        Some(Health::Dead)
    } else if s == "Over voltage"@ {
        Some(Health::OverVoltage)
    } else if s == "Unspecified failure"@ {
        Some(Health::UnspecifiedFailure)
    } else if s == "cold"@ {
        Some(Health::Cold)
    } else if s == "Watchdog timer expire"@ {
        Some(Health::WatchdogTimerExpire)
    } else if s == "Safety timer expire"@ {
        Some(Health::SafetyTimerExpire)
    } else if s == "Over current"@ {
        Some(Health::OverCurrent)
    } else if s == "Calibration required"@ {
        Some(Health::CalibrationRequired)
    } else if s == "Warm"@ {
        Some(Health::Warm)
    } else if s == "Cool"@ {
        Some(Health::Cool)
    } else if s == "Hot"@ {
        Some(Health::Hot)
    } else if s == "No battery"@ {
        Some(Health::NoBattery)
    } else {
        None
    }
}

/// The label text of a health state.
pub fn health_label(v: Health) -> (r: &'static str)
    ensures
        r@ == spec_health_label(v),
{
    match v {
        Health::Unknown => "Unknown",
        Health::Good => "Good",
        Health::Overheat => "Overheat",
        Health::Dead => "Dead",
        Health::OverVoltage => "Over voltage",
        Health::UnspecifiedFailure => "Unspecified failure",
        Health::Cold => "cold",
        Health::WatchdogTimerExpire => "Watchdog timer expire",
        Health::SafetyTimerExpire => "Safety timer expire",
        Health::OverCurrent => "Over current",
        Health::CalibrationRequired => "Calibration required",
        Health::Warm => "Warm",
        Health::Cool => "Cool",
        Health::Hot => "Hot",
        Health::NoBattery => "No battery",
    }
}

/// Decodes a health state label.
pub fn health_from_label(s: &str) -> (r: Option<Health>)
    ensures
        r == spec_health_from_label(s@),
{
    if str_eq(s, "Unknown") {
        Some(Health::Unknown)
    } else if str_eq(s, "Good") {
        Some(Health::Good)
    } else if str_eq(s, "Overheat") {
        Some(Health::Overheat)
    } else if str_eq(s, "Dead") {
        Some(Health::Dead)
    } else if str_eq(s, "Over voltage") {
        Some(Health::OverVoltage)
    } else if str_eq(s, "Unspecified failure") {
        Some(Health::UnspecifiedFailure)
    } else if str_eq(s, "cold") {
        Some(Health::Cold)
    } else if str_eq(s, "Watchdog timer expire") {
        Some(Health::WatchdogTimerExpire)
    } else if str_eq(s, "Safety timer expire") {
        Some(Health::SafetyTimerExpire)
    } else if str_eq(s, "Over current") {
        Some(Health::OverCurrent)
    } else if str_eq(s, "Calibration required") {
        Some(Health::CalibrationRequired)
    } else if str_eq(s, "Warm") {
        Some(Health::Warm)
    } else if str_eq(s, "Cool") {
        Some(Health::Cool)
    } else if str_eq(s, "Hot") {
        Some(Health::Hot)
    } else if str_eq(s, "No battery") {
        Some(Health::NoBattery)
    } else {
        None
    }
}

/// Round trip: decoding a health state's label gives back the value.
pub proof fn lemma_health_label_round_trip(v: Health)
    ensures
        spec_health_from_label(spec_health_label(v)) == Some(v),
{
    broadcast use vstd::string::group_string_axioms;

    reveal_strlit("Unknown");
    reveal_strlit("Good");
    reveal_strlit("Overheat");
    reveal_strlit("Dead");
    reveal_strlit("Over voltage");
    reveal_strlit("Unspecified failure");
    reveal_strlit("cold");
    reveal_strlit("Watchdog timer expire");
    reveal_strlit("Safety timer expire");
    reveal_strlit("Over current");
    reveal_strlit("Calibration required");
    reveal_strlit("Warm");
    reveal_strlit("Cool");
    reveal_strlit("Hot");
    reveal_strlit("No battery");
    assert("Unknown"@.len() == 7);
    assert("Good"@.len() == 4);
    assert("Overheat"@.len() == 8);
    assert("Dead"@.len() == 4);
    assert("Over voltage"@.len() == 12);
    assert("Unspecified failure"@.len() == 19);
    assert("cold"@.len() == 4);
    assert("Watchdog timer expire"@.len() == 21);
    assert("Safety timer expire"@.len() == 19);
    assert("Over current"@.len() == 12);
    assert("Calibration required"@.len() == 20);
    assert("Warm"@.len() == 4);
    assert("Cool"@.len() == 4);
    assert("Hot"@.len() == 3);
    assert("No battery"@.len() == 10);
    assert("Good"@[0] == 'G' && "Dead"@[0] == 'D' && "cold"@[0] == 'c' && "Warm"@[0] == 'W'
        && "Cool"@[0] == 'C');
    assert("Over voltage"@[5] == 'v' && "Over current"@[5] == 'c');
    assert("Unspecified failure"@[0] == 'U' && "Safety timer expire"@[0] == 'S');
}

/// The charging status of the battery.
#[derive(Clone, Copy, Debug, PartialEq, Eq, Structural)]
pub enum Status {
    /// The status is not known.
    Unknown,
    /// Charging.
    Charging,
    /// Discharging.
    Discharging,
    /// Attached to a supply but not charging.
    NotCharging,
    /// Full.
    Full,
}

/// The label of a charging status.
pub open spec fn spec_status_label(v: Status) -> Seq<char> {
    match v {
        Status::Unknown => "Unknown"@,
        Status::Charging => "Charging"@,
        Status::Discharging => "Discharging"@,
        Status::NotCharging => "Not charging"@,
        Status::Full => "Full"@,
    }
}

/// The charging status a label denotes.
pub open spec fn spec_status_from_label(s: Seq<char>) -> Option<Status> {
    if s == "Unknown"@ {
        Some(Status::Unknown)
    } else if s == "Charging"@ {
        Some(Status::Charging)
    } else if s == "Discharging"@ {
        Some(Status::Discharging)
    } else if s == "Not charging"@ {
        Some(Status::NotCharging)
    } else if s == "Full"@ {
        Some(Status::Full)
    } else {
        None
    }
}

/// The label text of a charging status.
pub fn status_label(v: Status) -> (r: &'static str)
    ensures
        r@ == spec_status_label(v),
{
    match v {
        Status::Unknown => "Unknown",
        Status::Charging => "Charging",
        Status::Discharging => "Discharging",
        Status::NotCharging => "Not charging",
        Status::Full => "Full",
    }
}

/// Decodes a charging status label.
pub fn status_from_label(s: &str) -> (r: Option<Status>)
    ensures
        r == spec_status_from_label(s@),
{
    if str_eq(s, "Unknown") {
        Some(Status::Unknown)
    } else if str_eq(s, "Charging") {
        Some(Status::Charging)
    } else if str_eq(s, "Discharging") {
        Some(Status::Discharging)
    } else if str_eq(s, "Not charging") {
        Some(Status::NotCharging)
    } else if str_eq(s, "Full") {
        Some(Status::Full)
    } else {
        None
    }
}

/// Round trip: decoding a charging status's label gives back the value.
pub proof fn lemma_status_label_round_trip(v: Status)
    ensures
        spec_status_from_label(spec_status_label(v)) == Some(v),
{
    broadcast use vstd::string::group_string_axioms;

    reveal_strlit("Unknown");
    reveal_strlit("Charging");
    reveal_strlit("Discharging");
    reveal_strlit("Not charging");
    reveal_strlit("Full");
    assert("Unknown"@.len() == 7);
    assert("Charging"@.len() == 8);
    assert("Discharging"@.len() == 11);
    assert("Not charging"@.len() == 12);
    assert("Full"@.len() == 4);
}

/// The charging behaviour of the supply.
#[derive(Clone, Copy, Debug, PartialEq, Eq, Structural)]
pub enum ChargeBehaviour {
    /// Charge normally, respecting thresholds.
    Auto,
    /// Do not charge while a supply is attached.
    InhibitCharge,
    /// Force discharge while a supply is attached.
    ForceDischarge,
}

/// The label of a charging behaviour.
pub open spec fn spec_charge_behaviour_label(v: ChargeBehaviour) -> Seq<char> {
    match v {
        ChargeBehaviour::Auto => "auto"@,
        ChargeBehaviour::InhibitCharge => "inhibit-charge"@,
        ChargeBehaviour::ForceDischarge => "force-discharge"@,
    }
}

/// The charging behaviour a label denotes.
pub open spec fn spec_charge_behaviour_from_label(s: Seq<char>) -> Option<ChargeBehaviour> {
    if s == "auto"@ {
        Some(ChargeBehaviour::Auto)
    } else if s == "inhibit-charge"@ {
        Some(ChargeBehaviour::InhibitCharge)
    } else if s == "force-discharge"@ {
        Some(ChargeBehaviour::ForceDischarge)
    } else {
        None
    }
}

/// The label text of a charging behaviour.
pub fn charge_behaviour_label(v: ChargeBehaviour) -> (r: &'static str)
    ensures
        r@ == spec_charge_behaviour_label(v),
{
    match v {
        ChargeBehaviour::Auto => "auto",
        ChargeBehaviour::InhibitCharge => "inhibit-charge",
        ChargeBehaviour::ForceDischarge => "force-discharge",
    }
}

/// Decodes a charging behaviour label.
pub fn charge_behaviour_from_label(s: &str) -> (r: Option<ChargeBehaviour>)
    ensures
        r == spec_charge_behaviour_from_label(s@),
{
    if str_eq(s, "auto") {
        Some(ChargeBehaviour::Auto)
    } else if str_eq(s, "inhibit-charge") {
        Some(ChargeBehaviour::InhibitCharge)
    } else if str_eq(s, "force-discharge") {
        Some(ChargeBehaviour::ForceDischarge)
    } else {
        None
    }
}

/// Round trip: decoding a charging behaviour's label gives back the
/// value.
pub proof fn lemma_charge_behaviour_label_round_trip(v: ChargeBehaviour)
    ensures
        spec_charge_behaviour_from_label(spec_charge_behaviour_label(v)) == Some(v),
{
    broadcast use vstd::string::group_string_axioms;

    reveal_strlit("auto");
    reveal_strlit("inhibit-charge");
    reveal_strlit("force-discharge");
    assert("auto"@.len() == 4);
    assert("inhibit-charge"@.len() == 14);
    assert("force-discharge"@.len() == 15);
}

/// The battery technology of the supply.
#[derive(Clone, Copy, Debug, PartialEq, Eq, Structural)]
pub enum Technology {
    /// The technology is not known.
    Unknown,
    /// Nickel-metal hydride.
    NiMh,
    /// Lithium-ion.
    LiIon,
    /// Lithium-polymer.
    LiPoly,
    /// Lithium iron phosphate.
    LiFe,
    /// Nickel-cadmium.
    NiCd,
    /// Lithium-manganese.
    LiMn,
}

/// The label of a battery technology.
pub open spec fn spec_technology_label(v: Technology) -> Seq<char> {
    match v {
        Technology::Unknown => "Unknown"@,
        Technology::NiMh => "NiMH"@,
        Technology::LiIon => "Li-ion"@,
        Technology::LiPoly => "Li-poly"@,
        Technology::LiFe => "LiFe"@,
        Technology::NiCd => "NiCd"@,
        Technology::LiMn => "LiMn"@,
    }
}

/// The battery technology a label denotes.
pub open spec fn spec_technology_from_label(s: Seq<char>) -> Option<Technology> {
    if s == "Unknown"@ {
        Some(Technology::Unknown)
    } else if s == "NiMH"@ {
        Some(Technology::NiMh)
    } else if s == "Li-ion"@ {
        Some(Technology::LiIon)
    } else if s == "Li-poly"@ {
        Some(Technology::LiPoly)
    } else if s == "LiFe"@ {
        Some(Technology::LiFe)
    } else if s == "NiCd"@ {
        Some(Technology::NiCd)
    } else if s == "LiMn"@ {
        Some(Technology::LiMn)
    } else {
        None
    }
}

/// The label text of a battery technology.
pub fn technology_label(v: Technology) -> (r: &'static str)
    ensures
        r@ == spec_technology_label(v),
{
    match v {
        Technology::Unknown => "Unknown",
        Technology::NiMh => "NiMH",
        Technology::LiIon => "Li-ion",
        Technology::LiPoly => "Li-poly",
        Technology::LiFe => "LiFe",
        Technology::NiCd => "NiCd",
        Technology::LiMn => "LiMn",
    }
}

/// Decodes a battery technology label.
pub fn technology_from_label(s: &str) -> (r: Option<Technology>)
    ensures
        r == spec_technology_from_label(s@),
{
    if str_eq(s, "Unknown") {
        Some(Technology::Unknown)
    } else if str_eq(s, "NiMH") {
        Some(Technology::NiMh)
    } else if str_eq(s, "Li-ion") {
        Some(Technology::LiIon)
    } else if str_eq(s, "Li-poly") {
        Some(Technology::LiPoly)
    } else if str_eq(s, "LiFe") {
        Some(Technology::LiFe)
    } else if str_eq(s, "NiCd") {
        Some(Technology::NiCd)
    } else if str_eq(s, "LiMn") {
        Some(Technology::LiMn)
    } else {
        None
    }
}

/// Round trip: decoding a battery technology's label gives back the
/// value.
pub proof fn lemma_technology_label_round_trip(v: Technology)
    ensures
        spec_technology_from_label(spec_technology_label(v)) == Some(v),
{
    broadcast use vstd::string::group_string_axioms;

    reveal_strlit("Unknown");
    reveal_strlit("NiMH");
    reveal_strlit("Li-ion");
    reveal_strlit("Li-poly");
    reveal_strlit("LiFe");
    reveal_strlit("NiCd");
    reveal_strlit("LiMn");
    assert("Unknown"@.len() == 7);
    assert("NiMH"@.len() == 4);
    assert("Li-ion"@.len() == 6);
    assert("Li-poly"@.len() == 7);
    assert("LiFe"@.len() == 4);
    assert("NiCd"@.len() == 4);
    assert("LiMn"@.len() == 4);
    assert("Unknown"@[0] == 'U' && "Li-poly"@[0] == 'L');
    assert("NiMH"@[0] == 'N' && "LiFe"@[0] == 'L' && "NiCd"@[0] == 'N' && "LiMn"@[0] == 'L');
    assert("NiMH"@[2] == 'M' && "NiCd"@[2] == 'C');
    assert("LiFe"@[2] == 'F' && "LiMn"@[2] == 'M');
}

/// Whether a supply is online, and how its voltage is controlled.
#[derive(Clone, Copy, Debug, PartialEq, Eq, Structural)]
pub enum Online {
    /// Offline.
    Offline,
    /// Online with a fixed voltage.
    Fixed,
    /// Online with a programmable voltage.
    Programmable,
}

/// The number an online state is stored as.
pub open spec fn spec_online_number(v: Online) -> u64 {
    match v {
        Online::Offline => 0,
        Online::Fixed => 1,
        Online::Programmable => 2,
    }
}

/// The online state a stored number denotes.
pub open spec fn spec_online_from_number(n: u64) -> Option<Online> {
    if n == 0 {
        Some(Online::Offline)
    } else if n == 1 {
        Some(Online::Fixed)
    } else if n == 2 {
        Some(Online::Programmable)
    } else {
        None
    }
}

/// The number an online state is written as.
pub fn online_number(v: Online) -> (r: u64)
    ensures
        r == spec_online_number(v),
{
    match v {
        Online::Offline => 0,
        Online::Fixed => 1,
        Online::Programmable => 2,
    }
}

/// Decodes a stored online number.
pub fn online_from_number(n: u64) -> (r: Option<Online>)
    ensures
        r == spec_online_from_number(n),
{
    if n == 0 {
        Some(Online::Offline)
    } else if n == 1 {
        Some(Online::Fixed)
    } else if n == 2 {
        Some(Online::Programmable)
    } else {
        None
    }
}

/// Round trip: decoding an online state's stored number gives back the
/// value.
pub proof fn lemma_online_number_round_trip(v: Online)
    ensures
        spec_online_from_number(spec_online_number(v)) == Some(v),
{
}

/// The kind of USB connection currently active for the supply.
#[derive(Clone, Copy, Debug, PartialEq, Eq, Structural)]
pub enum UsbType {
    /// The connection type is not known.
    Unknown,
    /// Standard downstream port.
    Sdp,
    /// Dedicated charging port.
    Dcp,
    /// Charging downstream port.
    Cdp,
    /// Accessory charger adapter.
    Aca,
    /// USB type C.
    C,
    /// Power delivery.
    Pd,
    /// Power delivery dual-role port.
    PdDrp,
    /// Power delivery programmable power supply.
    PdPps,
    /// Apple brick identification.
    BrickId,
}

/// The label of a USB connection type.
pub open spec fn spec_usb_type_label(v: UsbType) -> Seq<char> {
    match v {
        UsbType::Unknown => "Unknown"@,
        UsbType::Sdp => "SDP"@,
        UsbType::Dcp => "DCP"@,
        UsbType::Cdp => "CDP"@,
        UsbType::Aca => "ACA"@,
        UsbType::C => "C"@,
        UsbType::Pd => "PD"@,
        UsbType::PdDrp => "PD_DRP"@,
        UsbType::PdPps => "PD_PPS"@,
        UsbType::BrickId => "BrickID"@,
    }
}

/// The USB connection type a label denotes.
pub open spec fn spec_usb_type_from_label(s: Seq<char>) -> Option<UsbType> {
    if s == "Unknown"@ {
        Some(UsbType::Unknown)
    } else if s == "SDP"@ {
        Some(UsbType::Sdp)
    } else if s == "DCP"@ {
        Some(UsbType::Dcp)
    } else if s == "CDP"@ {
        Some(UsbType::Cdp)
    } else if s == "ACA"@ {
        Some(UsbType::Aca)
    } else if s == "C"@ {
        Some(UsbType::C)
    } else if s == "PD"@ {
        Some(UsbType::Pd)
    } else if s == "PD_DRP"@ {
        Some(UsbType::PdDrp)
    } else if s == "PD_PPS"@ {
        Some(UsbType::PdPps)
    } else if s == "BrickID"@ {
        Some(UsbType::BrickId)
    } else {
        None
    }
}

/// The label text of a USB connection type.
pub fn usb_type_label(v: UsbType) -> (r: &'static str)
    ensures
        r@ == spec_usb_type_label(v),
{
    match v {
        UsbType::Unknown => "Unknown",
        UsbType::Sdp => "SDP",
        UsbType::Dcp => "DCP",
        UsbType::Cdp => "CDP",
        UsbType::Aca => "ACA",
        UsbType::C => "C",
        UsbType::Pd => "PD",
        UsbType::PdDrp => "PD_DRP",
        UsbType::PdPps => "PD_PPS",
        UsbType::BrickId => "BrickID",
    }
}

/// Decodes a USB connection type label.
pub fn usb_type_from_label(s: &str) -> (r: Option<UsbType>)
    ensures
        r == spec_usb_type_from_label(s@),
{
    if str_eq(s, "Unknown") {
        Some(UsbType::Unknown)
    } else if str_eq(s, "SDP") {
        Some(UsbType::Sdp)
    } else if str_eq(s, "DCP") {
        Some(UsbType::Dcp)
    } else if str_eq(s, "CDP") {
        Some(UsbType::Cdp)
    } else if str_eq(s, "ACA") {
        Some(UsbType::Aca)
    } else if str_eq(s, "C") {
        Some(UsbType::C)
    } else if str_eq(s, "PD") {
        Some(UsbType::Pd)
    } else if str_eq(s, "PD_DRP") {
        Some(UsbType::PdDrp)
    } else if str_eq(s, "PD_PPS") {
        Some(UsbType::PdPps)
    } else if str_eq(s, "BrickID") {
        Some(UsbType::BrickId)
    } else {
        None
    }
}

/// Round trip: decoding a USB connection type's label gives back the
/// value.
pub proof fn lemma_usb_type_label_round_trip(v: UsbType)
    ensures
        spec_usb_type_from_label(spec_usb_type_label(v)) == Some(v),
{
    broadcast use vstd::string::group_string_axioms;

    reveal_strlit("Unknown");
    reveal_strlit("SDP");
    reveal_strlit("DCP");
    reveal_strlit("CDP");
    reveal_strlit("ACA");
    reveal_strlit("C");
    reveal_strlit("PD");
    reveal_strlit("PD_DRP");
    reveal_strlit("PD_PPS");
    reveal_strlit("BrickID");
    assert("Unknown"@.len() == 7);
    assert("SDP"@.len() == 3);
    assert("DCP"@.len() == 3);
    assert("CDP"@.len() == 3);
    assert("ACA"@.len() == 3);
    assert("C"@.len() == 1);
    assert("PD"@.len() == 2);
    assert("PD_DRP"@.len() == 6);
    assert("PD_PPS"@.len() == 6);
    assert("BrickID"@.len() == 7);
    assert("SDP"@[0] == 'S' && "DCP"@[0] == 'D' && "CDP"@[0] == 'C' && "ACA"@[0] == 'A');
    assert("PD_DRP"@[3] == 'D' && "PD_PPS"@[3] == 'P');
    assert("Unknown"@[0] == 'U' && "BrickID"@[0] == 'B');
}

/// The typed result of reading a supply type attribute.
pub open spec fn spec_read_type(raw: ReadOutcome) -> Result<Type, SysfsError> {
    match spec_attr_text(raw) {
        Err(e) => Err(e),
        Ok(t) => match spec_type_from_label(t) {
            Some(v) => Ok(v),
            None => Err(SysfsError::DecodeFailure),
        },
    }
}

/// The typed result of reading a capacity level attribute.
pub open spec fn spec_read_capacity_level(raw: ReadOutcome) -> Result<CapacityLevel, SysfsError> {
    match spec_attr_text(raw) {
        Err(e) => Err(e),
        Ok(t) => match spec_capacity_level_from_label(t) {
            Some(v) => Ok(v),
            None => Err(SysfsError::DecodeFailure),
        },
    }
}

/// The typed result of reading a charge type attribute.
pub open spec fn spec_read_charge_type(raw: ReadOutcome) -> Result<ChargeType, SysfsError> {
    match spec_attr_text(raw) {
        Err(e) => Err(e),
        Ok(t) => match spec_charge_type_from_label(t) {
            Some(v) => Ok(v),
            None => Err(SysfsError::DecodeFailure),
        },
    }
}

/// The typed result of reading a health attribute.
pub open spec fn spec_read_health(raw: ReadOutcome) -> Result<Health, SysfsError> {
    match spec_attr_text(raw) {
        Err(e) => Err(e),
        Ok(t) => match spec_health_from_label(t) {
            Some(v) => Ok(v),
            None => Err(SysfsError::DecodeFailure),
        },
    }
}

/// The typed result of reading a charging status attribute.
pub open spec fn spec_read_status(raw: ReadOutcome) -> Result<Status, SysfsError> {
    match spec_attr_text(raw) {
        Err(e) => Err(e),
        Ok(t) => match spec_status_from_label(t) {
            Some(v) => Ok(v),
            None => Err(SysfsError::DecodeFailure),
        },
    }
}

/// The typed result of reading a charging behaviour attribute: the
/// bracketed current selection is extracted out of the choice list
/// before the label lookup.
pub open spec fn spec_read_charge_behaviour(raw: ReadOutcome) -> Result<
    ChargeBehaviour,
    SysfsError,
> {
    match spec_attr_text(raw) {
        Err(e) => Err(e),
        Ok(t) => match spec_parse_selected(t) {
            None => Err(SysfsError::DecodeFailure),
            Some(sel) => match spec_charge_behaviour_from_label(sel) {
                Some(v) => Ok(v),
                None => Err(SysfsError::DecodeFailure),
            },
        },
    }
}

/// The typed result of reading a battery technology attribute.
pub open spec fn spec_read_technology(raw: ReadOutcome) -> Result<Technology, SysfsError> {
    match spec_attr_text(raw) {
        Err(e) => Err(e),
        Ok(t) => match spec_technology_from_label(t) {
            Some(v) => Ok(v),
            None => Err(SysfsError::DecodeFailure),
        },
    }
}

/// The typed result of reading an online state attribute.
pub open spec fn spec_read_online(raw: ReadOutcome) -> Result<Online, SysfsError> {
    match spec_attr_text(raw) {
        Err(e) => Err(e),
        Ok(t) => match spec_parse_u64(t) {
            None => Err(SysfsError::DecodeFailure),
            Some(n) => match spec_online_from_number(n) {
                Some(v) => Ok(v),
                None => Err(SysfsError::DecodeFailure),
            },
        },
    }
}

/// The typed result of reading a USB connection type attribute.
pub open spec fn spec_read_usb_type(raw: ReadOutcome) -> Result<UsbType, SysfsError> {
    match spec_attr_text(raw) {
        Err(e) => Err(e),
        Ok(t) => match spec_usb_type_from_label(t) {
            Some(v) => Ok(v),
            None => Err(SysfsError::DecodeFailure),
        },
    }
}

/// The name of the device manufacturer. Read-only.
pub fn manufacturer(raw: ReadOutcome) -> (r: Result<String, SysfsError>)
    ensures
        view_text_result(r) == spec_read_text(raw),
{
    read_text_attr(raw)
}

/// The name of the device model. Read-only.
pub fn model_name(raw: ReadOutcome) -> (r: Result<String, SysfsError>)
    ensures
        view_text_result(r) == spec_read_text(raw),
{
    read_text_attr(raw)
}

/// The serial number of the device. Read-only.
pub fn serial_number(raw: ReadOutcome) -> (r: Result<String, SysfsError>)
    ensures
        view_text_result(r) == spec_read_text(raw),
{
    read_text_attr(raw)
}

/// The main type of the supply. Read-only.
pub fn supply_type(raw: ReadOutcome) -> (r: Result<Type, SysfsError>)
    ensures
        r == spec_read_type(raw),
{
    match attr_text(raw) {
        Err(e) => Err(e),
        Ok(t) => match type_from_label(t.as_str()) {
            Some(v) => Ok(v),
            None => Err(SysfsError::DecodeFailure),
        },
    }
}

/// The average current reading, in microamps; negative while a battery
/// discharges. Read-only.
pub fn current_avg(raw: ReadOutcome) -> (r: Result<i64, SysfsError>)
    ensures
        r == spec_read_i64(raw),
{
    read_i64_attr(raw)
}

/// The maximum supported current, in microamps. Read-only.
pub fn current_max(raw: ReadOutcome) -> (r: Result<u64, SysfsError>)
    ensures
        r == spec_read_u64(raw),
{
    read_u64_attr(raw)
}

/// An instant current reading, in microamps; negative while a battery
/// discharges. Writable on programmable supplies.
pub fn current_now(raw: ReadOutcome) -> (r: Result<i64, SysfsError>)
    ensures
        r == spec_read_i64(raw),
{
    read_i64_attr(raw)
}

/// Encodes a value for writing the instant current, in microamps.
pub fn set_current_now(value: i64) -> (r: String)
    ensures
        r@ == spec_format_i64(value as int),
{
    format_i64(value)
}

/// The current temperature reading, in tenths of a degree Celsius.
/// Read-only.
pub fn temp(raw: ReadOutcome) -> (r: Result<u64, SysfsError>)
    ensures
        r == spec_read_u64(raw),
{
    read_u64_attr(raw)
}

/// The maximum temperature trip-wire value, in tenths of a degree
/// Celsius. Read-only.
pub fn temp_alert_max(raw: ReadOutcome) -> (r: Result<u64, SysfsError>)
    ensures
        r == spec_read_u64(raw),
{
    read_u64_attr(raw)
}

/// The minimum temperature trip-wire value, in tenths of a degree
/// Celsius. Read-only.
pub fn temp_alert_min(raw: ReadOutcome) -> (r: Result<u64, SysfsError>)
    ensures
        r == spec_read_u64(raw),
{
    read_u64_attr(raw)
}

/// The maximum allowed temperature, in tenths of a degree Celsius.
/// Read-only.
pub fn temp_max(raw: ReadOutcome) -> (r: Result<u64, SysfsError>)
    ensures
        r == spec_read_u64(raw),
{
    read_u64_attr(raw)
}

/// The minimum allowed temperature, in tenths of a degree Celsius.
/// Read-only.
pub fn temp_min(raw: ReadOutcome) -> (r: Result<u64, SysfsError>)
    ensures
        r == spec_read_u64(raw),
{
    read_u64_attr(raw)
}

/// The maximum safe voltage, in microvolts. Read-only.
pub fn voltage_max(raw: ReadOutcome) -> (r: Result<u64, SysfsError>)
    ensures
        r == spec_read_u64(raw),
{
    read_u64_attr(raw)
}

/// The minimum safe voltage, in microvolts. Read-only.
pub fn voltage_min(raw: ReadOutcome) -> (r: Result<u64, SysfsError>)
    ensures
        r == spec_read_u64(raw),
{
    read_u64_attr(raw)
}

/// An instant voltage reading, in microvolts. Writable on programmable
/// supplies.
pub fn voltage_now(raw: ReadOutcome) -> (r: Result<u64, SysfsError>)
    ensures
        r == spec_read_u64(raw),
{
    read_u64_attr(raw)
}

/// Encodes a value for writing the instant voltage, in microvolts.
pub fn set_voltage_now(value: u64) -> (r: String)
    ensures
        r@ == spec_format_u64(value as nat),
{
    format_u64(value)
}

/// The fine-grained battery capacity, in hundredths of the full scale.
/// Read-only.
pub fn capacity(raw: ReadOutcome) -> (r: Result<u8, SysfsError>)
    ensures
        r == spec_read_percent(raw),
{
    read_percent_attr(raw)
}

/// The maximum capacity trip-wire value, in hundredths. Writable.
pub fn capacity_alert_max(raw: ReadOutcome) -> (r: Result<u8, SysfsError>)
    ensures
        r == spec_read_percent(raw),
{
    read_percent_attr(raw)
}

/// Encodes a value for writing the maximum capacity trip-wire, in
/// hundredths.
pub fn set_capacity_alert_max(value: u8) -> (r: String)
    ensures
        r@ == spec_format_u64(value as nat),
{
    format_u64(value as u64)
}

/// The minimum capacity trip-wire value, in hundredths. Writable.
pub fn capacity_alert_min(raw: ReadOutcome) -> (r: Result<u8, SysfsError>)
    ensures
        r == spec_read_percent(raw),
{
    read_percent_attr(raw)
}

/// Encodes a value for writing the minimum capacity trip-wire, in
/// hundredths.
pub fn set_capacity_alert_min(value: u8) -> (r: String)
    ensures
        r@ == spec_format_u64(value as nat),
{
    format_u64(value as u64)
}

/// The maximum error margin of the capacity reading, in hundredths.
/// Read-only.
pub fn capacity_error_margin(raw: ReadOutcome) -> (r: Result<u8, SysfsError>)
    ensures
        r == spec_read_percent(raw),
{
    read_percent_attr(raw)
}

/// The coarse battery capacity level. Read-only.
pub fn capacity_level(raw: ReadOutcome) -> (r: Result<CapacityLevel, SysfsError>)
    ensures
        r == spec_read_capacity_level(raw),
{
    match attr_text(raw) {
        Err(e) => Err(e),
        Ok(t) => match capacity_level_from_label(t.as_str()) {
            Some(v) => Ok(v),
            None => Err(SysfsError::DecodeFailure),
        },
    }
}

/// The maximum allowable charging current, in microamps. Writable.
pub fn charge_control_limit(raw: ReadOutcome) -> (r: Result<u64, SysfsError>)
    ensures
        r == spec_read_u64(raw),
{
    read_u64_attr(raw)
}

/// Encodes a value for writing the charging current limit, in
/// microamps.
pub fn set_charge_control_limit(value: u64) -> (r: String)
    ensures
        r@ == spec_format_u64(value as nat),
{
    format_u64(value)
}

/// The maximum legal value of the charging current limit, in microamps.
/// Read-only.
pub fn charge_control_limit_max(raw: ReadOutcome) -> (r: Result<u64, SysfsError>)
    ensures
        r == spec_read_u64(raw),
{
    read_u64_attr(raw)
}

/// The battery level below which charging begins, in hundredths.
/// Writable.
pub fn charge_control_start_threshold(raw: ReadOutcome) -> (r: Result<u8, SysfsError>)
    ensures
        r == spec_read_percent(raw),
{
    read_percent_attr(raw)
}

/// Encodes a value for writing the charge start threshold, in
/// hundredths.
pub fn set_charge_control_start_threshold(value: u8) -> (r: String)
    ensures
        r@ == spec_format_u64(value as nat),
{
    format_u64(value as u64)
}

/// The battery level above which charging stops, in hundredths.
/// Writable.
pub fn charge_control_end_threshold(raw: ReadOutcome) -> (r: Result<u8, SysfsError>)
    ensures
        r == spec_read_percent(raw),
{
    read_percent_attr(raw)
}

/// Encodes a value for writing the charge end threshold, in hundredths.
pub fn set_charge_control_end_threshold(value: u8) -> (r: String)
    ensures
        r@ == spec_format_u64(value as nat),
{
    format_u64(value as u64)
}

/// The kind of charging currently applied to the battery. Writable.
pub fn charge_type(raw: ReadOutcome) -> (r: Result<ChargeType, SysfsError>)
    ensures
        r == spec_read_charge_type(raw),
{
    match attr_text(raw) {
        Err(e) => Err(e),
        Ok(t) => match charge_type_from_label(t.as_str()) {
            Some(v) => Ok(v),
            None => Err(SysfsError::DecodeFailure),
        },
    }
}

/// Encodes a value for writing the charge type.
pub fn set_charge_type(value: ChargeType) -> (r: String)
    ensures
        r@ == spec_charge_type_label(value),
{
    charge_type_label(value).to_owned()
}

/// The charging current that ends a charge cycle, in microamps.
/// Read-only.
pub fn charge_term_current(raw: ReadOutcome) -> (r: Result<u64, SysfsError>)
    ensures
        r == spec_read_u64(raw),
{
    read_u64_attr(raw)
}

/// The health of the battery or of the charger's battery side.
/// Read-only.
pub fn health(raw: ReadOutcome) -> (r: Result<Health, SysfsError>)
    ensures
        r == spec_read_health(raw),
{
    match attr_text(raw) {
        Err(e) => Err(e),
        Ok(t) => match health_from_label(t.as_str()) {
            Some(v) => Ok(v),
            None => Err(SysfsError::DecodeFailure),
        },
    }
}

/// The charging current applied during pre-charging, in microamps.
/// Read-only.
pub fn precharge_current(raw: ReadOutcome) -> (r: Result<u64, SysfsError>)
    ensures
        r == spec_read_u64(raw),
{
    read_u64_attr(raw)
}

/// Whether a battery is present in the system. Read-only.
pub fn present(raw: ReadOutcome) -> (r: Result<bool, SysfsError>)
    ensures
        r == spec_read_bool(raw),
{
    read_bool_attr(raw)
}

/// The charging status of the battery. Writable on some supplies.
pub fn status(raw: ReadOutcome) -> (r: Result<Status, SysfsError>)
    ensures
        r == spec_read_status(raw),
{
    match attr_text(raw) {
        Err(e) => Err(e),
        Ok(t) => match status_from_label(t.as_str()) {
            Some(v) => Ok(v),
            None => Err(SysfsError::DecodeFailure),
        },
    }
}

/// Encodes a value for writing the charging status.
pub fn set_status(value: Status) -> (r: String)
    ensures
        r@ == spec_status_label(value),
{
    status_label(value).to_owned()
}

/// The charging behaviour, read as the bracketed current selection of
/// the choice list. Writable.
pub fn charge_behaviour(raw: ReadOutcome) -> (r: Result<ChargeBehaviour, SysfsError>)
    ensures
        r == spec_read_charge_behaviour(raw),
{
    match attr_text(raw) {
        Err(e) => Err(e),
        Ok(t) => match parse_selected(t.as_str()) {
            None => Err(SysfsError::DecodeFailure),
            Some(sel) => match charge_behaviour_from_label(sel) {
                Some(v) => Ok(v),
                None => Err(SysfsError::DecodeFailure),
            },
        },
    }
}

/// Encodes a value for writing the charging behaviour.
pub fn set_charge_behaviour(value: ChargeBehaviour) -> (r: String)
    ensures
        r@ == spec_charge_behaviour_label(value),
{
    charge_behaviour_label(value).to_owned()
}

/// The battery technology of the supply. Read-only.
pub fn technology(raw: ReadOutcome) -> (r: Result<Technology, SysfsError>)
    ensures
        r == spec_read_technology(raw),
{
    match attr_text(raw) {
        Err(e) => Err(e),
        Ok(t) => match technology_from_label(t.as_str()) {
            Some(v) => Ok(v),
            None => Err(SysfsError::DecodeFailure),
        },
    }
}

/// The average voltage reading, in microvolts. Read-only.
pub fn voltage_avg(raw: ReadOutcome) -> (r: Result<u64, SysfsError>)
    ensures
        r == spec_read_u64(raw),
{
    read_u64_attr(raw)
}

/// The number of full charge and discharge cycles the battery has
/// undergone; zero when not available. Read-only.
pub fn cycle_count(raw: ReadOutcome) -> (r: Result<u64, SysfsError>)
    ensures
        r == spec_read_u64(raw),
{
    read_u64_attr(raw)
}

/// The incoming current limit, in microamps. Writable.
pub fn input_current_limit(raw: ReadOutcome) -> (r: Result<u64, SysfsError>)
    ensures
        r == spec_read_u64(raw),
{
    read_u64_attr(raw)
}

/// Encodes a value for writing the incoming current limit, in
/// microamps.
pub fn set_input_current_limit(value: u64) -> (r: String)
    ensures
        r@ == spec_format_u64(value as nat),
{
    format_u64(value)
}

/// The incoming voltage limit, in microvolts. Writable.
pub fn input_voltage_limit(raw: ReadOutcome) -> (r: Result<u64, SysfsError>)
    ensures
        r == spec_read_u64(raw),
{
    read_u64_attr(raw)
}

/// Encodes a value for writing the incoming voltage limit, in
/// microvolts.
pub fn set_input_voltage_limit(value: u64) -> (r: String)
    ensures
        r@ == spec_format_u64(value as nat),
{
    format_u64(value)
}

/// The incoming power limit, in microwatts. Writable.
pub fn input_power_limit(raw: ReadOutcome) -> (r: Result<u64, SysfsError>)
    ensures
        r == spec_read_u64(raw),
{
    read_u64_attr(raw)
}

/// Encodes a value for writing the incoming power limit, in microwatts.
pub fn set_input_power_limit(value: u64) -> (r: String)
    ensures
        r@ == spec_format_u64(value as nat),
{
    format_u64(value)
}

/// Whether the supply is online, stored as a number. Writable on
/// supplies that allow switching online states.
pub fn online(raw: ReadOutcome) -> (r: Result<Online, SysfsError>)
    ensures
        r == spec_read_online(raw),
{
    match attr_text(raw) {
        Err(e) => Err(e),
        Ok(t) => match parse_u64(t.as_str()) {
            None => Err(SysfsError::DecodeFailure),
            Some(n) => match online_from_number(n) {
                Some(v) => Ok(v),
                None => Err(SysfsError::DecodeFailure),
            },
        },
    }
}

/// Encodes a value for writing the online state, as its number.
pub fn set_online(value: Online) -> (r: String)
    ensures
        r@ == spec_format_u64(spec_online_number(value) as nat),
{
    format_u64(online_number(value))
}

/// The kind of USB connection currently active for the supply.
/// Read-only.
pub fn usb_type(raw: ReadOutcome) -> (r: Result<UsbType, SysfsError>)
    ensures
        r == spec_read_usb_type(raw),
{
    match attr_text(raw) {
        Err(e) => Err(e),
        Ok(t) => match usb_type_from_label(t.as_str()) {
            Some(v) => Ok(v),
            None => Err(SysfsError::DecodeFailure),
        },
    }
}

} // verus!
