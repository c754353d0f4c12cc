use sysfs_attrs::error::SysfsError;
use sysfs_attrs::psu::{
    capacity, capacity_level, capacity_level_from_label, capacity_level_label, charge_behaviour,
    charge_behaviour_from_label, charge_behaviour_label, charge_type, charge_type_from_label,
    charge_type_label, current_avg, cycle_count, health, health_from_label, health_label,
    manufacturer, model_name, online, online_from_number, online_number, present, serial_number,
    set_capacity_alert_max, set_charge_behaviour, set_charge_type, set_current_now,
    set_input_power_limit, set_online, set_status, set_voltage_now, status, status_from_label,
    status_label, supply_type, technology, technology_from_label, technology_label,
    type_from_label, type_label, usb_type, usb_type_from_label, usb_type_label, CapacityLevel,
    ChargeBehaviour, ChargeType, Health, Online, Status, Technology, Type, UsbType,
};
use sysfs_attrs::text::ReadOutcome;

fn content(text: &str) -> ReadOutcome {
    ReadOutcome::Content(text.as_bytes().to_vec())
}

#[test]
fn type_labels_round_trip() {
    for v in [Type::Battery, Type::Ups, Type::Mains, Type::Usb, Type::Wireless] {
        assert_eq!(type_from_label(type_label(v)), Some(v));
    }
    assert_eq!(type_label(Type::Ups), "UPS");
    assert_eq!(type_from_label("Charger"), None);
}

#[test]
fn capacity_level_labels_round_trip() {
    for v in [
        CapacityLevel::Unknown,
        CapacityLevel::Critical,
        CapacityLevel::Low,
        CapacityLevel::Normal,
        CapacityLevel::High,
        CapacityLevel::Full,
    ] {
        assert_eq!(capacity_level_from_label(capacity_level_label(v)), Some(v));
    }
    assert_eq!(capacity_level_from_label("full"), None);
}

#[test]
fn charge_type_labels_round_trip() {
    for v in [
        ChargeType::Unknown,
        ChargeType::NotAvailable,
        ChargeType::Trickle,
        ChargeType::Fast,
        ChargeType::Standard,
        ChargeType::Adaptive,
        ChargeType::Custom,
        ChargeType::LongLife,
        ChargeType::Bypass,
    ] {
        assert_eq!(charge_type_from_label(charge_type_label(v)), Some(v));
    }
    assert_eq!(charge_type_label(ChargeType::NotAvailable), "N/A");
    assert_eq!(charge_type_label(ChargeType::LongLife), "Long Life");
}

#[test]
fn health_labels_round_trip() {
    for v in [
        Health::Unknown,
        Health::Good,
        Health::Overheat,
        Health::Dead,
        Health::OverVoltage,
        Health::UnspecifiedFailure,
        Health::Cold,
        Health::WatchdogTimerExpire,
        Health::SafetyTimerExpire,
        Health::OverCurrent,
        Health::CalibrationRequired,
        Health::Warm,
        Health::Cool,
        Health::Hot,
        Health::NoBattery,
    ] {
        assert_eq!(health_from_label(health_label(v)), Some(v));
    }
    assert_eq!(health_label(Health::Cold), "cold");
    assert_eq!(health_label(Health::OverVoltage), "Over voltage");
}

#[test]
fn status_labels_round_trip() {
    for v in [
        Status::Unknown,
        Status::Charging,
        Status::Discharging,
        Status::NotCharging,
        Status::Full,
    ] {
        assert_eq!(status_from_label(status_label(v)), Some(v));
    }
    assert_eq!(status_label(Status::NotCharging), "Not charging");
}

#[test]
fn charge_behaviour_labels_round_trip() {
    for v in [
        ChargeBehaviour::Auto,
        ChargeBehaviour::InhibitCharge,
        ChargeBehaviour::ForceDischarge,
    ] {
        assert_eq!(charge_behaviour_from_label(charge_behaviour_label(v)), Some(v));
    }
    assert_eq!(charge_behaviour_label(ChargeBehaviour::ForceDischarge), "force-discharge");
}

#[test]
fn technology_labels_round_trip() {
    for v in [
        Technology::Unknown,
        Technology::NiMh,
        Technology::LiIon,
        Technology::LiPoly,
        Technology::LiFe,
        Technology::NiCd,
        Technology::LiMn,
    ] {
        assert_eq!(technology_from_label(technology_label(v)), Some(v));
    }
    assert_eq!(technology_label(Technology::LiIon), "Li-ion");
}

#[test]
fn online_numbers_round_trip() {
    for v in [Online::Offline, Online::Fixed, Online::Programmable] {
        assert_eq!(online_from_number(online_number(v)), Some(v));
    }
    assert_eq!(online_from_number(3), None);
}

#[test]
fn usb_type_labels_round_trip() {
    for v in [
        UsbType::Unknown,
        UsbType::Sdp,
        UsbType::Dcp,
        UsbType::Cdp,
        UsbType::Aca,
        UsbType::C,
        UsbType::Pd,
        UsbType::PdDrp,
        UsbType::PdPps,
        UsbType::BrickId,
    ] {
        assert_eq!(usb_type_from_label(usb_type_label(v)), Some(v));
    }
    assert_eq!(usb_type_label(UsbType::PdPps), "PD_PPS");
}

#[test]
fn text_attributes_read_verbatim() {
    assert_eq!(manufacturer(content("ACME\n")), Ok("ACME".to_string()));
    assert_eq!(model_name(content("PowerCell 9\n")), Ok("PowerCell 9".to_string()));
    assert_eq!(serial_number(content("5B10W13960\n")), Ok("5B10W13960".to_string()));
}

#[test]
fn enum_attributes_decode_their_labels() {
    assert_eq!(supply_type(content("Battery\n")), Ok(Type::Battery));
    assert_eq!(status(content("Charging\n")), Ok(Status::Charging));
    assert_eq!(health(content("Good\n")), Ok(Health::Good));
    assert_eq!(capacity_level(content("Normal\n")), Ok(CapacityLevel::Normal));
    assert_eq!(technology(content("Li-ion\n")), Ok(Technology::LiIon));
    assert_eq!(usb_type(content("PD\n")), Ok(UsbType::Pd));
    assert_eq!(charge_type(content("Fast\n")), Ok(ChargeType::Fast));
    assert_eq!(status(content("charging\n")), Err(SysfsError::DecodeFailure));
}

#[test]
fn charge_behaviour_reads_the_bracketed_selection() {
    assert_eq!(
        charge_behaviour(content("[auto] inhibit-charge force-discharge\n")),
        Ok(ChargeBehaviour::Auto)
    );
    assert_eq!(
        charge_behaviour(content("auto [inhibit-charge] force-discharge\n")),
        Ok(ChargeBehaviour::InhibitCharge)
    );
    assert_eq!(charge_behaviour(content("auto\n")), Err(SysfsError::DecodeFailure));
}

#[test]
fn numeric_attributes_decode_their_kind() {
    assert_eq!(current_avg(content("-250000\n")), Ok(-250000));
    assert_eq!(cycle_count(content("312\n")), Ok(312));
    assert_eq!(capacity(content("42\n")), Ok(42));
    assert_eq!(present(content("1\n")), Ok(true));
    assert_eq!(present(content("0\n")), Ok(false));
    assert_eq!(present(content("2\n")), Err(SysfsError::DecodeFailure));
    assert_eq!(online(content("1\n")), Ok(Online::Fixed));
    assert_eq!(online(content("3\n")), Err(SysfsError::DecodeFailure));
}

#[test]
fn setters_encode_exactly_what_the_file_expects() {
    assert_eq!(set_current_now(-500000), "-500000");
    assert_eq!(set_voltage_now(11100000), "11100000");
    assert_eq!(set_capacity_alert_max(43), "43");
    assert_eq!(set_charge_type(ChargeType::LongLife), "Long Life");
    assert_eq!(set_status(Status::NotCharging), "Not charging");
    assert_eq!(set_charge_behaviour(ChargeBehaviour::InhibitCharge), "inhibit-charge");
    assert_eq!(set_online(Online::Programmable), "2");
    assert_eq!(set_input_power_limit(5000000), "5000000");
}
