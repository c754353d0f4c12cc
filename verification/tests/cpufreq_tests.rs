use sysfs_attrs::acpi_cppc::{feedback_ctrs, highest_perf, lowest_freq, nominal_perf};
use sysfs_attrs::amd_pstate::{
    amd_pstate_highest_perf, energy_performance_available_preferences,
    energy_performance_preference, set_energy_performance_preference,
};
use sysfs_attrs::cpufreq::{
    affected_cpus, bios_limit, cpuinfo_max_freq, cpuinfo_transition_latency, related_cpus,
    scaling_available_governors, scaling_driver, scaling_governor, scaling_max_freq,
    set_scaling_governor, set_scaling_max_freq, set_scaling_min_freq, set_scaling_setspeed,
};
use sysfs_attrs::error::SysfsError;
use sysfs_attrs::text::ReadOutcome;

fn content(text: &str) -> ReadOutcome {
    ReadOutcome::Content(text.as_bytes().to_vec())
}

#[test]
fn cpu_lists_decode_as_numbers() {
    assert_eq!(affected_cpus(content("0 4\n")), Ok(vec![0, 4]));
    assert_eq!(related_cpus(content("0 1 2 3\n")), Ok(vec![0, 1, 2, 3]));
    assert_eq!(affected_cpus(content("0 x\n")), Err(SysfsError::DecodeFailure));
}

#[test]
fn frequencies_decode_as_unsigned_numbers() {
    assert_eq!(bios_limit(content("3500000\n")), Ok(3500000));
    assert_eq!(cpuinfo_max_freq(content("4800000\n")), Ok(4800000));
    assert_eq!(scaling_max_freq(content("2800000\n")), Ok(2800000));
    assert_eq!(cpuinfo_max_freq(ReadOutcome::Missing), Err(SysfsError::MissingAttribute));
}

#[test]
fn transition_latency_may_be_negative() {
    assert_eq!(cpuinfo_transition_latency(content("20000\n")), Ok(20000));
    assert_eq!(cpuinfo_transition_latency(content("-1\n")), Ok(-1));
}

#[test]
fn governor_texts_read_verbatim() {
    assert_eq!(scaling_driver(content("acpi-cpufreq\n")), Ok("acpi-cpufreq".to_string()));
    assert_eq!(scaling_governor(content("schedutil\n")), Ok("schedutil".to_string()));
    assert_eq!(
        scaling_available_governors(content("conservative ondemand performance\n")),
        Ok(vec![
            "conservative".to_string(),
            "ondemand".to_string(),
            "performance".to_string(),
        ])
    );
}

#[test]
fn cpufreq_setters_encode_the_file_text() {
    assert_eq!(set_scaling_governor("powersave"), "powersave");
    assert_eq!(set_scaling_max_freq(2800000), "2800000");
    assert_eq!(set_scaling_min_freq(800000), "800000");
    assert_eq!(set_scaling_setspeed(1200000), "1200000");
}

#[test]
fn amd_pstate_attributes_decode() {
    assert_eq!(amd_pstate_highest_perf(content("255\n")), Ok(255));
    assert_eq!(
        energy_performance_available_preferences(content("default performance power\n")),
        Ok(vec!["default".to_string(), "performance".to_string(), "power".to_string()])
    );
    assert_eq!(energy_performance_preference(content("balance_performance\n")),
        Ok("balance_performance".to_string()));
    assert_eq!(set_energy_performance_preference("power"), "power");
}

#[test]
fn acpi_cppc_attributes_decode_as_numbers() {
    assert_eq!(highest_perf(content("300\n")), Ok(300));
    assert_eq!(nominal_perf(content("260\n")), Ok(260));
    assert_eq!(lowest_freq(content("400\n")), Ok(400));
    assert_eq!(feedback_ctrs(content("0\n")), Ok(0));
    assert_eq!(highest_perf(content("<unsupported>\n")), Err(SysfsError::UnsupportedAttribute));
}
