use sysfs_attrs::path::{
    cpu_template, cpufreq_policy_template, power_supply_template, resolve, root_path,
    DeviceLocator, RootTemplate,
};

#[test]
fn policy_paths_substitute_the_index() {
    let t = cpufreq_policy_template();
    assert_eq!(
        root_path(&t, &DeviceLocator::Index(0)),
        "/sys/devices/system/cpu/cpufreq/policy0"
    );
    assert_eq!(
        resolve(&t, &DeviceLocator::Index(3), "scaling_max_freq"),
        "/sys/devices/system/cpu/cpufreq/policy3/scaling_max_freq"
    );
}

#[test]
fn cpu_paths_substitute_the_index() {
    let t = cpu_template();
    assert_eq!(
        resolve(&t, &DeviceLocator::Index(12), "acpi_cppc/highest_perf"),
        "/sys/devices/system/cpu/cpu12/acpi_cppc/highest_perf"
    );
}

#[test]
fn power_supply_paths_substitute_the_name() {
    let t = power_supply_template();
    assert_eq!(
        resolve(&t, &DeviceLocator::Name("BAT0".to_string()), "status"),
        "/sys/class/power_supply/BAT0/status"
    );
}

#[test]
fn resolution_is_plain_interpolation() {
    let t = RootTemplate { prefix: "/base/dev".to_string(), suffix: "/sub".to_string() };
    assert_eq!(
        resolve(&t, &DeviceLocator::Index(42), "attr"),
        "/base/dev42/sub/attr"
    );
    // The same inputs always yield the same path.
    assert_eq!(
        resolve(&t, &DeviceLocator::Index(42), "attr"),
        resolve(&t, &DeviceLocator::Index(42), "attr")
    );
}
