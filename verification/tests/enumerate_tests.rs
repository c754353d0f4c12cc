use sysfs_attrs::enumerate::{
    count_matching, entry_index, matching_entries, name_matches, sort_u64, NamePattern,
};
use sysfs_attrs::cpufreq::affected_cpus;
use sysfs_attrs::path::{cpufreq_policy_template, resolve, DeviceLocator};
use sysfs_attrs::text::ReadOutcome;

fn policy_pattern() -> NamePattern {
    NamePattern { prefix: "policy".to_string(), numeric: true }
}

fn names(v: &[&str]) -> Vec<String> {
    v.iter().map(|s| s.to_string()).collect()
}

#[test]
fn numeric_prefix_discovery_filters_exactly() {
    // policyX is rejected for its non-digit suffix, `other` for its prefix.
    let entries = names(&["policy0", "policy1", "policy10", "policyX", "other"]);
    let found = matching_entries(&entries, &policy_pattern());
    assert_eq!(found, names(&["policy0", "policy1", "policy10"]));
    assert_eq!(count_matching(&entries, &policy_pattern()), 3);
}

#[test]
fn bare_prefix_is_not_an_instance() {
    let entries = names(&["policy", "policy7"]);
    assert_eq!(matching_entries(&entries, &policy_pattern()), names(&["policy7"]));
}

#[test]
fn named_classes_accept_every_nonempty_name() {
    let pattern = NamePattern { prefix: String::new(), numeric: false };
    let entries = names(&["BAT0", "AC", "hidpp_battery_0"]);
    assert_eq!(matching_entries(&entries, &pattern), entries);
    assert!(!name_matches("", &pattern));
}

#[test]
fn listing_order_is_kept() {
    let entries = names(&["policy2", "policy0"]);
    assert_eq!(matching_entries(&entries, &policy_pattern()), names(&["policy2", "policy0"]));
}

#[test]
fn entry_index_reads_the_numeric_suffix() {
    assert_eq!(entry_index("policy7", "policy"), Some(7));
    assert_eq!(entry_index("policy10", "policy"), Some(10));
    assert_eq!(entry_index("policy007", "policy"), Some(7));
    assert_eq!(entry_index("policy", "policy"), None);
    assert_eq!(entry_index("policyX", "policy"), None);
    assert_eq!(entry_index("other0", "policy"), None);
}

#[test]
fn numeric_locators_sort_ascending() {
    let sorted = sort_u64(&vec![10, 0, 2, 2, 1]);
    assert_eq!(sorted, vec![0, 1, 2, 2, 10]);
    assert_eq!(sort_u64(&Vec::new()), Vec::<u64>::new());
}

#[test]
fn end_to_end_policy_gap_and_list_read() {
    // A root holding policy0 and policy2 (no policy1) yields two
    // locators; reading a numeric list attribute of policy0 whose file
    // holds "0 4\n" yields [0, 4].
    let entries = names(&["policy0", "policy2"]);
    let found = matching_entries(&entries, &policy_pattern());
    assert_eq!(found.len(), 2);

    let template = cpufreq_policy_template();
    let idx = entry_index(&found[0], "policy").unwrap();
    let path = resolve(&template, &DeviceLocator::Index(idx), "affected_cpus");
    assert_eq!(path, "/sys/devices/system/cpu/cpufreq/policy0/affected_cpus");

    let raw = ReadOutcome::Content(b"0 4\n".to_vec());
    assert_eq!(affected_cpus(raw), Ok(vec![0, 4]));
}
