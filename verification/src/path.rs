//! Resolution of a concrete attribute path.
//!
//! A device class has a root template with exactly one substitution point
//! for the device locator: the text before it and the text after it. A
//! concrete attribute path is the root with the locator substituted, then
//! a slash, then the attribute's leaf name. Substitution is plain textual
//! interpolation: no existence check and no normalization happens here,
//! and the same inputs always yield the same path.

use vstd::prelude::*;
use vstd::string::*;

use crate::num::{format_u64, spec_format_u64};

verus! {

/// One concrete device instance: a zero-based numeric index (such as a
/// frequency-scaling policy number) or a directory name (such as a power
/// supply).
pub enum DeviceLocator {
    /// A numeric instance, substituted as its minimal decimal digits.
    Index(u64),
    /// A named instance, substituted verbatim.
    Name(String),
}

/// The text a locator substitutes into a root template.
pub open spec fn locator_text(l: DeviceLocator) -> Seq<char> {
    match l {
        DeviceLocator::Index(i) => spec_format_u64(i as nat),
        DeviceLocator::Name(n) => n@,
    }
}

/// A device-class root directory with one substitution point for the
/// locator: `prefix`, then the locator's text, then `suffix`.
pub struct RootTemplate {
    /// The text before the substitution point.
    pub prefix: String,
    /// The text after the substitution point.
    pub suffix: String,
}

/// The root directory of one device instance.
pub open spec fn spec_root_path(t: &RootTemplate, l: DeviceLocator) -> Seq<char> {
    t.prefix@ + locator_text(l) + t.suffix@
}

/// The concrete path of one attribute of one device instance.
pub open spec fn spec_resolve(t: &RootTemplate, l: DeviceLocator, name: Seq<char>) -> Seq<char> {
    spec_root_path(t, l) + "/"@ + name
}

/// Builds the root directory path of one device instance.
pub fn root_path(t: &RootTemplate, l: &DeviceLocator) -> (r: String)
    ensures
        r@ == spec_root_path(t, *l),
{
    let mut s = t.prefix.clone();
    match l {
        DeviceLocator::Index(i) => {
            s.append(format_u64(*i).as_str());
        },
        DeviceLocator::Name(n) => {
            s.append(n.as_str());
        },
    }
    s.append(t.suffix.as_str());
    s
}

/// Builds the concrete path of one attribute of one device instance.
pub fn resolve(t: &RootTemplate, l: &DeviceLocator, attr_name: &str) -> (r: String)
    ensures
        r@ == spec_resolve(t, *l, attr_name@),
{
    let mut s = root_path(t, l);
    s.append("/");
    s.append(attr_name);
    s
}

/// The root template of the frequency-scaling policy class: one directory
/// per policy, named by index.
pub fn cpufreq_policy_template() -> (t: RootTemplate)
    ensures
        t.prefix@ == "/sys/devices/system/cpu/cpufreq/policy"@,
        t.suffix@ == ""@,
{
    proof {
        reveal_strlit("");
    }
    RootTemplate {
        prefix: String::from_str("/sys/devices/system/cpu/cpufreq/policy"),
        suffix: String::new(),
    }
}

/// The root template of the per-processor class: one directory per CPU,
/// named by index.
pub fn cpu_template() -> (t: RootTemplate)
    ensures
        t.prefix@ == "/sys/devices/system/cpu/cpu"@,
        t.suffix@ == ""@,
{
    proof {
        reveal_strlit("");
    }
    RootTemplate { prefix: String::from_str("/sys/devices/system/cpu/cpu"), suffix: String::new() }
}

/// The root template of the power-supply class: one directory per supply,
/// named by the supply's own directory name.
pub fn power_supply_template() -> (t: RootTemplate)
    ensures
        t.prefix@ == "/sys/class/power_supply/"@,
        t.suffix@ == ""@,
{
    proof {
        reveal_strlit("");
    }
    RootTemplate { prefix: String::from_str("/sys/class/power_supply/"), suffix: String::new() }
}

} // verus!
