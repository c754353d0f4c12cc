//! Typed attributes of the AMD P-state feature of a scaling policy.
//!
//! These attribute files live in the same per-policy directories as the
//! frequency-scaling attributes and exist only when the platform enables
//! the feature. The caller resolves paths with
//! [`crate::path::cpufreq_policy_template`] and performs the I/O.

use vstd::prelude::*;

use crate::error::SysfsError;
use crate::reader::{
    read_text_attr, read_text_list_attr, read_u64_attr, spec_read_text, spec_read_text_list,
    spec_read_u64, view_text_list_result,
};
use crate::text::{view_text_result, ReadOutcome};

verus! {

/// The highest performance level the driver may set, in percent of the
/// maximum supported level. Read-only.
pub fn amd_pstate_highest_perf(raw: ReadOutcome) -> (r: Result<u64, SysfsError>)
    ensures
        r == spec_read_u64(raw),
{
    read_u64_attr(raw)
}

/// The maximum frequency the driver may set, in kilohertz. Read-only.
pub fn amd_pstate_max_freq(raw: ReadOutcome) -> (r: Result<u64, SysfsError>)
    ensures
        r == spec_read_u64(raw),
{
    read_u64_attr(raw)
}

/// The lowest frequency without nonlinear power savings, in kilohertz.
/// Read-only.
pub fn amd_pstate_lowest_nonlinear_freq(raw: ReadOutcome) -> (r: Result<u64, SysfsError>)
    ensures
        r == spec_read_u64(raw),
{
    read_u64_attr(raw)
}

/// The list of supported energy-performance preferences. Read-only.
pub fn energy_performance_available_preferences(raw: ReadOutcome) -> (r: Result<
    Vec<String>,
    SysfsError,
>)
    ensures
        view_text_list_result(r) == spec_read_text_list(raw),
{
    read_text_list_attr(raw)
}

/// The current energy-performance preference. Writable.
pub fn energy_performance_preference(raw: ReadOutcome) -> (r: Result<String, SysfsError>)
    ensures
        view_text_result(r) == spec_read_text(raw),
{
    read_text_attr(raw)
}

/// Encodes a preference name for writing the energy-performance
/// preference.
pub fn set_energy_performance_preference(preference: &str) -> (r: String)
    ensures
        r@ == preference@,
{
    preference.to_owned()
}

} // verus!
