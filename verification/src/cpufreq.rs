//! Typed attributes of the frequency-scaling policy class.
//!
//! One directory per policy under the class root, named `policy`
//! followed by the policy's index. Each function here interprets the raw
//! outcome of reading one attribute file, or encodes a value for writing
//! one; the caller resolves the path with
//! [`crate::path::cpufreq_policy_template`] and performs the I/O.

use vstd::prelude::*;
use vstd::string::*;

use crate::error::SysfsError;
use crate::num::{format_u64, spec_format_u64};
use crate::reader::{
    read_i64_attr, read_text_attr, read_text_list_attr, read_u64_attr, read_u64_list_attr,
    spec_read_i64, spec_read_text, spec_read_text_list, spec_read_u64, spec_read_u64_list,
    view_text_list_result, view_u64_list_result,
};
use crate::text::{view_text_result, ReadOutcome};

verus! {

/// The list of online CPUs belonging to this policy. Read-only.
pub fn affected_cpus(raw: ReadOutcome) -> (r: Result<Vec<u64>, SysfsError>)
    ensures
        view_u64_list_result(r) == spec_read_u64_list(raw),
{
    read_u64_list_attr(raw)
}

/// The upper frequency limit the platform firmware reports, in
/// kilohertz, when one is imposed. Read-only.
pub fn bios_limit(raw: ReadOutcome) -> (r: Result<u64, SysfsError>)
    ensures
        r == spec_read_u64(raw),
{
    read_u64_attr(raw)
}

/// The current frequency obtained from the hardware, in kilohertz.
/// Read-only.
pub fn cpuinfo_cur_freq(raw: ReadOutcome) -> (r: Result<u64, SysfsError>)
    ensures
        r == spec_read_u64(raw),
{
    read_u64_attr(raw)
}

/// The maximum possible operating frequency, in kilohertz. Read-only.
pub fn cpuinfo_max_freq(raw: ReadOutcome) -> (r: Result<u64, SysfsError>)
    ensures
        r == spec_read_u64(raw),
{
    read_u64_attr(raw)
}

/// The minimum possible operating frequency, in kilohertz. Read-only.
pub fn cpuinfo_min_freq(raw: ReadOutcome) -> (r: Result<u64, SysfsError>)
    ensures
        r == spec_read_u64(raw),
{
    read_u64_attr(raw)
}

/// The time to switch between performance states, in nanoseconds; -1
/// when unknown or too high. Read-only.
pub fn cpuinfo_transition_latency(raw: ReadOutcome) -> (r: Result<i64, SysfsError>)
    ensures
        r == spec_read_i64(raw),
{
    read_i64_attr(raw)
}

/// The list of all CPUs belonging to this policy, online and offline.
/// Read-only.
pub fn related_cpus(raw: ReadOutcome) -> (r: Result<Vec<u64>, SysfsError>)
    ensures
        view_u64_list_result(r) == spec_read_u64_list(raw),
{
    read_u64_list_attr(raw)
}

/// The list of scaling governors or driver-provided algorithms that can
/// be attached to this policy. Read-only.
pub fn scaling_available_governors(raw: ReadOutcome) -> (r: Result<Vec<String>, SysfsError>)
    ensures
        view_text_list_result(r) == spec_read_text_list(raw),
{
    read_text_list_attr(raw)
}

/// The last frequency the scaling driver requested, in kilohertz.
/// Read-only.
pub fn scaling_cur_freq(raw: ReadOutcome) -> (r: Result<u64, SysfsError>)
    ensures
        r == spec_read_u64(raw),
{
    read_u64_attr(raw)
}

/// The scaling driver currently in use. Read-only.
pub fn scaling_driver(raw: ReadOutcome) -> (r: Result<String, SysfsError>)
    ensures
        view_text_result(r) == spec_read_text(raw),
{
    read_text_attr(raw)
}

/// The scaling governor currently attached to this policy. Writable.
pub fn scaling_governor(raw: ReadOutcome) -> (r: Result<String, SysfsError>)
    ensures
        view_text_result(r) == spec_read_text(raw),
{
    read_text_attr(raw)
}

/// Encodes a governor name for writing the scaling governor.
pub fn set_scaling_governor(governor: &str) -> (r: String)
    ensures
        r@ == governor@,
{
    governor.to_owned()
}

/// The maximum frequency this policy's CPUs may run at, in kilohertz.
/// Writable.
pub fn scaling_max_freq(raw: ReadOutcome) -> (r: Result<u64, SysfsError>)
    ensures
        r == spec_read_u64(raw),
{
    read_u64_attr(raw)
}

/// Encodes a value for writing the maximum scaling frequency, in
/// kilohertz.
pub fn set_scaling_max_freq(freq: u64) -> (r: String)
    ensures
        r@ == spec_format_u64(freq as nat),
{
    format_u64(freq)
}

/// The minimum frequency this policy's CPUs may run at, in kilohertz.
/// Writable.
pub fn scaling_min_freq(raw: ReadOutcome) -> (r: Result<u64, SysfsError>)
    ensures
        r == spec_read_u64(raw),
{
    read_u64_attr(raw)
}

/// Encodes a value for writing the minimum scaling frequency, in
/// kilohertz.
pub fn set_scaling_min_freq(freq: u64) -> (r: String)
    ensures
        r@ == spec_format_u64(freq as nat),
{
    format_u64(freq)
}

/// The last frequency the userspace governor requested, in kilohertz.
/// Writable while the userspace governor is attached.
pub fn scaling_setspeed(raw: ReadOutcome) -> (r: Result<u64, SysfsError>)
    ensures
        r == spec_read_u64(raw),
{
    read_u64_attr(raw)
}

/// Encodes a value for writing the userspace governor's frequency, in
/// kilohertz.
pub fn set_scaling_setspeed(freq: u64) -> (r: String)
    ensures
        r@ == spec_format_u64(freq as nat),
{
    format_u64(freq)
}

} // verus!
