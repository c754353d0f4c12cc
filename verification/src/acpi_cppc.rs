//! Typed attributes of the ACPI collaborative processor performance
//! control interface.
//!
//! One `acpi_cppc` directory per processor under the per-CPU root. The
//! caller resolves paths with [`crate::path::cpu_template`] and performs
//! the I/O. All of these attributes are read-only.

use vstd::prelude::*;

use crate::error::SysfsError;
use crate::reader::{read_u64_attr, spec_read_u64};
use crate::text::ReadOutcome;

verus! {

/// The highest performance of this processor, on the abstract scale.
pub fn highest_perf(raw: ReadOutcome) -> (r: Result<u64, SysfsError>)
    ensures
        r == spec_read_u64(raw),
{
    read_u64_attr(raw)
}

/// The highest sustained performance of this processor, on the abstract
/// scale.
pub fn nominal_perf(raw: ReadOutcome) -> (r: Result<u64, SysfsError>)
    ensures
        r == spec_read_u64(raw),
{
    read_u64_attr(raw)
}

/// The lowest performance with nonlinear power savings, on the abstract
/// scale.
pub fn lowest_nonlinear_perf(raw: ReadOutcome) -> (r: Result<u64, SysfsError>)
    ensures
        r == spec_read_u64(raw),
{
    read_u64_attr(raw)
}

/// The lowest performance of this processor, on the abstract scale.
pub fn lowest_perf(raw: ReadOutcome) -> (r: Result<u64, SysfsError>)
    ensures
        r == spec_read_u64(raw),
{
    read_u64_attr(raw)
}

/// The frequency corresponding to the lowest performance, in megahertz.
pub fn lowest_freq(raw: ReadOutcome) -> (r: Result<u64, SysfsError>)
    ensures
        r == spec_read_u64(raw),
{
    read_u64_attr(raw)
}

/// The frequency corresponding to the nominal performance, in
/// megahertz.
pub fn nominal_freq(raw: ReadOutcome) -> (r: Result<u64, SysfsError>)
    ensures
        r == spec_read_u64(raw),
{
    read_u64_attr(raw)
}

/// The reference and delivered performance counters.
pub fn feedback_ctrs(raw: ReadOutcome) -> (r: Result<u64, SysfsError>)
    ensures
        r == spec_read_u64(raw),
{
    read_u64_attr(raw)
}

/// The minimum time for the feedback counters to wrap around, in
/// seconds.
pub fn wraparound_time(raw: ReadOutcome) -> (r: Result<u64, SysfsError>)
    ensures
        r == spec_read_u64(raw),
{
    read_u64_attr(raw)
}

/// The performance level at which the reference counter accumulates, on
/// the abstract scale.
pub fn reference_perf(raw: ReadOutcome) -> (r: Result<u64, SysfsError>)
    ensures
        r == spec_read_u64(raw),
{
    read_u64_attr(raw)
}

} // verus!
