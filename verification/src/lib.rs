//! Typed access to a path-addressed, textual attribute interface.
//!
//! The kernel exposes scalar and list-valued configuration values as small
//! text files in fixed directory trees (a pseudo-filesystem such as sysfs).
//! This crate holds the logic of that access layer: converting between a
//! file's text and a typed value, resolving attribute paths, classifying
//! failures, and discovering device instances by directory-name pattern.
//! The file and directory I/O itself stays outside; callers hand the raw
//! outcome of a read to this crate and receive a typed result.

pub mod acpi_cppc;
pub mod amd_pstate;
pub mod catalog;
pub mod codec;
pub mod cpufreq;
pub mod enumerate;
pub mod error;
pub mod laws;
pub mod num;
pub mod path;
pub mod psu;
pub mod reader;
pub mod text;

pub use error::SysfsError;
