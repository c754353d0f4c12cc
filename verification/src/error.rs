//! The failure taxonomy of one attribute access.

use vstd::prelude::*;

verus! {

/// What went wrong while reading or writing one attribute.
///
/// None of these is retried automatically; every failure is returned to the
/// caller as a typed result, never raised, and never coerced to a default.
#[derive(Clone, Copy, Debug, PartialEq, Eq, Structural)]
pub enum SysfsError {
    /// The attribute's file does not exist for this device instance.
    ///
    /// The kernel's convention is that absence of the file means the
    /// feature is unsupported by this driver or hardware.
    MissingAttribute,
    /// The file exists and returned the `<unsupported>` sentinel: the
    /// attribute is recognized by the driver but inert on this platform.
    /// Distinct from [`SysfsError::MissingAttribute`].
    UnsupportedAttribute,
    /// The file's content, after trimming and sentinel checking, could not
    /// be converted to the attribute's declared type.
    DecodeFailure,
    /// Any other failure opening, reading, or writing the path
    /// (permission denied, transient I/O error, and the like).
    Io,
}

impl SysfsError {
    /// A short description of the error kind, for presentation.
    pub fn message(&self) -> (r: &'static str)
        ensures
            *self == SysfsError::MissingAttribute ==> r@ == "the requested sysfs attribute does not exist"@,
            *self == SysfsError::UnsupportedAttribute ==> r@ == "the requested sysfs attribute is not supported on this platform"@,
            *self == SysfsError::DecodeFailure ==> r@ == "the sysfs attribute's content could not be decoded"@,
            *self == SysfsError::Io ==> r@ == "encountered IO error"@,
    {
        match self {
            SysfsError::MissingAttribute => "the requested sysfs attribute does not exist",
            SysfsError::UnsupportedAttribute => "the requested sysfs attribute is not supported on this platform",
            SysfsError::DecodeFailure => "the sysfs attribute's content could not be decoded",
            SysfsError::Io => "encountered IO error",
        }
    }
}

} // verus!
