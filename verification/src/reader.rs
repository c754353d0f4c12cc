//! Typed interpretation of one attribute read, per value kind.
//!
//! Each function takes the raw outcome of reading one attribute file and
//! yields the typed value of one kind, with the uniform failure
//! classification of [`crate::text::spec_attr_text`]: a missing file, an
//! I/O failure and the `<unsupported>` sentinel are reported before any
//! codec runs, and content the codec rejects is a
//! [`SysfsError::DecodeFailure`].

use vstd::prelude::*;

use crate::codec::{
    parse_bool, parse_percent, parse_u64_list, spec_parse_bool, spec_parse_percent,
    spec_parse_u64_list, split_char, split_str,
};
use crate::error::SysfsError;
use crate::num::{parse_i64, parse_u64, spec_parse_i64, spec_parse_u64};
use crate::text::{attr_text, spec_attr_text, view_text_result, ReadOutcome};

verus! {

/// The typed result of reading a plain-text attribute.
pub open spec fn spec_read_text(raw: ReadOutcome) -> Result<Seq<char>, SysfsError> {
    spec_attr_text(raw)
}

/// The typed result of reading an unsigned-integer attribute.
pub open spec fn spec_read_u64(raw: ReadOutcome) -> Result<u64, SysfsError> {
    match spec_attr_text(raw) {
        Err(e) => Err(e),
        Ok(t) => match spec_parse_u64(t) {
            Some(v) => Ok(v),
            None => Err(SysfsError::DecodeFailure),
        },
    }
}

/// The typed result of reading a signed-integer attribute.
pub open spec fn spec_read_i64(raw: ReadOutcome) -> Result<i64, SysfsError> {
    match spec_attr_text(raw) {
        Err(e) => Err(e),
        Ok(t) => match spec_parse_i64(t) {
            Some(v) => Ok(v),
            None => Err(SysfsError::DecodeFailure),
        },
    }
}

/// The typed result of reading a boolean attribute.
pub open spec fn spec_read_bool(raw: ReadOutcome) -> Result<bool, SysfsError> {
    match spec_attr_text(raw) {
        Err(e) => Err(e),
        Ok(t) => match spec_parse_bool(t) {
            Some(v) => Ok(v),
            None => Err(SysfsError::DecodeFailure),
        },
    }
}

/// The typed result of reading a percentage attribute, in hundredths.
pub open spec fn spec_read_percent(raw: ReadOutcome) -> Result<u8, SysfsError> {
    match spec_attr_text(raw) {
        Err(e) => Err(e),
        Ok(t) => match spec_parse_percent(t) {
            Some(v) => Ok(v),
            None => Err(SysfsError::DecodeFailure),
        },
    }
}

/// The typed result of reading a space-separated unsigned-integer list.
pub open spec fn spec_read_u64_list(raw: ReadOutcome) -> Result<Seq<u64>, SysfsError> {
    match spec_attr_text(raw) {
        Err(e) => Err(e),
        Ok(t) => match spec_parse_u64_list(t) {
            Some(v) => Ok(v),
            None => Err(SysfsError::DecodeFailure),
        },
    }
}

/// The typed result of reading a space-separated text list.
pub open spec fn spec_read_text_list(raw: ReadOutcome) -> Result<Seq<Seq<char>>, SysfsError> {
    match spec_attr_text(raw) {
        Err(e) => Err(e),
        Ok(t) => Ok(split_char(t, ' ')),
    }
}

/// A list result with each string replaced by its character sequence.
pub open spec fn view_text_list_result(r: Result<Vec<String>, SysfsError>) -> Result<
    Seq<Seq<char>>,
    SysfsError,
> {
    match r {
        Ok(v) => Ok(v.deep_view()),
        Err(e) => Err(e),
    }
}

/// A list result with the vector replaced by its element sequence.
pub open spec fn view_u64_list_result(r: Result<Vec<u64>, SysfsError>) -> Result<
    Seq<u64>,
    SysfsError,
> {
    match r {
        Ok(v) => Ok(v@),
        Err(e) => Err(e),
    }
}

/// Reads a plain-text attribute.
pub fn read_text_attr(raw: ReadOutcome) -> (r: Result<String, SysfsError>)
    ensures
        view_text_result(r) == spec_read_text(raw),
{
    attr_text(raw)
}

/// Reads an unsigned-integer attribute.
pub fn read_u64_attr(raw: ReadOutcome) -> (r: Result<u64, SysfsError>)
    ensures
        r == spec_read_u64(raw),
{
    match attr_text(raw) {
        Err(e) => Err(e),
        Ok(t) => match parse_u64(t.as_str()) {
            Some(v) => Ok(v),
            None => Err(SysfsError::DecodeFailure),
        },
    }
}

/// Reads a signed-integer attribute.
pub fn read_i64_attr(raw: ReadOutcome) -> (r: Result<i64, SysfsError>)
    ensures
        r == spec_read_i64(raw),
{
    match attr_text(raw) {
        Err(e) => Err(e),
        Ok(t) => match parse_i64(t.as_str()) {
            Some(v) => Ok(v),
            None => Err(SysfsError::DecodeFailure),
        },
    }
}

/// Reads a boolean attribute.
pub fn read_bool_attr(raw: ReadOutcome) -> (r: Result<bool, SysfsError>)
    ensures
        r == spec_read_bool(raw),
{
    match attr_text(raw) {
        Err(e) => Err(e),
        Ok(t) => match parse_bool(t.as_str()) {
            Some(v) => Ok(v),
            None => Err(SysfsError::DecodeFailure),
        },
    }
}

/// Reads a percentage attribute, in hundredths.
pub fn read_percent_attr(raw: ReadOutcome) -> (r: Result<u8, SysfsError>)
    ensures
        r == spec_read_percent(raw),
{
    match attr_text(raw) {
        Err(e) => Err(e),
        Ok(t) => match parse_percent(t.as_str()) {
            Some(v) => Ok(v),
            None => Err(SysfsError::DecodeFailure),
        },
    }
}

/// Reads a space-separated unsigned-integer list attribute.
pub fn read_u64_list_attr(raw: ReadOutcome) -> (r: Result<Vec<u64>, SysfsError>)
    ensures
        view_u64_list_result(r) == spec_read_u64_list(raw),
{
    match attr_text(raw) {
        Err(e) => Err(e),
        Ok(t) => match parse_u64_list(t.as_str()) {
            Some(v) => Ok(v),
            None => Err(SysfsError::DecodeFailure),
        },
    }
}

/// Reads a space-separated text list attribute.
pub fn read_text_list_attr(raw: ReadOutcome) -> (r: Result<Vec<String>, SysfsError>)
    ensures
        view_text_list_result(r) == spec_read_text_list(raw),
{
    match attr_text(raw) {
        Err(e) => Err(e),
        Ok(t) => Ok(split_str(t.as_str(), ' ')),
    }
}

} // verus!
