//! Interpretation of one attribute file's raw content.
//!
//! The caller performs the actual file read and hands over a [`ReadOutcome`]:
//! the bytes it obtained, or the classification of the failure to obtain
//! them. Everything after that point happens here: bounding the payload to
//! [`SYSFS_MAX_ATTR_BYTES`], rejecting non-ASCII content defensively,
//! stripping exactly one trailing newline, and detecting the
//! `<unsupported>` sentinel before any codec sees the text.

use vstd::prelude::*;
use vstd::string::*;

use crate::error::SysfsError;

verus! {

/// The maximum number of bytes one attribute file may carry. Longer content
/// is truncated to this bound, never retried and never treated as an error.
pub const SYSFS_MAX_ATTR_BYTES: usize = 1024;

/// What the caller's attempt to read one attribute file produced.
pub enum ReadOutcome {
    /// The file was opened and read; these are the bytes obtained.
    Content(Vec<u8>),
    /// The file does not exist.
    Missing,
    /// Opening or reading failed for any other reason.
    Failed,
}

/// What the caller's attempt to write one attribute file produced.
pub enum WriteOutcome {
    /// The text was written.
    Done,
    /// The file does not exist (it is never created by a write).
    Missing,
    /// Opening or writing failed for any other reason.
    Failed,
}

/// The first [`SYSFS_MAX_ATTR_BYTES`] bytes of `b`.
pub open spec fn truncated(b: Seq<u8>) -> Seq<u8> {
    if b.len() <= SYSFS_MAX_ATTR_BYTES {
        b
    } else {
        b.take(SYSFS_MAX_ATTR_BYTES as int)
    }
}

/// Whether every byte of `b` is ASCII.
pub open spec fn all_bytes_ascii(b: Seq<u8>) -> bool {
    forall|i: int| 0 <= i < b.len() ==> b[i] < 128
}

/// The characters denoted by a sequence of ASCII bytes.
pub open spec fn chars_of_bytes(b: Seq<u8>) -> Seq<char> {
    Seq::new(b.len(), |i: int| b[i] as char)
}

/// `s` with exactly one trailing newline removed, if one is present.
pub open spec fn trim_one_newline(s: Seq<char>) -> Seq<char> {
    if s.len() > 0 && s.last() == '\n' {
        s.drop_last()
    } else {
        s
    }
}

/// The reserved text that marks an attribute as present but inert.
pub open spec fn unsupported_sentinel() -> Seq<char> {
    "<unsupported>"@
}

/// The trimmed text of one attribute read, or its failure classification.
///
/// In order: a missing file is [`SysfsError::MissingAttribute`]; any other
/// I/O failure is [`SysfsError::Io`]; content is bounded to
/// [`SYSFS_MAX_ATTR_BYTES`] bytes; non-ASCII content is
/// [`SysfsError::DecodeFailure`]; one trailing newline is stripped; text
/// equal to the sentinel is [`SysfsError::UnsupportedAttribute`].
pub open spec fn spec_attr_text(raw: ReadOutcome) -> Result<Seq<char>, SysfsError> {
    match raw {
        ReadOutcome::Missing => Err(SysfsError::MissingAttribute),
        ReadOutcome::Failed => Err(SysfsError::Io),
        ReadOutcome::Content(bytes) => {
            let t = truncated(bytes@);
            if !all_bytes_ascii(t) {
                Err(SysfsError::DecodeFailure)
            } else {
                let s = trim_one_newline(chars_of_bytes(t));
                if s == unsupported_sentinel() {
                    Err(SysfsError::UnsupportedAttribute)
                } else {
                    Ok(s)
                }
            }
        },
    }
}

/// A text result with the string replaced by its character sequence.
pub open spec fn view_text_result(r: Result<String, SysfsError>) -> Result<
    Seq<char>,
    SysfsError,
> {
    match r {
        Ok(s) => Ok(s@),
        Err(e) => Err(e),
    }
}

/// Whether two string slices hold the same characters.
pub fn str_eq(a: &str, b: &str) -> (r: bool)
    ensures
        r == (a@ == b@),
{
    let alen: usize = a.unicode_len();
    let blen: usize = b.unicode_len();
    if alen != blen {
        return false;
    }
    let mut i: usize = 0;
    while i < alen
        invariant
            0 <= i <= alen,
            alen == a@.len(),
            alen == b@.len(),
            forall|j: int| 0 <= j < i ==> a@[j] == b@[j],
        decreases alen - i,
    {
        if a.get_char(i) != b.get_char(i) {
            return false;
        }
        i += 1;
    }
    proof {
        assert(a@ =~= b@);
    }
    true
}

/// Whether every byte of `v` is ASCII.
pub fn bytes_all_ascii(v: &Vec<u8>) -> (r: bool)
    ensures
        r == all_bytes_ascii(v@),
{
    let n: usize = v.len();
    let mut i: usize = 0;
    while i < n
        invariant
            0 <= i <= n,
            n == v@.len(),
            forall|j: int| 0 <= j < i ==> v@[j] < 128,
        decreases n - i,
    {
        if v[i] >= 128 {
            assert(!all_bytes_ascii(v@));
            return false;
        }
        i += 1;
    }
    true
}

/// Relies on `String::from_utf8`: bytes below 128 are ASCII, hence valid
/// UTF-8, and decode to the characters with the same code points.
#[verifier::external_body]
fn ascii_bytes_to_string(bytes: Vec<u8>) -> (r: String)
    requires
        all_bytes_ascii(bytes@),
    ensures
        r@ == chars_of_bytes(bytes@),
{
    String::from_utf8(bytes).unwrap_or_default()
}

/// Removes exactly one trailing newline from `s`, if one is present.
pub fn strip_newline(s: String) -> (r: String)
    ensures
        r@ == trim_one_newline(s@),
{
    let len: usize = s.as_str().unicode_len();
    if len > 0 && s.as_str().get_char(len - 1) == '\n' {
        let t = s.as_str().substring_char(0, len - 1);
        proof {
            assert(t@ =~= s@.drop_last());
        }
        t.to_owned()
    } else {
        s
    }
}

/// Turns the raw outcome of one attribute read into its trimmed text, with
/// the failure classification of [`spec_attr_text`].
pub fn attr_text(raw: ReadOutcome) -> (r: Result<String, SysfsError>)
    ensures
        view_text_result(r) == spec_attr_text(raw),
{
    match raw {
        ReadOutcome::Missing => Err(SysfsError::MissingAttribute),
        ReadOutcome::Failed => Err(SysfsError::Io),
        ReadOutcome::Content(bytes) => {
            let ghost original = bytes@;
            let mut bytes = bytes;
            bytes.truncate(SYSFS_MAX_ATTR_BYTES);
            proof {
                assert(bytes@ =~= truncated(original));
            }
            if !bytes_all_ascii(&bytes) {
                return Err(SysfsError::DecodeFailure);
            }
            let s = ascii_bytes_to_string(bytes);
            let t = strip_newline(s);
            if str_eq(t.as_str(), "<unsupported>") {
                Err(SysfsError::UnsupportedAttribute)
            } else {
                Ok(t)
            }
        },
    }
}

/// The result of one attribute write, classified as the reader classifies:
/// a missing file is [`SysfsError::MissingAttribute`], any other failure is
/// [`SysfsError::Io`].
pub open spec fn spec_write_result(o: WriteOutcome) -> Result<(), SysfsError> {
    match o {
        WriteOutcome::Done => Ok(()),
        WriteOutcome::Missing => Err(SysfsError::MissingAttribute),
        WriteOutcome::Failed => Err(SysfsError::Io),
    }
}

/// Classifies the raw outcome of one attribute write.
pub fn classify_write(o: WriteOutcome) -> (r: Result<(), SysfsError>)
    ensures
        r == spec_write_result(o),
{
    match o {
        WriteOutcome::Done => Ok(()),
        WriteOutcome::Missing => Err(SysfsError::MissingAttribute),
        WriteOutcome::Failed => Err(SysfsError::Io),
    }
}

} // verus!
