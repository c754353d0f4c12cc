//! The stated laws of the attribute access layer.
//!
//! Each proof function here is a property of the library as a whole,
//! stated over the same specification functions its contracts use:
//! codecs invert each other on in-range values, the `<unsupported>`
//! sentinel takes precedence over every codec, a missing file and the
//! sentinel are never conflated, and only the bounded prefix of a file's
//! content ever matters.

use vstd::prelude::*;

use crate::catalog::{spec_decode, spec_encode, spec_label_index, spec_read_value, lemma_label_index, SpecValue, ValueKind};
use crate::error::SysfsError;
use crate::num::{lemma_i64_round_trip, lemma_u64_round_trip};
use crate::text::{
    all_bytes_ascii, chars_of_bytes, spec_attr_text, trim_one_newline, truncated,
    unsupported_sentinel, ReadOutcome,
};

verus! {

/// Whether `v` is an in-range value of `kind`, accepted by the kind's
/// codec: a percentage must not exceed one hundred hundredths, and an
/// enumerated value must index a label that no earlier label repeats.
/// List kinds have no encoder (no list-typed attribute is writable).
pub open spec fn in_range(kind: &ValueKind, v: SpecValue) -> bool {
    match (kind, v) {
        (ValueKind::Text, SpecValue::Text(_)) => true,
        (ValueKind::UnsignedInt, SpecValue::Unsigned(_)) => true,
        (ValueKind::SignedInt, SpecValue::Signed(_)) => true,
        (ValueKind::Percentage, SpecValue::Percent(p)) => p <= 100,
        (ValueKind::Boolean, SpecValue::Boolean(_)) => true,
        (ValueKind::EnumString(labels), SpecValue::Choice(i)) => {
            &&& 0 <= i < labels.deep_view().len()
            &&& forall|j: int|
                0 <= j < i ==> labels.deep_view()[j] != labels.deep_view()[i]
        },
        _ => false,
    }
}

/// Round trip for writable attributes: for any in-range value accepted
/// by an attribute's codec, decoding the encoded text gives back exactly
/// that value.
pub proof fn lemma_codec_round_trip(kind: &ValueKind, v: SpecValue)
    requires
        in_range(kind, v),
    ensures
        spec_encode(kind, v) is Some,
        spec_decode(kind, spec_encode(kind, v).unwrap()) == Some(v),
{
    match (kind, v) {
        (ValueKind::Text, SpecValue::Text(_)) => {},
        (ValueKind::UnsignedInt, SpecValue::Unsigned(n)) => {
            lemma_u64_round_trip(n);
        },
        (ValueKind::SignedInt, SpecValue::Signed(n)) => {
            lemma_i64_round_trip(n);
        },
        (ValueKind::Percentage, SpecValue::Percent(p)) => {
            lemma_u64_round_trip(p as u64);
        },
        (ValueKind::Boolean, SpecValue::Boolean(b)) => {
            reveal_strlit("0");
            reveal_strlit("1");
            assert("0"@ != "1"@);
        },
        (ValueKind::EnumString(labels), SpecValue::Choice(i)) => {
            let dv = labels.deep_view();
            lemma_label_index(dv, dv[i]);
            match spec_label_index(dv, dv[i]) {
                Some(k) => {
                    assert(k == i);
                },
                None => {
                    assert(false);
                },
            }
        },
        _ => {
            assert(false);
        },
    }
}

/// Sentinel precedence: a file whose trimmed content is exactly the
/// `<unsupported>` sentinel yields `UnsupportedAttribute` for every
/// declared kind, even for a kind whose codec would accept that text.
pub proof fn lemma_sentinel_precedence(kind: &ValueKind, bytes: Vec<u8>)
    requires
        all_bytes_ascii(truncated(bytes@)),
        trim_one_newline(chars_of_bytes(truncated(bytes@))) == unsupported_sentinel(),
    ensures
        spec_read_value(kind, ReadOutcome::Content(bytes)) == Err::<SpecValue, SysfsError>(
            SysfsError::UnsupportedAttribute,
        ),
{
}

/// Missing and unsupported are never conflated: a file that does not
/// exist yields `MissingAttribute`, a file holding the sentinel yields
/// `UnsupportedAttribute`, and the two error kinds differ.
pub proof fn lemma_missing_vs_unsupported(kind: &ValueKind, bytes: Vec<u8>)
    requires
        all_bytes_ascii(truncated(bytes@)),
        trim_one_newline(chars_of_bytes(truncated(bytes@))) == unsupported_sentinel(),
    ensures
        spec_read_value(kind, ReadOutcome::Missing) == Err::<SpecValue, SysfsError>(
            SysfsError::MissingAttribute,
        ),
        spec_read_value(kind, ReadOutcome::Content(bytes)) == Err::<SpecValue, SysfsError>(
            SysfsError::UnsupportedAttribute,
        ),
        SysfsError::MissingAttribute != SysfsError::UnsupportedAttribute,
{
}

/// Bounded read: only the first [`crate::text::SYSFS_MAX_ATTR_BYTES`]
/// bytes of a file's content determine the outcome of a read. Content
/// beyond the bound is truncated, never an error.
pub proof fn lemma_bounded_read(kind: &ValueKind, b1: Vec<u8>, b2: Vec<u8>)
    requires
        truncated(b1@) == truncated(b2@),
    ensures
        spec_attr_text(ReadOutcome::Content(b1)) == spec_attr_text(ReadOutcome::Content(b2)),
        spec_read_value(kind, ReadOutcome::Content(b1)) == spec_read_value(
            kind,
            ReadOutcome::Content(b2),
        ),
{
}

} // verus!
