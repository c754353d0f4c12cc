//! The kind-driven value codec and the runtime attribute descriptor.
//!
//! An [`AttributeSpec`] describes one attribute: its leaf file name, its
//! value kind and whether it may be written. The kind fully determines
//! both decode and encode behavior; there is exactly one codec per kind.
//! A catalog of attributes is plain data built from these descriptors and
//! dispatched through [`read_attribute`] and [`encode_for_write`].

use vstd::prelude::*;
use vstd::string::*;

use crate::codec::{
    format_bool, parse_bool, parse_percent, parse_u64_list, spec_format_bool, spec_parse_bool,
    spec_parse_percent, spec_parse_u64_list, split_char, split_str,
};
use crate::error::SysfsError;
use crate::num::{
    format_i64, format_u64, parse_i64, parse_u64, spec_format_i64, spec_format_u64, spec_parse_i64,
    spec_parse_u64,
};
use crate::text::{attr_text, spec_attr_text, str_eq, ReadOutcome};

verus! {

/// The value kind of one attribute; one codec exists per kind.
pub enum ValueKind {
    /// The trimmed text itself.
    Text,
    /// A strict base-10 unsigned integer.
    UnsignedInt,
    /// A strict base-10 signed integer.
    SignedInt,
    /// An integer count of hundredths between 0 and 100; the logical
    /// value is the count divided by one hundred.
    Percentage,
    /// The literal `1` or `0`.
    Boolean,
    /// One of a fixed list of labels; the decoded value is the index of
    /// the first matching label.
    EnumString(Vec<String>),
    /// Space-separated unsigned integers.
    ListUnsignedInt,
    /// Space-separated text tokens.
    ListText,
}

/// One typed attribute value.
pub enum AttrValue {
    /// The value of a [`ValueKind::Text`] attribute.
    Text(String),
    /// The value of a [`ValueKind::UnsignedInt`] attribute.
    Unsigned(u64),
    /// The value of a [`ValueKind::SignedInt`] attribute.
    Signed(i64),
    /// The value of a [`ValueKind::Percentage`] attribute, in hundredths.
    Percent(u8),
    /// The value of a [`ValueKind::Boolean`] attribute.
    Boolean(bool),
    /// The value of a [`ValueKind::EnumString`] attribute: an index into
    /// the kind's label list.
    Choice(usize),
    /// The value of a [`ValueKind::ListUnsignedInt`] attribute.
    UnsignedList(Vec<u64>),
    /// The value of a [`ValueKind::ListText`] attribute.
    TextList(Vec<String>),
}

/// A typed attribute value over mathematical types.
pub enum SpecValue {
    /// The text of a plain-text value.
    Text(Seq<char>),
    /// An unsigned integer value.
    Unsigned(u64),
    /// A signed integer value.
    Signed(i64),
    /// A percentage value, in hundredths.
    Percent(u8),
    /// An enumerated value: an index into the kind's label list.
    Choice(int),
    /// A boolean value.
    Boolean(bool),
    /// An unsigned integer list value.
    UnsignedList(Seq<u64>),
    /// A text list value.
    TextList(Seq<Seq<char>>),
}

/// The mathematical value of one typed attribute value.
pub open spec fn view_attr_value(v: AttrValue) -> SpecValue {
    match v {
        AttrValue::Text(s) => SpecValue::Text(s@),
        AttrValue::Unsigned(n) => SpecValue::Unsigned(n),
        AttrValue::Signed(n) => SpecValue::Signed(n),
        AttrValue::Percent(p) => SpecValue::Percent(p),
        AttrValue::Boolean(b) => SpecValue::Boolean(b),
        AttrValue::Choice(i) => SpecValue::Choice(i as int),
        AttrValue::UnsignedList(v) => SpecValue::UnsignedList(v@),
        AttrValue::TextList(v) => SpecValue::TextList(v.deep_view()),
    }
}

/// The index of the first label equal to `text`.
pub open spec fn spec_label_index(labels: Seq<Seq<char>>, text: Seq<char>) -> Option<int>
    decreases labels.len(),
{
    if labels.len() == 0 {
        None
    } else if labels[0] == text {
        Some(0)
    } else {
        match spec_label_index(labels.drop_first(), text) {
            Some(i) => Some(i + 1),
            None => None,
        }
    }
}

/// What [`spec_label_index`] finds is the first match, and a miss means
/// no label matches.
pub proof fn lemma_label_index(labels: Seq<Seq<char>>, text: Seq<char>)
    ensures
        match spec_label_index(labels, text) {
            Some(i) => 0 <= i < labels.len() && labels[i] == text && (forall|j: int|
                0 <= j < i ==> labels[j] != text),
            None => forall|j: int| 0 <= j < labels.len() ==> labels[j] != text,
        },
    decreases labels.len(),
{
    if labels.len() > 0 && labels[0] != text {
        lemma_label_index(labels.drop_first(), text);
        assert(forall|j: int| 0 < j < labels.len() ==> labels[j] == labels.drop_first()[j - 1]);
    }
}

/// Finds the first label equal to `text`.
pub fn label_index(labels: &Vec<String>, text: &str) -> (r: Option<usize>)
    ensures
        match r {
            Some(i) => spec_label_index(labels.deep_view(), text@) == Some(i as int),
            None => spec_label_index(labels.deep_view(), text@) is None,
        },
{
    let n: usize = labels.len();
    let mut i: usize = 0;
    while i < n
        invariant
            0 <= i <= n,
            n == labels@.len(),
            forall|j: int| 0 <= j < i ==> labels.deep_view()[j] != text@,
        decreases n - i,
    {
        if str_eq(labels[i].as_str(), text) {
            proof {
                assert(labels.deep_view()[i as int] == text@);
                lemma_label_index(labels.deep_view(), text@);
            }
            return Some(i);
        }
        i += 1;
    }
    proof {
        lemma_label_index(labels.deep_view(), text@);
    }
    None
}

/// The result of decoding trimmed text as a value of one kind.
pub open spec fn spec_decode(kind: &ValueKind, text: Seq<char>) -> Option<SpecValue> {
    match kind {
        ValueKind::Text => Some(SpecValue::Text(text)),
        ValueKind::UnsignedInt => match spec_parse_u64(text) {
            Some(v) => Some(SpecValue::Unsigned(v)),
            None => None,
        },
        ValueKind::SignedInt => match spec_parse_i64(text) {
            Some(v) => Some(SpecValue::Signed(v)),
            None => None,
        },
        ValueKind::Percentage => match spec_parse_percent(text) {
            Some(p) => Some(SpecValue::Percent(p)),
            None => None,
        },
        ValueKind::Boolean => match spec_parse_bool(text) {
            Some(b) => Some(SpecValue::Boolean(b)),
            None => None,
        },
        ValueKind::EnumString(labels) => match spec_label_index(labels.deep_view(), text) {
            Some(i) => Some(SpecValue::Choice(i)),
            None => None,
        },
        ValueKind::ListUnsignedInt => match spec_parse_u64_list(text) {
            Some(v) => Some(SpecValue::UnsignedList(v)),
            None => None,
        },
        ValueKind::ListText => Some(SpecValue::TextList(split_char(text, ' '))),
    }
}

/// Decodes trimmed attribute text as a value of one kind.
pub fn decode_value(kind: &ValueKind, text: &str) -> (r: Option<AttrValue>)
    ensures
        match r {
            Some(v) => spec_decode(kind, text@) == Some(view_attr_value(v)),
            None => spec_decode(kind, text@) is None,
        },
{
    match kind {
        ValueKind::Text => Some(AttrValue::Text(text.to_owned())),
        ValueKind::UnsignedInt => match parse_u64(text) {
            Some(v) => Some(AttrValue::Unsigned(v)),
            None => None,
        },
        ValueKind::SignedInt => match parse_i64(text) {
            Some(v) => Some(AttrValue::Signed(v)),
            None => None,
        },
        ValueKind::Percentage => match parse_percent(text) {
            Some(p) => Some(AttrValue::Percent(p)),
            None => None,
        },
        ValueKind::Boolean => match parse_bool(text) {
            Some(b) => Some(AttrValue::Boolean(b)),
            None => None,
        },
        ValueKind::EnumString(labels) => match label_index(labels, text) {
            Some(i) => Some(AttrValue::Choice(i)),
            None => None,
        },
        ValueKind::ListUnsignedInt => match parse_u64_list(text) {
            Some(v) => Some(AttrValue::UnsignedList(v)),
            None => None,
        },
        ValueKind::ListText => Some(AttrValue::TextList(split_str(text, ' '))),
    }
}

/// The text encoding a value of one kind, when the value is of that kind
/// and the kind is writable text: lists are never encoded (no list-typed
/// attribute is writable), and an enumerated value must index its label
/// list.
pub open spec fn spec_encode(kind: &ValueKind, v: SpecValue) -> Option<Seq<char>> {
    match (kind, v) {
        (ValueKind::Text, SpecValue::Text(s)) => Some(s),
        (ValueKind::UnsignedInt, SpecValue::Unsigned(n)) => Some(spec_format_u64(n as nat)),
        (ValueKind::SignedInt, SpecValue::Signed(n)) => Some(spec_format_i64(n as int)),
        (ValueKind::Percentage, SpecValue::Percent(p)) => Some(spec_format_u64(p as nat)),
        (ValueKind::Boolean, SpecValue::Boolean(b)) => Some(spec_format_bool(b)),
        (ValueKind::EnumString(labels), SpecValue::Choice(i)) => if 0 <= i
            < labels.deep_view().len() {
            Some(labels.deep_view()[i])
        } else {
            None
        },
        _ => None,
    }
}

/// Encodes a value of one kind as attribute text.
pub fn encode_value(kind: &ValueKind, v: &AttrValue) -> (r: Option<String>)
    ensures
        match r {
            Some(s) => spec_encode(kind, view_attr_value(*v)) == Some(s@),
            None => spec_encode(kind, view_attr_value(*v)) is None,
        },
{
    match (kind, v) {
        (ValueKind::Text, AttrValue::Text(s)) => Some(s.clone()),
        (ValueKind::UnsignedInt, AttrValue::Unsigned(n)) => Some(format_u64(*n)),
        (ValueKind::SignedInt, AttrValue::Signed(n)) => Some(format_i64(*n)),
        (ValueKind::Percentage, AttrValue::Percent(p)) => Some(format_u64(*p as u64)),
        (ValueKind::Boolean, AttrValue::Boolean(b)) => Some(format_bool(*b).to_owned()),
        (ValueKind::EnumString(labels), AttrValue::Choice(i)) => {
            if *i < labels.len() {
                Some(labels[*i].clone())
            } else {
                None
            }
        },
        _ => None,
    }
}

/// One attribute's immutable descriptor: the file's leaf name, the value
/// kind that fixes its codec, and whether writing is allowed.
pub struct AttributeSpec {
    /// The attribute's leaf file name under its device instance's root.
    pub name: String,
    /// The value kind; it fully determines decode and encode behavior.
    pub kind: ValueKind,
    /// Whether the attribute may be written. A read-only attribute never
    /// participates in a write: [`encode_for_write`] requires this flag.
    pub writable: bool,
}

/// The typed result of reading an attribute of one kind: the uniform
/// failure classification of [`spec_attr_text`], then the kind's codec,
/// whose rejection is a [`SysfsError::DecodeFailure`].
pub open spec fn spec_read_value(kind: &ValueKind, raw: ReadOutcome) -> Result<
    SpecValue,
    SysfsError,
> {
    match spec_attr_text(raw) {
        Err(e) => Err(e),
        Ok(t) => match spec_decode(kind, t) {
            Some(v) => Ok(v),
            None => Err(SysfsError::DecodeFailure),
        },
    }
}

/// Reads one attribute through its descriptor: classifies the raw
/// outcome, then decodes with the descriptor's kind.
pub fn read_attribute(attr: &AttributeSpec, raw: ReadOutcome) -> (r: Result<
    AttrValue,
    SysfsError,
>)
    ensures
        match r {
            Ok(v) => spec_read_value(&attr.kind, raw) == Ok::<SpecValue, SysfsError>(
                view_attr_value(v),
            ),
            Err(e) => spec_read_value(&attr.kind, raw) == Err::<SpecValue, SysfsError>(e),
        },
{
    match attr_text(raw) {
        Err(e) => Err(e),
        Ok(t) => match decode_value(&attr.kind, t.as_str()) {
            Some(v) => Ok(v),
            None => Err(SysfsError::DecodeFailure),
        },
    }
}

/// Encodes a value for writing through its descriptor. Only a writable
/// attribute participates; the text is exactly what the kind's codec
/// produces, with no added terminator.
pub fn encode_for_write(attr: &AttributeSpec, v: &AttrValue) -> (r: Option<String>)
    requires
        attr.writable,
    ensures
        match r {
            Some(s) => spec_encode(&attr.kind, view_attr_value(*v)) == Some(s@),
            None => spec_encode(&attr.kind, view_attr_value(*v)) is None,
        },
{
    encode_value(&attr.kind, v)
}

} // verus!
