use sysfs_attrs::catalog::{
    decode_value, encode_for_write, encode_value, read_attribute, AttrValue, AttributeSpec,
    ValueKind,
};
use sysfs_attrs::error::SysfsError;
use sysfs_attrs::text::ReadOutcome;

fn content(text: &str) -> ReadOutcome {
    ReadOutcome::Content(text.as_bytes().to_vec())
}

fn governor_labels() -> Vec<String> {
    vec![
        "performance".to_string(),
        "powersave".to_string(),
        "ondemand".to_string(),
        "schedutil".to_string(),
    ]
}

#[test]
fn each_kind_decodes_its_text() {
    match decode_value(&ValueKind::Text, "hello").unwrap() {
        AttrValue::Text(s) => assert_eq!(s, "hello"),
        other => panic!("wrong variant: {:?}", variant_name(&other)),
    }
    match decode_value(&ValueKind::UnsignedInt, "1024").unwrap() {
        AttrValue::Unsigned(n) => assert_eq!(n, 1024),
        other => panic!("wrong variant: {:?}", variant_name(&other)),
    }
    match decode_value(&ValueKind::SignedInt, "-1").unwrap() {
        AttrValue::Signed(n) => assert_eq!(n, -1),
        other => panic!("wrong variant: {:?}", variant_name(&other)),
    }
    match decode_value(&ValueKind::Percentage, "42").unwrap() {
        AttrValue::Percent(p) => assert_eq!(p, 42),
        other => panic!("wrong variant: {:?}", variant_name(&other)),
    }
    match decode_value(&ValueKind::Boolean, "1").unwrap() {
        AttrValue::Boolean(b) => assert!(b),
        other => panic!("wrong variant: {:?}", variant_name(&other)),
    }
    match decode_value(&ValueKind::EnumString(governor_labels()), "ondemand").unwrap() {
        AttrValue::Choice(i) => assert_eq!(i, 2),
        other => panic!("wrong variant: {:?}", variant_name(&other)),
    }
    match decode_value(&ValueKind::ListUnsignedInt, "0 1 2 3").unwrap() {
        AttrValue::UnsignedList(v) => assert_eq!(v, vec![0, 1, 2, 3]),
        other => panic!("wrong variant: {:?}", variant_name(&other)),
    }
    match decode_value(&ValueKind::ListText, "ondemand performance").unwrap() {
        AttrValue::TextList(v) => {
            assert_eq!(v, vec!["ondemand".to_string(), "performance".to_string()])
        }
        other => panic!("wrong variant: {:?}", variant_name(&other)),
    }
}

fn variant_name(v: &AttrValue) -> &'static str {
    match v {
        AttrValue::Text(_) => "Text",
        AttrValue::Unsigned(_) => "Unsigned",
        AttrValue::Signed(_) => "Signed",
        AttrValue::Percent(_) => "Percent",
        AttrValue::Boolean(_) => "Boolean",
        AttrValue::Choice(_) => "Choice",
        AttrValue::UnsignedList(_) => "UnsignedList",
        AttrValue::TextList(_) => "TextList",
    }
}

#[test]
fn decode_rejects_content_of_the_wrong_shape() {
    assert!(decode_value(&ValueKind::UnsignedInt, "fast").is_none());
    assert!(decode_value(&ValueKind::SignedInt, "1.5").is_none());
    assert!(decode_value(&ValueKind::Percentage, "150").is_none());
    assert!(decode_value(&ValueKind::Boolean, "yes").is_none());
    assert!(decode_value(&ValueKind::EnumString(governor_labels()), "userspace").is_none());
    assert!(decode_value(&ValueKind::ListUnsignedInt, "1 two").is_none());
}

#[test]
fn encode_inverts_decode_for_writable_kinds() {
    let cases: Vec<(ValueKind, AttrValue)> = vec![
        (ValueKind::Text, AttrValue::Text("performance".to_string())),
        (ValueKind::UnsignedInt, AttrValue::Unsigned(2800000)),
        (ValueKind::SignedInt, AttrValue::Signed(-500000)),
        (ValueKind::Percentage, AttrValue::Percent(43)),
        (ValueKind::Boolean, AttrValue::Boolean(false)),
        (ValueKind::EnumString(governor_labels()), AttrValue::Choice(1)),
    ];
    for (kind, value) in cases {
        let text = encode_value(&kind, &value).unwrap();
        let back = decode_value(&kind, &text).unwrap();
        assert_eq!(variant_name(&back), variant_name(&value));
        assert_eq!(encode_value(&kind, &back).unwrap(), text);
    }
}

#[test]
fn encode_refuses_mismatched_or_listed_values() {
    assert!(encode_value(&ValueKind::UnsignedInt, &AttrValue::Signed(1)).is_none());
    assert!(encode_value(&ValueKind::ListUnsignedInt, &AttrValue::UnsignedList(vec![1])).is_none());
    assert!(
        encode_value(&ValueKind::EnumString(governor_labels()), &AttrValue::Choice(9)).is_none()
    );
}

#[test]
fn read_attribute_dispatches_on_the_descriptor() {
    let attr = AttributeSpec {
        name: "scaling_max_freq".to_string(),
        kind: ValueKind::UnsignedInt,
        writable: true,
    };
    match read_attribute(&attr, content("2800000\n")).unwrap() {
        AttrValue::Unsigned(n) => assert_eq!(n, 2800000),
        other => panic!("wrong variant: {:?}", variant_name(&other)),
    }
    assert!(matches!(
        read_attribute(&attr, ReadOutcome::Missing),
        Err(SysfsError::MissingAttribute)
    ));
    assert!(matches!(
        read_attribute(&attr, content("<unsupported>\n")),
        Err(SysfsError::UnsupportedAttribute)
    ));
    assert!(matches!(
        read_attribute(&attr, content("fast\n")),
        Err(SysfsError::DecodeFailure)
    ));
    assert!(matches!(read_attribute(&attr, ReadOutcome::Failed), Err(SysfsError::Io)));
}

#[test]
fn encode_for_write_produces_the_file_text() {
    let attr = AttributeSpec {
        name: "scaling_governor".to_string(),
        kind: ValueKind::EnumString(governor_labels()),
        writable: true,
    };
    let text = encode_for_write(&attr, &AttrValue::Choice(0)).unwrap();
    assert_eq!(text, "performance");
}
