use sysfs_attrs::error::SysfsError;
use sysfs_attrs::reader::{
    read_bool_attr, read_i64_attr, read_percent_attr, read_text_attr, read_text_list_attr,
    read_u64_attr, read_u64_list_attr,
};
use sysfs_attrs::text::{attr_text, classify_write, ReadOutcome, WriteOutcome, SYSFS_MAX_ATTR_BYTES};

fn content(text: &str) -> ReadOutcome {
    ReadOutcome::Content(text.as_bytes().to_vec())
}

#[test]
fn text_read_strips_exactly_one_trailing_newline() {
    assert_eq!(attr_text(content("acpi-cpufreq\n")), Ok("acpi-cpufreq".to_string()));
    assert_eq!(attr_text(content("acpi-cpufreq")), Ok("acpi-cpufreq".to_string()));
    assert_eq!(attr_text(content("two\n\n")), Ok("two\n".to_string()));
    assert_eq!(attr_text(content("")), Ok("".to_string()));
}

#[test]
fn missing_file_yields_missing_attribute() {
    assert_eq!(attr_text(ReadOutcome::Missing), Err(SysfsError::MissingAttribute));
    assert_eq!(read_u64_attr(ReadOutcome::Missing), Err(SysfsError::MissingAttribute));
}

#[test]
fn other_io_failure_yields_io() {
    assert_eq!(attr_text(ReadOutcome::Failed), Err(SysfsError::Io));
    assert_eq!(read_u64_attr(ReadOutcome::Failed), Err(SysfsError::Io));
}

#[test]
fn sentinel_yields_unsupported_for_every_kind() {
    // The sentinel takes precedence over every declared type, even text,
    // whose codec would happily accept the literal.
    assert_eq!(read_text_attr(content("<unsupported>")), Err(SysfsError::UnsupportedAttribute));
    assert_eq!(read_text_attr(content("<unsupported>\n")), Err(SysfsError::UnsupportedAttribute));
    assert_eq!(read_u64_attr(content("<unsupported>")), Err(SysfsError::UnsupportedAttribute));
    assert_eq!(read_i64_attr(content("<unsupported>")), Err(SysfsError::UnsupportedAttribute));
    assert_eq!(read_bool_attr(content("<unsupported>")), Err(SysfsError::UnsupportedAttribute));
    assert_eq!(
        read_percent_attr(content("<unsupported>")),
        Err(SysfsError::UnsupportedAttribute)
    );
    match read_u64_list_attr(content("<unsupported>")) {
        Err(SysfsError::UnsupportedAttribute) => {}
        other => panic!("expected unsupported, got {:?}", other),
    }
    match read_text_list_attr(content("<unsupported>")) {
        Err(SysfsError::UnsupportedAttribute) => {}
        other => panic!("expected unsupported, got {:?}", other),
    }
}

#[test]
fn missing_and_unsupported_stay_distinct() {
    let missing = read_text_attr(ReadOutcome::Missing).unwrap_err();
    let unsupported = read_text_attr(content("<unsupported>")).unwrap_err();
    assert_eq!(missing, SysfsError::MissingAttribute);
    assert_eq!(unsupported, SysfsError::UnsupportedAttribute);
    assert_ne!(missing, unsupported);
}

#[test]
fn near_sentinel_text_is_ordinary_content() {
    assert_eq!(attr_text(content("<unsupported> ")), Ok("<unsupported> ".to_string()));
    assert_eq!(attr_text(content("unsupported")), Ok("unsupported".to_string()));
}

#[test]
fn long_content_is_truncated_not_rejected() {
    // More than the maximum byte count is read only up to the bound.
    let mut long = String::new();
    for _ in 0..2000 {
        long.push('a');
    }
    let r = attr_text(ReadOutcome::Content(long.as_bytes().to_vec())).unwrap();
    assert_eq!(r.len(), SYSFS_MAX_ATTR_BYTES);
    assert!(r.chars().all(|c| c == 'a'));
}

#[test]
fn truncation_can_expose_a_trailing_newline() {
    let mut bytes = vec![b'x'; SYSFS_MAX_ATTR_BYTES - 1];
    bytes.push(b'\n');
    bytes.extend_from_slice(b"ignored tail");
    let r = attr_text(ReadOutcome::Content(bytes)).unwrap();
    assert_eq!(r.len(), SYSFS_MAX_ATTR_BYTES - 1);
}

#[test]
fn non_ascii_content_is_a_decode_failure() {
    assert_eq!(
        attr_text(ReadOutcome::Content(vec![0xff, 0xfe])),
        Err(SysfsError::DecodeFailure)
    );
    assert_eq!(
        attr_text(ReadOutcome::Content("über".as_bytes().to_vec())),
        Err(SysfsError::DecodeFailure)
    );
}

#[test]
fn typed_reads_decode_their_kind() {
    assert_eq!(read_u64_attr(content("2800000\n")), Ok(2800000));
    assert_eq!(read_i64_attr(content("-1\n")), Ok(-1));
    assert_eq!(read_bool_attr(content("1\n")), Ok(true));
    assert_eq!(read_bool_attr(content("0")), Ok(false));
    assert_eq!(read_percent_attr(content("42\n")), Ok(42));
    assert_eq!(read_u64_list_attr(content("0 1 2 3\n")), Ok(vec![0, 1, 2, 3]));
    assert_eq!(
        read_text_list_attr(content("ondemand performance\n")),
        Ok(vec!["ondemand".to_string(), "performance".to_string()])
    );
}

#[test]
fn content_the_codec_rejects_is_a_decode_failure() {
    assert_eq!(read_u64_attr(content("fast\n")), Err(SysfsError::DecodeFailure));
    assert_eq!(read_i64_attr(content("1.5\n")), Err(SysfsError::DecodeFailure));
    assert_eq!(read_bool_attr(content("yes\n")), Err(SysfsError::DecodeFailure));
    assert_eq!(read_percent_attr(content("150\n")), Err(SysfsError::DecodeFailure));
    assert_eq!(read_u64_list_attr(content("1 two 3\n")), Err(SysfsError::DecodeFailure));
}

#[test]
fn write_outcomes_classify_like_reads() {
    assert_eq!(classify_write(WriteOutcome::Done), Ok(()));
    assert_eq!(classify_write(WriteOutcome::Missing), Err(SysfsError::MissingAttribute));
    assert_eq!(classify_write(WriteOutcome::Failed), Err(SysfsError::Io));
}

#[test]
fn error_messages_name_the_kind() {
    assert!(SysfsError::MissingAttribute.message().contains("does not exist"));
    assert!(SysfsError::UnsupportedAttribute.message().contains("not supported"));
    assert!(SysfsError::DecodeFailure.message().contains("decoded"));
    assert!(SysfsError::Io.message().contains("IO"));
}
