use terso_file_checking::{DecodeError, ErrorCode, Line, RfidData, TagError};

fn cell(s: &str) -> RfidData {
    RfidData::decode(s).expect("cell should decode")
}

fn datum(data: &str) -> RfidData {
    RfidData { error_code: None, data: String::from(data) }
}

fn fields(ts: &str, passed: &str, epc: &str, tid: &str) -> Vec<String> {
    vec![String::from(ts), String::from(passed), String::from(epc), String::from(tid)]
}

#[test]
fn decodes_no_error_sentinel() {
    let d = cell("0/ABC123");
    assert_eq!(d.error_code, None);
    assert_eq!(d.data, "ABC123");
}

#[test]
fn decodes_each_known_error_code() {
    assert_eq!(cell("1/x").error_code, Some(ErrorCode::DidNotRespondToQuery));
    assert_eq!(cell("2/x").error_code, Some(ErrorCode::DidNotRespondToCommand));
    assert_eq!(cell("3/x").error_code, Some(ErrorCode::InventoryFailed));
    assert_eq!(cell("4/x").error_code, Some(ErrorCode::TagError(TagError::Other)));
    assert_eq!(cell("52/x").error_code, Some(ErrorCode::TagError(TagError::MemoryOverrun)));
    assert_eq!(cell("68/x").error_code, Some(ErrorCode::TagError(TagError::MemoryLocked)));
    assert_eq!(cell("180/x").error_code, Some(ErrorCode::TagError(TagError::InsufficientPower)));
    assert_eq!(cell("244/x").error_code, Some(ErrorCode::TagError(TagError::NonSpecific)));
}

#[test]
fn rejects_unknown_error_codes() {
    assert_eq!(RfidData::decode("5/x"), Err(DecodeError::UnknownErrorCode));
    assert_eq!(RfidData::decode("00/x"), Err(DecodeError::UnknownErrorCode));
    assert_eq!(RfidData::decode("/x"), Err(DecodeError::UnknownErrorCode));
    assert_eq!(RfidData::decode("245/x"), Err(DecodeError::UnknownErrorCode));
}

#[test]
fn rejects_cell_without_separator() {
    assert_eq!(RfidData::decode("0"), Err(DecodeError::MissingData));
    assert_eq!(RfidData::decode(""), Err(DecodeError::MissingData));
    assert_eq!(RfidData::decode("ABC123"), Err(DecodeError::MissingData));
}

#[test]
fn takes_everything_after_the_separator_as_data() {
    assert_eq!(cell("0/abc").data, "abc");
    assert_eq!(cell("0/").data, "");
    assert_eq!(cell("52/x y z").data, "x y z");
}

#[test]
fn rejects_cell_with_more_than_two_parts() {
    assert_eq!(RfidData::decode("0/abc/def"), Err(DecodeError::ExtraSeparator));
    assert_eq!(RfidData::decode("52//x"), Err(DecodeError::ExtraSeparator));
    assert_eq!(RfidData::decode("0/abc/"), Err(DecodeError::ExtraSeparator));
    // the two-part shape is checked before the status code
    assert_eq!(RfidData::decode("9/a/b"), Err(DecodeError::ExtraSeparator));
}

#[test]
fn serial_number_reads_last_four_digits() {
    assert_eq!(datum("000000000200000000001234").serial_number(), Some(1234));
    assert_eq!(datum("000000000200000000000000").serial_number(), Some(0));
    assert_eq!(datum("ABCD0042").serial_number(), Some(42));
    assert_eq!(datum("1234").serial_number(), Some(1234));
    assert_eq!(datum("9999").serial_number(), Some(9999));
}

#[test]
fn serial_number_missing_when_short_or_not_numeric() {
    assert_eq!(datum("123").serial_number(), None);
    assert_eq!(datum("").serial_number(), None);
    assert_eq!(datum("00000000020000000000abcd").serial_number(), None);
    assert_eq!(datum("000000000200000000001a34").serial_number(), None);
}

#[test]
fn decodes_passed_record() {
    let l = Line::decode(&fields("2024-01-01 10:00:00", "PASS", "0/AAAA1111", "0/BBBB"))
        .expect("record should decode");
    assert_eq!(l.timestamp, "2024-01-01 10:00:00");
    assert!(l.did_pass);
    assert_eq!(l.epc_data.data, "AAAA1111");
    assert_eq!(l.tid_data.data, "BBBB");
}

#[test]
fn decodes_failed_record() {
    let l = Line::decode(&fields("t", "FAIL", "1/AAAA", "0/BBBB")).expect("record should decode");
    assert!(!l.did_pass);
    assert_eq!(l.epc_data.error_code, Some(ErrorCode::DidNotRespondToQuery));
}

#[test]
fn rejects_other_passed_tokens() {
    assert!(matches!(
        Line::decode(&fields("t", "pass", "0/a", "0/b")),
        Err(DecodeError::InvalidPassedToken)
    ));
    assert!(matches!(
        Line::decode(&fields("t", "MAYBE", "0/a", "0/b")),
        Err(DecodeError::InvalidPassedToken)
    ));
    assert!(matches!(
        Line::decode(&fields("t", "", "0/a", "0/b")),
        Err(DecodeError::InvalidPassedToken)
    ));
}

#[test]
fn rejects_wrong_field_count() {
    let three = vec![String::from("t"), String::from("PASS"), String::from("0/a")];
    assert!(matches!(Line::decode(&three), Err(DecodeError::WrongFieldCount)));
    let five = vec![
        String::from("t"),
        String::from("PASS"),
        String::from("0/a"),
        String::from("0/b"),
        String::from("extra"),
    ];
    assert!(matches!(Line::decode(&five), Err(DecodeError::WrongFieldCount)));
    let none: Vec<String> = vec![];
    assert!(matches!(Line::decode(&none), Err(DecodeError::WrongFieldCount)));
}

#[test]
fn propagates_tag_cell_failures() {
    assert!(matches!(
        Line::decode(&fields("t", "PASS", "7/a", "0/b")),
        Err(DecodeError::UnknownErrorCode)
    ));
    assert!(matches!(
        Line::decode(&fields("t", "PASS", "0/a", "nodata")),
        Err(DecodeError::MissingData)
    ));
    assert!(matches!(
        Line::decode(&fields("t", "PASS", "0/a", "0/b/c")),
        Err(DecodeError::ExtraSeparator)
    ));
}
