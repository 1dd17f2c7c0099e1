use terso_file_checking::render::{severity, usize_to_string, Severity, PREAMBLE_LINE_COUNT};
use terso_file_checking::{CheckError, DecodeError, ErrorType};

#[test]
fn messages_match_each_kind() {
    assert_eq!(
        CheckError::new(ErrorType::EpcDidNotMatch).message(),
        "epc did not match expected format"
    );
    assert_eq!(CheckError::new(ErrorType::EpcNotInOrder).message(), "epc was not in order");
    assert_eq!(
        CheckError::new(ErrorType::TagRangeIncomplete).message(),
        "tag range is incomplete"
    );
}

#[test]
fn rendering_adjusts_line_numbers_past_the_preamble() {
    assert_eq!(PREAMBLE_LINE_COUNT, 16);
    // stored line numbers are one-based: the first record shows as line 17
    assert_eq!(
        CheckError::epc_did_not_match(1).render(),
        "epc did not match expected format (line: 17)"
    );
    assert_eq!(
        CheckError::epc_did_not_match(2).render(),
        "epc did not match expected format (line: 18)"
    );
    assert_eq!(
        CheckError::epc_not_in_order(1..2).render(),
        "epc was not in order (lines: 17 - 18)"
    );
    assert_eq!(CheckError::tag_range_incomplete().render(), "tag range is incomplete");
}

#[test]
fn decimal_rendering_is_exact() {
    assert_eq!(usize_to_string(0), "0");
    assert_eq!(usize_to_string(7), "7");
    assert_eq!(usize_to_string(10), "10");
    assert_eq!(usize_to_string(1234), "1234");
    assert_eq!(usize_to_string(100200), "100200");
}

#[test]
fn severity_has_three_tiers() {
    assert_eq!(severity(0), Severity::Clean);
    assert_eq!(severity(1), Severity::Moderate);
    assert_eq!(severity(9), Severity::Moderate);
    assert_eq!(severity(10), Severity::Severe);
    assert_eq!(severity(250), Severity::Severe);
}

#[test]
fn decode_failures_have_display_texts() {
    assert_eq!(DecodeError::MissingData.message(), "tag cell is missing its data");
    assert_eq!(DecodeError::ExtraSeparator.message(), "tag cell has more than two parts");
    assert_eq!(DecodeError::UnknownErrorCode.message(), "unknown tag error code");
    assert_eq!(DecodeError::InvalidPassedToken.message(), "invalid passed record");
    assert_eq!(
        DecodeError::WrongFieldCount.message(),
        "record does not have exactly four fields"
    );
}

#[test]
fn error_constructors_set_kind_and_location() {
    let e = CheckError::new(ErrorType::TagRangeIncomplete);
    assert!(matches!(e.kind(), ErrorType::TagRangeIncomplete));
    assert_eq!(e.line_or_range(), None);
    assert_eq!(e.line(), None);
    assert_eq!(e.range(), None);

    let e = CheckError::with_line(ErrorType::EpcDidNotMatch, 7);
    assert_eq!(e.line(), Some(7));
    assert_eq!(e.range(), None);

    let e = CheckError::with_line(ErrorType::EpcDidNotMatch, 0);
    assert_eq!(e.line(), None);
    assert_eq!(e.line_or_range(), None);

    let e = CheckError::with_range(ErrorType::EpcNotInOrder, 2..5);
    assert_eq!(e.range(), Some(2..5));
    assert_eq!(e.line(), None);
}

#[test]
fn sources_are_carried_not_interpreted() {
    let e = CheckError::with_source(ErrorType::TagRangeIncomplete, String::from("bad number"));
    assert_eq!(e.into_source(), Some(String::from("bad number")));

    let e = CheckError::with_line_and_source(ErrorType::EpcDidNotMatch, 3, String::from("cause"));
    assert_eq!(e.line(), Some(3));
    let (kind, source) = e.into_parts();
    assert!(matches!(kind, ErrorType::EpcDidNotMatch));
    assert_eq!(source, Some(String::from("cause")));

    assert_eq!(CheckError::new(ErrorType::EpcNotInOrder).into_source(), None);
}
