use title_parser::error::ParseError;
use title_parser::text::{chars_of, matches_at, parse_decimal, string_of};
use title_parser::timecode::{parse_timecode, timecode_from_groups, TimeCode, TimeCodeTrait};

fn some(text: &str) -> Option<String> {
    Some(text.to_string())
}

#[test]
fn timecode_from_str() -> Result<(), String> {
    let tc_string = "01:02:03.004";
    let TimeCode { string, hh, mm, ss, ttt, .. } = tc_string.to_timecode()?;
    assert_eq!((string, hh, mm, ss, ttt), (tc_string.to_string(), 1, 2, 3, 4));
    Ok(())
}

#[test]
fn timecode_from_str_no_hours() -> Result<(), String> {
    let tc_string = "02:03.004";
    let TimeCode { string, hh, mm, ss, ttt, .. } = tc_string.to_timecode()?;
    assert_eq!((string, hh, mm, ss, ttt), (tc_string.to_string(), 0, 2, 3, 4));
    Ok(())
}

#[test]
fn timecode_from_invalid_str() -> Result<(), String> {
    let tc_string = "01:02:03";
    assert_eq!(tc_string.to_timecode(), Err("invalid timecode".to_string()));
    let tc_string = "0a:02:03.001";
    assert_eq!(tc_string.to_timecode(), Err("invalid timecode".to_string()));
    Ok(())
}

#[test]
fn timecode_with_invalid_values() -> Result<(), String> {
    let tc_string = "01:02:60.004";
    assert_eq!(tc_string.to_timecode(), Err("invalid timecode".to_string()));
    let tc_string = "01:60:03.004";
    assert_eq!(tc_string.to_timecode(), Err("invalid timecode".to_string()));
    Ok(())
}

#[test]
fn timecode_to_seconds() -> Result<(), String> {
    let tc_string = "01:02:03.004";
    assert_eq!(tc_string.to_timecode()?.to_seconds(), 3723);
    Ok(())
}

#[test]
fn timecode_keeps_its_text() {
    let tc_string = "00:01:14.815";
    let tc = tc_string.to_timecode().unwrap();
    assert_eq!(tc.string, tc_string);
    assert_eq!(tc.to_seconds(), 74);
}

#[test]
fn timecode_with_seconds_out_of_range() {
    let tc = "00:01:67.815".to_timecode();
    assert_eq!(tc, Err("invalid timecode".to_string()));
}

#[test]
fn parse_timecode_reads_all_fields() {
    let tc = parse_timecode("12:34:56.789").unwrap();
    assert_eq!((tc.hh, tc.mm, tc.ss, tc.ttt), (12, 34, 56, 789));
    assert_eq!(tc.string, "12:34:56.789");
    assert_eq!(tc.to_seconds(), 12 * 3600 + 34 * 60 + 56);
}

#[test]
fn parse_timecode_takes_a_comma() {
    let tc = parse_timecode("00:00:13,916").unwrap();
    assert_eq!((tc.hh, tc.mm, tc.ss, tc.ttt), (0, 0, 13, 916));
    assert_eq!(tc.string, "00:00:13,916");
}

#[test]
fn parse_timecode_takes_up_to_four_digits_of_hours() {
    let tc = parse_timecode("100:00:00.000").unwrap();
    assert_eq!((tc.hh, tc.to_seconds()), (100, 360_000));
    let tc = parse_timecode("9999:59:59.999").unwrap();
    assert_eq!((tc.hh, tc.mm, tc.ss, tc.ttt), (9999, 59, 59, 999));
    assert_eq!(tc.to_seconds(), 35_999_999);
    assert_eq!(parse_timecode("10000:00:00.000"), Err(ParseError::InvalidTimeCode));
    assert_eq!(parse_timecode("1:00:00.000"), Err(ParseError::InvalidTimeCode));
}

#[test]
fn parse_timecode_truncates_the_milliseconds() {
    assert_eq!(parse_timecode("00:00:01.999").unwrap().to_seconds(), 1);
    assert_eq!(parse_timecode("59:59.999").unwrap().to_seconds(), 3599);
}

#[test]
fn parse_timecode_refuses_what_is_no_timecode() {
    for text in [
        "",
        "01:02:03",
        "01:02:03.04",
        "01:02:03.0045",
        "01:02:03;004",
        "01-02-03.004",
        "01:2:03.004",
        "0a:02:03.001",
        "01:02:03.00a",
        " 01:02:03.004",
        "01:02:03.004 ",
        "01:02:03.004\n",
        "01:02:60.004",
        "01:60:03.004",
        "01:99:03.004",
        ":02:03.004",
    ] {
        assert_eq!(parse_timecode(text), Err(ParseError::InvalidTimeCode), "{:?}", text);
    }
}

#[test]
fn parse_timecode_refuses_digits_of_other_scripts() {
    let text = "\u{661}\u{662}:02:03.004";
    assert_eq!(parse_timecode(text), Err(ParseError::InvalidTimeCode));
    assert_eq!(text.to_timecode(), Err("invalid timecode".to_string()));
}

#[test]
fn timecode_from_groups_reads_the_fields() {
    let text = "01:02:03.004";
    let groups = vec![some(text), some("01:"), some("01"), some("02"), some("03"), some("004")];
    let tc = timecode_from_groups(text, &groups).unwrap();
    assert_eq!((tc.hh, tc.mm, tc.ss, tc.ttt), (1, 2, 3, 4));
    assert_eq!(tc.string, text);

    let text = "02:03,004";
    let groups = vec![some(text), None, None, some("02"), some("03"), some("004")];
    let tc = timecode_from_groups(text, &groups).unwrap();
    assert_eq!((tc.hh, tc.mm, tc.ss, tc.ttt), (0, 2, 3, 4));
}

#[test]
fn timecode_from_groups_compares_the_text() {
    let text = "01:02:03.004";
    let right = vec![some(text), some("01:"), some("01"), some("02"), some("03"), some("004")];
    assert!(timecode_from_groups(text, &right).is_ok());
    // groups that are not the fields of the text
    for (at, other) in [(2, "10"), (3, "20"), (4, "30"), (5, "400")] {
        let mut groups = vec![some(text), some("01:"), some("01"), some("02"), some("03"), some("004")];
        groups[at] = some(other);
        assert_eq!(timecode_from_groups(text, &groups), Err(ParseError::InvalidTimeCode));
        groups[at] = None;
        assert_eq!(timecode_from_groups(text, &groups), Err(ParseError::InvalidTimeCode));
    }
    // too few groups
    let few = vec![some(text), some("01:"), some("01"), some("02"), some("03")];
    assert_eq!(timecode_from_groups(text, &few), Err(ParseError::InvalidTimeCode));
    // a text that is no timecode, whatever the groups say
    let groups = vec![some("01:02:60.004"), some("01:"), some("01"), some("02"), some("60"), some("004")];
    assert_eq!(timecode_from_groups("01:02:60.004", &groups), Err(ParseError::InvalidTimeCode));
    let groups = vec![some("01:62:03.004"), some("01:"), some("01"), some("62"), some("03"), some("004")];
    assert_eq!(timecode_from_groups("01:62:03.004", &groups), Err(ParseError::InvalidTimeCode));
    let groups = vec![some("01:02:03x004"), some("01:"), some("01"), some("02"), some("03"), some("004")];
    assert_eq!(timecode_from_groups("01:02:03x004", &groups), Err(ParseError::InvalidTimeCode));
    let groups = vec![some("01;02:03.004"), some("01:"), some("01"), some("02"), some("03"), some("004")];
    assert_eq!(timecode_from_groups("01;02:03.004", &groups), Err(ParseError::InvalidTimeCode));
    // hours in the groups where the text has none
    let groups = vec![some("02:03.004"), some("01:"), some("01"), some("02"), some("03"), some("004")];
    assert_eq!(timecode_from_groups("02:03.004", &groups), Err(ParseError::InvalidTimeCode));
}

#[test]
fn parse_decimal_reads_digits() {
    let v = chars_of("x0042y");
    assert_eq!(parse_decimal(&v, 1, 5), Some(42));
    assert_eq!(parse_decimal(&v, 1, 1), None);
    assert_eq!(parse_decimal(&v, 0, 5), None);
    assert_eq!(parse_decimal(&v, 1, 6), None);
    let v = chars_of("4294967295");
    assert_eq!(parse_decimal(&v, 0, 10), Some(u32::MAX));
    let v = chars_of("4294967296");
    assert_eq!(parse_decimal(&v, 0, 10), None);
    let v = chars_of("99999999999");
    assert_eq!(parse_decimal(&v, 0, 11), None);
    let v = chars_of("+12");
    assert_eq!(parse_decimal(&v, 0, 3), None);
}

#[test]
fn chars_and_strings() {
    let v = chars_of("（聖弥）フフッ");
    assert_eq!(v.len(), 7);
    assert_eq!(v[1], '聖');
    assert_eq!(string_of(&v, 1, 3), "聖弥");
    assert_eq!(string_of(&v, 0, 7), "（聖弥）フフッ");
    assert_eq!(string_of(&v, 4, 4), "");
    let piece = chars_of("フフ");
    assert!(matches_at(&v, 4, &piece));
    assert!(!matches_at(&v, 5, &piece));
    assert!(!matches_at(&v, 6, &piece));
    assert!(!matches_at(&v, 9, &piece));
    assert!(matches_at(&v, 7, &chars_of("")));
}

#[test]
fn error_messages() {
    assert_eq!(ParseError::InvalidTimeCode.message(), "invalid timecode");
    assert_eq!(ParseError::MalformedCue.message(), "not a valid cue");
}
