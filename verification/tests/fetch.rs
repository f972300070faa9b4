use zxp::error::ErrorKind;
use zxp::fetch::{content_length, parse_length, size_class, size_message, SizeClass};

#[test]
fn scenario_missing_content_length_is_a_protocol_error() {
    let e = content_length(None).unwrap_err();
    assert_eq!(e.kind, ErrorKind::Protocol);
    assert_eq!(e.message, "Content-Length is missing for zipfile");
}

#[test]
fn content_length_reads_decimal_digits() {
    assert_eq!(content_length(Some("0")), Ok(0));
    assert_eq!(content_length(Some("1048576")), Ok(1048576));
    assert_eq!(content_length(Some("+42")), Ok(42));
    assert_eq!(content_length(Some("007")), Ok(7));
}

#[test]
fn content_length_rejects_anything_else() {
    for text in ["", "+", "-1", " 12", "12 ", "1e3", "12a", "0x10", "１２", "++1", "1+"] {
        let e = content_length(Some(text)).unwrap_err();
        assert_eq!(e.kind, ErrorKind::Protocol, "{text:?}");
        assert_eq!(e.message, "Content-Length is missing for zipfile");
    }
}

#[test]
fn parse_length_agrees_with_the_standard_parser() {
    let max = usize::MAX.to_string();
    let mut over = max.clone();
    over.push('0');
    let next = (usize::MAX as u128 + 1).to_string();
    for text in ["0", "9", "10", "+0", "+", "", "-0", "18446744073709551615", "4294967295",
        "4294967296", max.as_str(), over.as_str(), next.as_str(), "99999999999999999999999999",
        "00000000000000000000000000000001", "1_000", "٣"] {
        assert_eq!(parse_length(text), text.parse::<usize>().ok(), "{text:?}");
    }
    assert_eq!(parse_length(&max), Some(usize::MAX));
    assert_eq!(parse_length(&next), None);
}

#[test]
fn size_class_turns_at_one_mebibyte() {
    assert_eq!(size_class(0), SizeClass::KiB(0));
    assert_eq!(size_class(1023), SizeClass::KiB(0));
    assert_eq!(size_class(1024), SizeClass::KiB(1));
    assert_eq!(size_class(1048575), SizeClass::KiB(1023));
    assert_eq!(size_class(1048576), SizeClass::MiB(1));
    assert_eq!(size_class(5 * 1048576 + 17), SizeClass::MiB(5));
    assert_eq!(size_class(usize::MAX), SizeClass::MiB(usize::MAX >> 20));
}

#[test]
fn size_message_names_the_unit() {
    assert_eq!(size_message(2048), "Downloading zip file (size ~2kB)");
    assert_eq!(size_message(1048575), "Downloading zip file (size ~1023kB)");
    assert_eq!(size_message(3 * 1048576), "Downloading zip file (size ~3MB)");
}
