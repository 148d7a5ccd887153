use tmc_langs::decimal::{parse_usize, usize_to_decimal, IntErrorKind};

#[test]
fn formats_as_display_does() {
    for n in [0usize, 7, 10, 99, 100, 4096, 1234567890, usize::MAX] {
        assert_eq!(usize_to_decimal(n), n.to_string());
    }
}

#[test]
fn parses_as_from_str_does() {
    let cases = [
        "", "+", "-", "0", "00012", "+5", "-5", "++5", "12a", "a12", " 1", "1 ",
        "18446744073709551615", "18446744073709551616", "99999999999999999999x", "\u{663}",
    ];
    for text in cases {
        let expected = text.parse::<usize>().map_err(|e| match e.kind() {
            std::num::IntErrorKind::Empty => IntErrorKind::Empty,
            std::num::IntErrorKind::InvalidDigit => IntErrorKind::InvalidDigit,
            std::num::IntErrorKind::PosOverflow => IntErrorKind::PosOverflow,
            other => panic!("unexpected kind {:?}", other),
        });
        assert_eq!(parse_usize(text), expected, "{:?}", text);
    }
}

#[test]
fn parse_errors_have_from_str_messages() {
    for text in ["", "x", "99999999999999999999999"] {
        let std_message = text.parse::<usize>().unwrap_err().to_string();
        assert_eq!(parse_usize(text).unwrap_err().message(), std_message);
    }
}

#[test]
fn decimal_text_reads_back() {
    for n in [0usize, 1, 9, 10, 65535, usize::MAX] {
        assert_eq!(parse_usize(&usize_to_decimal(n)), Ok(n));
    }
}
