use tmc_langs::decimal::IntErrorKind;
use tmc_langs::feedback::{
    BoundSide, FeedbackKindError, SubmissionFeedbackKind, SubmissionFeedbackKindVisitor,
};

fn visitor() -> SubmissionFeedbackKindVisitor {
    SubmissionFeedbackKindVisitor::new().unwrap()
}

#[test]
fn feedback_kind_de() {
    let text = visitor().visit_str("text").unwrap();
    if let SubmissionFeedbackKind::Text = text {
    } else {
        panic!("wrong type")
    }

    let intrange = visitor().visit_str("intrange[1..5]").unwrap();
    if let SubmissionFeedbackKind::IntRange { lower: 1, upper: 5 } = intrange {
    } else {
        panic!("wrong type")
    }
}

#[test]
fn feedback_kind_se() {
    let text = SubmissionFeedbackKind::Text;
    assert_eq!(text.to_kind_string(), "text".to_string());

    let range = SubmissionFeedbackKind::IntRange { lower: 1, upper: 5 };
    assert_eq!(range.to_kind_string(), "intrange[1..5]".to_string());
}

#[test]
fn range_must_be_the_whole_text() {
    for value in ["xintrange[1..2]y", "aintrange[1..2]b", "intrange[intrange[7..8]]", "intrange[1..2] ", " intrange[1..2]", "intrange[1..2]\n"] {
        assert_eq!(visitor().visit_str(value), Err(FeedbackKindError::Unexpected), "{:?}", value);
    }
    assert_eq!(
        visitor().visit_str("intrange[20..300]"),
        Ok(SubmissionFeedbackKind::IntRange { lower: 20, upper: 300 })
    );
}

#[test]
fn other_text_is_unexpected() {
    for value in ["", "Text", "text ", "intrange[1..]", "intrange[..5]", "intrange[1.5]", "intrange(1..5)"] {
        assert_eq!(visitor().visit_str(value), Err(FeedbackKindError::Unexpected), "{}", value);
    }
    assert_eq!(
        FeedbackKindError::Unexpected.message(),
        "expected \"text\" or \"intrange[x..y]\""
    );
}

#[test]
fn bound_too_large_is_reported() {
    let value = "intrange[1..99999999999999999999999999]";
    let err = visitor().visit_str(value).unwrap_err();
    assert_eq!(
        err,
        FeedbackKindError::InvalidBound {
            side: BoundSide::Upper,
            text: "99999999999999999999999999".to_string(),
            kind: IntErrorKind::PosOverflow,
        }
    );
    assert_eq!(
        err.message(),
        "error parsing intrange upper bound 99999999999999999999999999: number too large to fit in target type"
    );
}

#[test]
fn non_ascii_digits_are_not_a_bound() {
    // U+0663 ARABIC-INDIC DIGIT THREE is a decimal digit to the pattern, but not to `from_str`.
    let err = visitor().visit_str("intrange[\u{663}..5]").unwrap_err();
    assert_eq!(
        err,
        FeedbackKindError::InvalidBound {
            side: BoundSide::Lower,
            text: "\u{663}".to_string(),
            kind: IntErrorKind::InvalidDigit,
        }
    );
    assert_eq!(
        err.message(),
        "error parsing intrange lower bound \u{663}: invalid digit found in string"
    );
}

#[test]
fn lower_bound_is_read_before_upper() {
    let err = SubmissionFeedbackKind::from_bounds("x", "").unwrap_err();
    assert_eq!(
        err,
        FeedbackKindError::InvalidBound { side: BoundSide::Lower, text: "x".to_string(), kind: IntErrorKind::InvalidDigit }
    );
    let err = SubmissionFeedbackKind::from_bounds("3", "").unwrap_err();
    assert_eq!(
        err,
        FeedbackKindError::InvalidBound { side: BoundSide::Upper, text: "".to_string(), kind: IntErrorKind::Empty }
    );
    assert_eq!(err.message(), "error parsing intrange upper bound : cannot parse integer from empty string");
    assert_eq!(
        SubmissionFeedbackKind::from_bounds("+3", "04"),
        Ok(SubmissionFeedbackKind::IntRange { lower: 3, upper: 4 })
    );
}

#[test]
fn captures_without_bounds_are_reported() {
    let value = "intrange[1..2]";
    assert_eq!(SubmissionFeedbackKind::from_captures(value, &None), Err(FeedbackKindError::Unexpected));
    let caps = Some(vec![Some(value.to_string()), Some("1".to_string()), None]);
    assert_eq!(SubmissionFeedbackKind::from_captures(value, &caps), Err(FeedbackKindError::MissingBound));
    let caps = Some(vec![Some(value.to_string())]);
    assert_eq!(SubmissionFeedbackKind::from_captures(value, &caps), Err(FeedbackKindError::MissingBound));
    let caps = Some(vec![Some(value.to_string()), Some("10".to_string()), Some("20".to_string())]);
    assert_eq!(
        SubmissionFeedbackKind::from_captures(value, &caps),
        Ok(SubmissionFeedbackKind::IntRange { lower: 10, upper: 20 })
    );
}

#[test]
fn captures_of_part_of_the_text_are_refused() {
    let caps = Some(vec![Some("intrange[1..2]".to_string()), Some("1".to_string()), Some("2".to_string())]);
    assert_eq!(
        SubmissionFeedbackKind::from_captures("xintrange[1..2]y", &caps),
        Err(FeedbackKindError::Unexpected)
    );
    assert_eq!(SubmissionFeedbackKind::from_captures("x", &Some(vec![])), Err(FeedbackKindError::Unexpected));
}

#[test]
fn text_form_reads_back() {
    let kinds = [
        SubmissionFeedbackKind::Text,
        SubmissionFeedbackKind::IntRange { lower: 0, upper: 0 },
        SubmissionFeedbackKind::IntRange { lower: 1, upper: 5 },
        SubmissionFeedbackKind::IntRange { lower: 10, upper: 1 },
        SubmissionFeedbackKind::IntRange { lower: usize::MAX, upper: 12345 },
    ];
    for kind in kinds {
        let text = kind.to_kind_string();
        assert_eq!(visitor().visit_str(&text).unwrap(), kind);
    }
}

#[test]
fn distinct_kinds_have_distinct_text() {
    let a = SubmissionFeedbackKind::IntRange { lower: 1, upper: 23 };
    let b = SubmissionFeedbackKind::IntRange { lower: 12, upper: 3 };
    assert_ne!(a.to_kind_string(), b.to_kind_string());
    assert_eq!(a.to_kind_string(), "intrange[1..23]");
    assert_eq!(b.to_kind_string(), "intrange[12..3]");
}

#[test]
fn visitor_expects_text_or_range() {
    assert_eq!(visitor().expecting(), "\"text\" or \"intrange[x..y]\"");
}
