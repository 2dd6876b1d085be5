use regex_detector::text::{slice_text, str_eq};
use regex_detector::{
    credit_card_detector, email_address_detector, regex_match, shape_detections, ssn_detector,
    DetectionResponse, PatternCompileError, RegexDetection, Span,
};

fn detection(regex: &str, detection_type: &str, detection: &str) -> RegexDetection {
    RegexDetection {
        regex: regex.to_string(),
        detection_type: detection_type.to_string(),
        detection: detection.to_string(),
    }
}

fn record(start: usize, end: usize, text: &str, kind: &str, label: &str) -> DetectionResponse {
    DetectionResponse {
        start,
        end,
        text: text.to_string(),
        detection_type: kind.to_string(),
        detection: label.to_string(),
        score_percent: 100,
    }
}

#[test]
// regex matches inputs with numbers only
fn test_regex_match() {
    let detection = RegexDetection {
        regex: r"^[0-9]+$".to_string(),
        detection_type: "number".to_string(),
        detection: "number".to_string(),
    };

    let content = "123456";

    let expected = vec![DetectionResponse {
        start: 0,
        end: 6,
        text: "123456".to_string(),
        detection_type: "number".to_string(),
        detection: "number".to_string(),
        score_percent: 100,
    }];

    let received = regex_match(detection, content).unwrap();
    assert_eq!(received, expected);
    assert_eq!(f64::from(received[0].score_percent) / 100.0, 1.0);
}

#[test]
fn whole_text_match_spans_the_text() {
    let content = "héllo wörld";
    let received = regex_match(detection("^.*$", "custom", "custom"), content).unwrap();
    assert_eq!(received, vec![record(0, content.len(), content, "custom", "custom")]);
    assert_eq!(received[0].end, 13);
}

#[test]
fn offsets_count_bytes() {
    let received = regex_match(detection("ö+", "custom", "custom"), "aöö b").unwrap();
    assert_eq!(received, vec![record(1, 5, "öö", "custom", "custom")]);
}

#[test]
fn matches_come_left_to_right_without_overlap() {
    let received = regex_match(detection("aa", "t", "l"), "aaaaa baa").unwrap();
    assert_eq!(
        received,
        vec![record(0, 2, "aa", "t", "l"), record(2, 4, "aa", "t", "l"), record(7, 9, "aa", "t", "l")]
    );
}

#[test]
fn empty_matches_are_reported_with_empty_text() {
    let received = regex_match(detection("a*", "t", "l"), "baaa").unwrap();
    assert_eq!(received, vec![record(0, 0, "", "t", "l"), record(1, 4, "aaa", "t", "l")]);
}

#[test]
fn no_match_is_an_empty_result() {
    let received = regex_match(detection("[0-9]+", "t", "l"), "no digits here").unwrap();
    assert_eq!(received, Vec::<DetectionResponse>::new());
}

#[test]
fn empty_content_is_scanned() {
    let received = regex_match(detection("^$", "t", "l"), "").unwrap();
    assert_eq!(received, vec![record(0, 0, "", "t", "l")]);
}

#[test]
fn pattern_that_does_not_compile_is_an_error() {
    let received = regex_match(detection("(unterminated", "custom", "custom"), "anything");
    assert_eq!(received, Err(PatternCompileError { pattern: "(unterminated".to_string() }));
}

#[test]
fn shape_detections_follows_the_spans() {
    let spans = vec![Span { start: 8, end: 10 }, Span { start: 0, end: 1 }, Span { start: 3, end: 3 }];
    let received = shape_detections(&detection("unused", "kind", "label"), "a béta zz", &spans);
    assert_eq!(
        received,
        vec![
            record(8, 10, "zz", "kind", "label"),
            record(0, 1, "a", "kind", "label"),
            record(3, 3, "", "kind", "label"),
        ]
    );
}

#[test]
fn shape_detections_of_no_span_is_empty() {
    let received = shape_detections(&detection("unused", "kind", "label"), "text", &Vec::new());
    assert!(received.is_empty());
}

#[test]
fn email_detector_finds_addresses() {
    let content = "write to first.last+tag@example.co.uk or x_y@host.io today".to_string();
    let received = email_address_detector(&content).unwrap();
    assert_eq!(
        received,
        vec![
            record(9, 37, "first.last+tag@example.co.uk", "pii", "EmailAddress"),
            record(41, 52, "x_y@host.io", "pii", "EmailAddress"),
        ]
    );
}

#[test]
fn email_detector_wants_a_top_level_label_of_two_letters() {
    let received = email_address_detector(&"a@b.c and a@b".to_string()).unwrap();
    assert!(received.is_empty());
}

#[test]
fn ssn_detector_accepts_the_separator_conventions() {
    let content = "123-45-6789, 123.45.6789, 123 45 6789, 123456789, 12345-6789".to_string();
    let received = ssn_detector(&content).unwrap();
    let texts: Vec<&str> = received.iter().map(|found| found.text.as_str()).collect();
    assert_eq!(texts, vec!["123-45-6789", "123.45.6789", "123 45 6789", "123456789", "12345-6789"]);
    assert_eq!(received[0], record(0, 11, "123-45-6789", "pii", "SocialSecurity"));
}

#[test]
fn ssn_detector_needs_word_boundaries() {
    let received = ssn_detector(&"x123-45-6789 and 1234567890".to_string()).unwrap();
    assert!(received.is_empty());
}

#[test]
fn credit_card_detector_finds_grouped_and_plain_numbers() {
    let content = "cards: 4111 1111 1111 1111, 5500-0000-0000-0004 and 340000000000009".to_string();
    let received = credit_card_detector(&content).unwrap();
    assert_eq!(
        received,
        vec![
            record(7, 26, "4111 1111 1111 1111", "pii", "CreditCard"),
            record(28, 47, "5500-0000-0000-0004", "pii", "CreditCard"),
            record(52, 67, "340000000000009", "pii", "CreditCard"),
        ]
    );
}

#[test]
fn credit_card_detector_rejects_other_leading_digits() {
    let received = credit_card_detector(&"9111 1111 1111 1111".to_string()).unwrap();
    assert!(received.is_empty());
}

#[test]
fn str_eq_compares_characters() {
    assert!(str_eq("email", "email"));
    assert!(str_eq("", ""));
    assert!(!str_eq("email", "emai"));
    assert!(!str_eq("email", "emaiL"));
    assert!(!str_eq("é", "e"));
    assert!(str_eq("crédit", "crédit"));
}

#[test]
fn slice_text_takes_the_bytes_between_offsets() {
    assert_eq!(slice_text("contact me", 0, 7), "contact");
    assert_eq!(slice_text("contact me", 8, 10), "me");
    assert_eq!(slice_text("contact me", 4, 4), "");
    assert_eq!(slice_text("naïve", 2, 4), "ï");
    assert_eq!(slice_text("naïve", 0, 6), "naïve");
}

#[test]
fn compile_error_names_the_pattern() {
    let received = regex_match(detection("[a-", "custom", "custom"), "abc").unwrap_err();
    assert_eq!(received.pattern, "[a-");
    assert_eq!(received.message(), "invalid regex pattern: [a-");
}
