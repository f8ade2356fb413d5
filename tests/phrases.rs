use bing_speech::phrase::{classify_phrase, Hypothesis, JsonError, Phrase, PhraseKind};
use bing_speech::speech::read_recognition;

fn parse(text: &str) -> Phrase {
    let v: serde_json::Value = serde_json::from_str(text).unwrap();
    Phrase::from_json_value(&v).unwrap()
}

#[test]
fn success_with_display_text_is_simple() {
    match parse("{\"RecognitionStatus\":\"Success\",\"DisplayText\":\"hi\",\"Offset\":0,\"Duration\":1}") {
        Phrase::Simple(p) => {
            assert_eq!(p.recognition_status, "Success");
            assert_eq!(p.display_text, "hi");
            assert_eq!(p.offset, 0);
            assert_eq!(p.duration, 1);
        }
        other => panic!("{:?}", other),
    }
}

#[test]
fn success_without_display_text_is_detailed() {
    match parse("{\"RecognitionStatus\":\"Success\",\"Offset\":0,\"Duration\":1,\"NBest\":[]}") {
        Phrase::Detailed(p) => {
            assert_eq!(p.recognition_status, "Success");
            assert!(p.nbest.is_empty());
            assert_eq!(p.duration, 1);
        }
        other => panic!("{:?}", other),
    }
}

#[test]
fn detailed_alternatives_are_read_in_order() {
    let text = "{\"RecognitionStatus\":\"Success\",\"Offset\":5,\"Duration\":7,\"NBest\":[{\"Confidence\":0.9,\"Lexical\":\"a\",\"ITN\":\"b\",\"MaskedITN\":\"c\",\"Display\":\"d\"},{\"Confidence\":0.5,\"Lexical\":\"e\",\"ITN\":\"f\",\"MaskedITN\":\"g\",\"Display\":\"h\"}]}";
    match parse(text) {
        Phrase::Detailed(p) => {
            assert_eq!(p.nbest.len(), 2);
            assert_eq!(p.nbest[0].lexical, "a");
            assert_eq!(p.nbest[0].confidence.as_f64(), Some(0.9));
            assert_eq!(p.nbest[1].display, "h");
        }
        other => panic!("{:?}", other),
    }
}

#[test]
fn initial_silence_timeout_is_silence() {
    match parse("{\"RecognitionStatus\":\"InitialSilenceTimeout\",\"Offset\":0,\"Duration\":1}") {
        Phrase::Silence(p) => {
            assert_eq!(p.recognition_status, "InitialSilenceTimeout");
            assert_eq!(p.offset, 0);
        }
        other => panic!("{:?}", other),
    }
}

#[test]
fn other_status_is_unknown() {
    assert!(matches!(parse("{\"RecognitionStatus\":\"Error\"}"), Phrase::Unknown));
    assert!(matches!(parse("{}"), Phrase::Unknown));
    assert!(matches!(parse("[1,2]"), Phrase::Unknown));
}

#[test]
fn missing_members_are_shape_errors() {
    let v: serde_json::Value = serde_json::from_str("{\"RecognitionStatus\":\"Success\",\"DisplayText\":\"hi\"}").unwrap();
    assert_eq!(Phrase::from_json_value(&v).unwrap_err(), JsonError::Shape);
    assert_eq!(Phrase::from_json_text("{\"RecognitionStatus\":\"Success\"}").unwrap_err(), JsonError::Shape);
    assert_eq!(Phrase::from_json_text("{").unwrap_err(), JsonError::Syntax);
}

#[test]
fn classification_rule() {
    let s = |t: &str| Some(t.to_string());
    assert_eq!(classify_phrase(&s("Success"), true), PhraseKind::Simple);
    assert_eq!(classify_phrase(&s("Success"), false), PhraseKind::Detailed);
    assert_eq!(classify_phrase(&s("InitialSilenceTimeout"), true), PhraseKind::Silence);
    assert_eq!(classify_phrase(&s("NoMatch"), false), PhraseKind::Unknown);
    assert_eq!(classify_phrase(&None, true), PhraseKind::Unknown);
}

#[test]
fn hypothesis_is_read() {
    let h = Hypothesis::from_json_text("{\"Text\":\"hel\",\"Offset\":0,\"Duration\":500}").unwrap();
    assert_eq!(h.text, "hel");
    assert_eq!(h.offset, 0);
    assert_eq!(h.duration, 500);
    assert_eq!(Hypothesis::from_json_text("{\"Text\":1}").unwrap_err(), JsonError::Shape);
}

#[test]
fn recognition_response_bodies() {
    assert!(read_recognition("").unwrap().is_none());
    assert!(matches!(
        read_recognition("{\"RecognitionStatus\":\"InitialSilenceTimeout\",\"Offset\":0,\"Duration\":1}").unwrap(),
        Some(Phrase::Silence(_))
    ));
    assert_eq!(read_recognition("oops").unwrap_err(), JsonError::Syntax);
}

#[test]
fn phrases_print_one_field_per_line() {
    let simple = parse("{\"RecognitionStatus\":\"Success\",\"DisplayText\":\"hi\",\"Offset\":12,\"Duration\":3400}");
    assert_eq!(simple.describe(), "RecognitionStatus: Success\nDisplayText: hi\nOffset: 12\nDuration: 3400\n");
    let silence = parse("{\"RecognitionStatus\":\"InitialSilenceTimeout\",\"Offset\":0,\"Duration\":1}");
    assert_eq!(silence.describe(), "RecognitionStatus: InitialSilenceTimeout\nOffset: 0\nDuration: 1\n");
    assert_eq!(Phrase::Unknown.describe(), "RecognitionStatus: Unknown\n");
    let detailed = parse("{\"RecognitionStatus\":\"Success\",\"Offset\":5,\"Duration\":7,\"NBest\":[{\"Confidence\":0.9,\"Lexical\":\"a\",\"ITN\":\"b\",\"MaskedITN\":\"c\",\"Display\":\"d\"}]}");
    assert_eq!(
        detailed.describe(),
        "RecognitionStatus: Success\nOffset: 5\nDuration: 7\nNBest\n========\n#0\n--------\n    Confidence: 0.9\n    Lexical: a\n    ITN: b\n    MaskedITN: c\n    Display: d\n"
    );
}

#[test]
fn hypotheses_print_one_field_per_line() {
    let h = Hypothesis::from_json_text("{\"Text\":\"hel\",\"Offset\":0,\"Duration\":500}").unwrap();
    assert_eq!(h.describe(), "Text: hel\nOffset: 0\nDuration: 500\n");
}

#[test]
fn decimal_texts() {
    use_decimal(0, "0");
    use_decimal(9, "9");
    use_decimal(10, "10");
    use_decimal(1234567890, "1234567890");
    use_decimal(u64::MAX, "18446744073709551615");
}

fn use_decimal(n: u64, expected: &str) {
    assert_eq!(bing_speech::text::decimal_text(n), expected);
}

#[test]
fn incomplete_alternatives_are_shape_errors() {
    let missing = "{\"RecognitionStatus\":\"Success\",\"Offset\":5,\"Duration\":7,\"NBest\":[{\"Confidence\":0.9,\"Lexical\":\"a\",\"ITN\":\"b\",\"MaskedITN\":\"c\"}]}";
    assert_eq!(Phrase::from_json_text(missing).unwrap_err(), JsonError::Shape);
    let not_array = "{\"RecognitionStatus\":\"Success\",\"Offset\":5,\"Duration\":7,\"NBest\":{}}";
    assert_eq!(Phrase::from_json_text(not_array).unwrap_err(), JsonError::Shape);
    let silence_no_offset = "{\"RecognitionStatus\":\"InitialSilenceTimeout\",\"Duration\":1}";
    assert_eq!(Phrase::from_json_text(silence_no_offset).unwrap_err(), JsonError::Shape);
    let status_not_string = "{\"RecognitionStatus\":5,\"DisplayText\":\"x\"}";
    assert!(matches!(Phrase::from_json_text(status_not_string).unwrap(), Phrase::Unknown));
}
