use edgar_decode::value::{infer_value, parse_bool_token, DynamicValue};
use edgar_decode::text::{
    parse_signed_i32, parse_signed_i64, parse_i64_token, split_commas, after_colon, is_float_str,
};

#[test]
fn infer_boolean_literals() {
    assert!(matches!(infer_value("true"), DynamicValue::Boolean(true)));
    assert!(matches!(infer_value("false"), DynamicValue::Boolean(false)));
    // Only the exact lowercase spellings are booleans here.
    assert!(matches!(infer_value("TRUE"), DynamicValue::Text(_)));
    assert!(matches!(infer_value("True"), DynamicValue::Text(_)));
}

#[test]
fn infer_integer() {
    assert!(matches!(infer_value("42"), DynamicValue::Integer(42)));
    assert!(matches!(infer_value("-7"), DynamicValue::Integer(-7)));
    // A leading zero does not force the string fallback.
    assert!(matches!(infer_value("01"), DynamicValue::Integer(1)));
    assert!(matches!(
        infer_value("352755000000"),
        DynamicValue::Integer(352755000000)
    ));
}

#[test]
fn infer_float_token() {
    match infer_value("42.5") {
        DynamicValue::Float(t) => assert_eq!(t.parse::<f64>().unwrap(), 42.5),
        _ => panic!("expected a float token"),
    }
    match infer_value("1e3") {
        DynamicValue::Float(t) => assert_eq!(t.parse::<f64>().unwrap(), 1000.0),
        _ => panic!("expected a float token"),
    }
}

#[test]
fn infer_string_fallback_is_verbatim() {
    match infer_value("abc") {
        DynamicValue::Text(t) => assert_eq!(t, "abc"),
        _ => panic!("expected the string fallback"),
    }
    // The trim applies to the parse attempts only, never to the stored
    // fallback text.
    match infer_value(" abc ") {
        DynamicValue::Text(t) => assert_eq!(t, " abc "),
        _ => panic!("expected the string fallback"),
    }
}

#[test]
fn infer_trims_before_attempting() {
    // If trimming were skipped, " 42 " could not parse as an integer.
    assert!(matches!(infer_value(" 42 "), DynamicValue::Integer(42)));
    assert!(matches!(infer_value("\ttrue\n"), DynamicValue::Boolean(true)));
}

#[test]
fn infer_plus_sign_is_not_an_integer() {
    // The integer grammar takes no leading plus; the float grammar does.
    match infer_value("+42") {
        DynamicValue::Float(t) => assert_eq!(t, "+42"),
        _ => panic!("expected a float token"),
    }
}

#[test]
fn infer_integer_range_limits() {
    assert!(matches!(
        infer_value("9223372036854775807"),
        DynamicValue::Integer(9223372036854775807)
    ));
    assert!(matches!(
        infer_value("-9223372036854775808"),
        DynamicValue::Integer(-9223372036854775808)
    ));
    // One past the 64-bit range falls through to the float token.
    assert!(matches!(
        infer_value("9223372036854775808"),
        DynamicValue::Float(_)
    ));
}

#[test]
fn integer_token_grammar() {
    assert_eq!(parse_i64_token("0"), Some(0));
    assert_eq!(parse_i64_token("000000000000000000000123"), Some(123));
    assert_eq!(parse_i64_token("-"), None);
    assert_eq!(parse_i64_token(""), None);
    assert_eq!(parse_i64_token("1.5"), None);
    assert_eq!(parse_i64_token("1e3"), None);
    assert_eq!(parse_i64_token("+1"), None);
    assert_eq!(parse_i64_token("12a"), None);
    assert_eq!(parse_i64_token("9223372036854775808"), None);
    assert_eq!(parse_i64_token("-9223372036854775808"), Some(i64::MIN));
}

#[test]
fn signed_integer_token_grammar() {
    // The schema-form leaves take one leading plus or minus.
    assert_eq!(parse_signed_i64("+1"), Some(1));
    assert_eq!(parse_signed_i64("-5"), Some(-5));
    assert_eq!(parse_signed_i64("42"), Some(42));
    assert_eq!(parse_signed_i64("+"), None);
    assert_eq!(parse_signed_i64("+-5"), None);
    assert_eq!(parse_signed_i64("++5"), None);
    assert_eq!(parse_signed_i64("+9223372036854775807"), Some(i64::MAX));
    assert_eq!(parse_signed_i32("+42"), Some(42));
    assert_eq!(parse_signed_i32("2147483647"), Some(i32::MAX));
    assert_eq!(parse_signed_i32("2147483648"), None);
    assert_eq!(parse_signed_i32("-2147483648"), Some(i32::MIN));
}

#[test]
fn float_token_grammar() {
    assert!(is_float_str("1"));
    assert!(is_float_str(".5"));
    assert!(is_float_str("5."));
    assert!(is_float_str("-3.25e-2"));
    assert!(is_float_str("+1e9"));
    assert!(!is_float_str("."));
    assert!(!is_float_str(""));
    assert!(!is_float_str("1e"));
    assert!(!is_float_str("1.2.3"));
    assert!(!is_float_str("abc"));
    // Agreement with the standard parser on decimal/exponent notation.
    for t in ["1", ".5", "5.", "-3.25e-2", "+1e9", ".", "", "1e", "1.2.3", "abc"] {
        assert_eq!(is_float_str(t), t.parse::<f64>().is_ok(), "token {:?}", t);
    }
    // Only standard decimal/exponent notation is a float: the word
    // spellings for infinities and not-a-number are excluded, although
    // the standard parser accepts them.
    assert!(!is_float_str("inf"));
    assert!(!is_float_str("Infinity"));
    assert!(!is_float_str("NaN"));
    assert!(!is_float_str("-inf"));
}

#[test]
fn infer_word_spellings_fall_back_to_string() {
    // No NaN or infinite float is ever produced: such tokens take the
    // string fallback.
    match infer_value("NaN") {
        DynamicValue::Text(t) => assert_eq!(t, "NaN"),
        _ => panic!("expected the string fallback"),
    }
    match infer_value("inf") {
        DynamicValue::Text(t) => assert_eq!(t, "inf"),
        _ => panic!("expected the string fallback"),
    }
    match infer_value("Infinity") {
        DynamicValue::Text(t) => assert_eq!(t, "Infinity"),
        _ => panic!("expected the string fallback"),
    }
}

#[test]
fn schema_bool_recognizer() {
    assert_eq!(parse_bool_token("1"), Some(true));
    assert_eq!(parse_bool_token("Y"), Some(true));
    assert_eq!(parse_bool_token("y"), Some(true));
    assert_eq!(parse_bool_token("TRUE"), Some(true));
    assert_eq!(parse_bool_token("true"), Some(true));
    assert_eq!(parse_bool_token("TrUe"), Some(true));
    assert_eq!(parse_bool_token("0"), Some(false));
    assert_eq!(parse_bool_token("N"), Some(false));
    assert_eq!(parse_bool_token("n"), Some(false));
    assert_eq!(parse_bool_token("FALSE"), Some(false));
    assert_eq!(parse_bool_token("false"), Some(false));
    // No fallthrough: anything else is rejected outright.
    assert_eq!(parse_bool_token("yes"), None);
    assert_eq!(parse_bool_token(""), None);
    assert_eq!(parse_bool_token("2"), None);
}

#[test]
fn comma_splitting() {
    let parts = split_commas("1, 2,x,4");
    let views: Vec<&str> = parts.iter().map(|s| s.as_str()).collect();
    assert_eq!(views, vec!["1", " 2", "x", "4"]);
    assert_eq!(split_commas("").len(), 1);
    assert_eq!(split_commas("a,,b").len(), 3);
}

#[test]
fn colon_remainder() {
    assert_eq!(after_colon("us-gaap:CommonStockMember"), "CommonStockMember");
    // The remainder keeps everything after the first colon.
    assert_eq!(after_colon("a:b:c"), "b:c");
    // No colon at all stores the empty string.
    assert_eq!(after_colon("nocolon"), "");
    assert_eq!(after_colon(":x"), "x");
    assert_eq!(after_colon("x:"), "");
}

#[test]
fn schema_bool_uses_full_case_folding() {
    // The long s uppercases to the ASCII S, so this token folds to FALSE.
    assert_eq!(parse_bool_token("fal\u{17f}e"), Some(false));
}
