use chart_js_rs::literal::{int_to_string, is_float, parse_bool, parse_int};
use chart_js_rs::{Any, BoolString, DecodeError, Deserialize, JsValue, NumberOrDateString, NumberString, Serialize};
use std::cmp::Ordering;

#[test]
fn numbers_order_by_value_not_by_text() {
    assert!(NumberString::from("10") > NumberString::from("9"));
    assert!("10" < "9");
    assert_eq!(NumberString::from("10").cmp(&NumberString::from("9")), Ordering::Greater);
    assert_eq!(NumberOrDateString::from(2).cmp(&NumberOrDateString::from(10)), Ordering::Less);
}

#[test]
fn decimals_with_different_scales_compare_by_value() {
    assert_eq!(NumberString::from("1.50").cmp(&NumberString::from("1.5")), Ordering::Equal);
    assert_eq!(NumberString::from("-0.25").cmp(&NumberString::from("-0.3")), Ordering::Greater);
    assert_eq!(NumberString::from("0.0000000001").cmp(&NumberString::from("0")), Ordering::Greater);
    assert_eq!(
        NumberString::from("79228162514264337593543950335").cmp(&NumberString::from("0.0000000000000000000000000001")),
        Ordering::Greater
    );
    assert_eq!(
        NumberString::from("-79228162514264337593543950335").cmp(&NumberString::from("0.0000000000000000000000000001")),
        Ordering::Less
    );
}

#[test]
fn texts_that_are_no_numbers_order_by_their_bytes() {
    assert_eq!(NumberOrDateString::from("2024-01-10").cmp(&NumberOrDateString::from("2024-01-09")), Ordering::Greater);
    assert_eq!(NumberString::from("10").cmp(&NumberString::from("abc")), Ordering::Less);
    assert_eq!(NumberString::from("abc").cmp(&NumberString::from("abc")), Ordering::Equal);
    assert_eq!(NumberString::from("ab").cmp(&NumberString::from("abc")), Ordering::Less);
    assert!(NumberString::from("b") > NumberString::from("a"));
}

#[test]
fn a_scalar_is_empty_only_while_it_was_never_set() {
    assert!(NumberString::default().is_empty());
    assert!(NumberOrDateString::default().is_empty());
    assert!(!NumberString::from("0").is_empty());
    assert!(!NumberString::from(0).is_empty());
    assert!(!BoolString::default().is_empty());
    assert!(!BoolString::_false().is_empty());
}

#[test]
fn a_number_goes_to_the_wire_as_an_integer_a_number_or_a_text() {
    assert_eq!(NumberString::from("10").serialize(), JsValue::Int(10));
    assert_eq!(NumberString::from(-3).serialize(), JsValue::Int(-3));
    assert_eq!(NumberString::from("+7").serialize(), JsValue::Int(7));
    assert_eq!(NumberString::from("1.5").serialize(), JsValue::Number("1.5".to_string()));
    assert_eq!(NumberString::from("1e3").serialize(), JsValue::Number("1e3".to_string()));
    assert_eq!(NumberString::from("inf").serialize(), JsValue::Number("inf".to_string()));
    assert_eq!(NumberString::from("10px").serialize(), JsValue::Str("10px".to_string()));
    assert_eq!(NumberString::from("9223372036854775808").serialize(), JsValue::Number("9223372036854775808".to_string()));
    assert_eq!(NumberOrDateString::from("2024-01-10").serialize(), JsValue::Str("2024-01-10".to_string()));
}

#[test]
fn a_truth_value_goes_to_the_wire_as_one() {
    assert_eq!(BoolString::_true().serialize(), JsValue::Bool(true));
    assert_eq!(BoolString::_false().serialize(), JsValue::Bool(false));
    assert_eq!(BoolString::from(true).serialize(), JsValue::Bool(true));
    assert_eq!(BoolString::from("auto").serialize(), JsValue::Str("auto".to_string()));
    assert_eq!(BoolString::from("True").serialize(), JsValue::Str("True".to_string()));
    assert_eq!(BoolString::opt_true(), Some(BoolString::from("true")));
    assert_eq!(BoolString::opt_false(), Some(BoolString::from("false")));
    assert_eq!(BoolString::true_(), BoolString::opt_true());
    assert_eq!(BoolString::false_(), BoolString::opt_false());
    assert_eq!(BoolString::default(), BoolString::from(false));
}

#[test]
fn a_scalar_is_read_from_a_text_an_integer_a_truth_value_or_an_empty_list() {
    assert_eq!(NumberString::deserialize(&JsValue::Str("abc".into())), Ok(NumberString::from("abc")));
    assert_eq!(NumberString::deserialize(&JsValue::Int(-42)), Ok(NumberString::from("-42")));
    assert_eq!(NumberString::deserialize(&JsValue::Int(i64::MIN)), Ok(NumberString::from("-9223372036854775808")));
    assert_eq!(NumberString::deserialize(&JsValue::Bool(true)), Ok(NumberString::from("true")));
    assert_eq!(NumberString::deserialize(&JsValue::Array(vec![])), Ok(NumberString::default()));
    assert_eq!(BoolString::deserialize(&JsValue::Bool(false)), Ok(BoolString::_false()));
    assert_eq!(NumberOrDateString::deserialize(&JsValue::Int(7)), Ok(NumberOrDateString::from(7)));
}

#[test]
fn a_scalar_is_not_read_from_any_other_shape() {
    assert_eq!(NumberString::deserialize(&JsValue::Null), Err(DecodeError::Shape));
    assert_eq!(NumberString::deserialize(&JsValue::Undefined), Err(DecodeError::Shape));
    assert_eq!(NumberString::deserialize(&JsValue::Number("1.5".into())), Err(DecodeError::Shape));
    assert_eq!(NumberString::deserialize(&JsValue::Object(vec![])), Err(DecodeError::Shape));
    assert_eq!(NumberString::deserialize(&JsValue::Array(vec![JsValue::Int(1)])), Err(DecodeError::Shape));
    assert_eq!(BoolString::deserialize(&JsValue::Handle(1)), Err(DecodeError::Shape));
}

#[test]
fn any_keeps_the_variant_of_what_it_read() {
    assert_eq!(Any::deserialize(&JsValue::Str("x".into())), Ok(Any::String("x".into())));
    assert_eq!(Any::deserialize(&JsValue::Int(3)), Ok(Any::Int(3)));
    assert_eq!(Any::deserialize(&JsValue::Bool(true)), Ok(Any::Bool(true)));
    assert_eq!(Any::deserialize(&JsValue::Array(vec![JsValue::Null, JsValue::Null])), Ok(Any::Vec(vec![(), ()])));
    assert_eq!(Any::from(true), Any::Bool(true));
    assert_eq!(Any::from("s".to_string()), Any::String("s".into()));
    assert_eq!(Any::Vec(vec![(), ()]).serialize(), JsValue::Array(vec![JsValue::Null, JsValue::Null]));
    assert_eq!(Any::Int(-1).serialize(), JsValue::Int(-1));
}

#[test]
fn any_is_empty_as_a_text_or_a_list_without_items() {
    assert!(Any::String(String::new()).is_empty());
    assert!(!Any::String("0".into()).is_empty());
    assert!(!Any::Int(0).is_empty());
    assert!(!Any::Bool(false).is_empty());
    assert!(Any::Vec(vec![]).is_empty());
    assert!(!Any::Vec(vec![()]).is_empty());
    assert_eq!(Any::Int(-12).to_string(), "-12");
    assert_eq!(Any::Bool(true).to_string(), "true");
    assert_eq!(Any::Vec(vec![()]).to_string(), "");
}

#[test]
fn integers_are_read_as_the_standard_parser_reads_them() {
    for text in ["0", "7", "-7", "+7", "007", "-0", "9223372036854775807", "-9223372036854775808",
                 "9223372036854775808", "-9223372036854775809", "", "-", "+", "1.0", " 1", "1 ", "1_000",
                 "٣", "12a", "99999999999999999999999999999999999999999999"] {
        assert_eq!(parse_int(text), text.parse::<i64>().ok(), "{text:?}");
    }
}

#[test]
fn floats_are_recognised_as_the_standard_parser_recognises_them() {
    for text in ["0", "1.5", "-1.5", "+1.5", ".5", "5.", ".", "1e5", "1E5", "1e", "1e+", "1e-5", "1.e5", ".e5",
                 "inf", "-inf", "+Infinity", "INF", "nan", "NaN", "-nan", "infinit", "in", "", "+", "-",
                 "1.5.5", "1e5.5", " 1", "1 ", "1_0", "0x10", "１", "e5", "--1", "1e5e5", "1f"] {
        assert_eq!(is_float(text), text.parse::<f64>().is_ok(), "{text:?}");
    }
}

#[test]
fn truth_values_are_read_in_lower_case_only() {
    assert_eq!(parse_bool("true"), Some(true));
    assert_eq!(parse_bool("false"), Some(false));
    assert_eq!(parse_bool("True"), None);
    assert_eq!(parse_bool(""), None);
}

#[test]
fn integers_are_written_in_decimal() {
    for i in [0i64, 1, -1, 9, 10, 11, 99, 100, -100, 1234567890, i64::MAX, i64::MIN] {
        assert_eq!(int_to_string(i), i.to_string());
    }
}

#[test]
fn numerals_of_any_length_order_by_value() {
    let ten_to_29 = format!("1{}", "0".repeat(29));
    let just_below = "9".repeat(29);
    assert_eq!(NumberString::from(&ten_to_29).cmp(&NumberString::from(&just_below)), Ordering::Greater);
    assert_eq!(NumberString::from(&just_below).cmp(&NumberString::from(&ten_to_29)), Ordering::Less);
    assert!(NumberOrDateString::from(&ten_to_29) > NumberOrDateString::from(&just_below));
    let tiny = format!("0.{}1", "0".repeat(28));
    assert_eq!(NumberString::from(&tiny).cmp(&NumberString::from("0")), Ordering::Greater);
    assert_eq!(NumberString::from(format!("-{tiny}")).cmp(&NumberString::from("0")), Ordering::Less);
    let long_a = format!("{}.{}7", "123456789".repeat(10), "5".repeat(40));
    let long_b = format!("{}.{}8", "123456789".repeat(10), "5".repeat(40));
    assert_eq!(NumberString::from(&long_a).cmp(&NumberString::from(&long_b)), Ordering::Less);
    assert_eq!(NumberString::from(format!("-{long_a}")).cmp(&NumberString::from(format!("-{long_b}"))), Ordering::Greater);
    assert_eq!(NumberString::from(&long_a).cmp(&NumberString::from(format!("000{long_a}000"))), Ordering::Equal);
}

#[test]
fn numerals_order_as_the_numbers_that_they_denote() {
    let texts = ["0", "-0", "+0", "0.0", "-0.00", "1", "+1", "01", "1.0", "1.", "-1", "-1.5", "1.5", "1.50", ".5", "0.5",
                 "-.5", "2", "10", "9", "9.99", "10.01", "-10", "-9", "100", "0.001", "0.0010", "-0.001", "123.456", "123.4559"];
    let value = |t: &str| -> i64 {
        let negative = t.starts_with('-');
        let body = t.trim_start_matches(['+', '-']);
        let (whole, fraction) = body.split_once('.').unwrap_or((body, ""));
        let digits = format!("{}{:0<4}", if whole.is_empty() { "0" } else { whole }, fraction);
        let magnitude: i64 = digits.parse().unwrap();
        if negative { -magnitude } else { magnitude }
    };
    for a in texts {
        for b in texts {
            assert_eq!(NumberString::from(a).cmp(&NumberString::from(b)), value(a).cmp(&value(b)), "{a} against {b}");
        }
    }
}

#[test]
fn texts_that_only_the_decimal_reader_takes_order_by_what_it_reads() {
    assert_eq!(NumberString::from("1e3").cmp(&NumberString::from("999")), Ordering::Greater);
    assert_eq!(NumberString::from("1e3").cmp(&NumberString::from("1000")), Ordering::Equal);
    assert_eq!(NumberString::from("1_000").cmp(&NumberString::from("999")), Ordering::Greater);
    assert_eq!(NumberString::from("1e3").cmp(&NumberString::from("9".repeat(40))), Ordering::Less);
    assert_eq!(NumberString::from("").cmp(&NumberString::from("1")), Ordering::Less);
    assert_eq!(NumberString::from("-").cmp(&NumberString::from(".")), Ordering::Less);
}
