use router::codec::{
    decode_json_object, encode_form, encode_json_object, i64_to_dec, parse_i64_decimal,
    u64_to_dec, WireField, WireValue,
};
use router::errors::ConnectorError;

fn field(key: &str, value: WireValue) -> WireField {
    WireField {
        key: key.to_string(),
        value,
    }
}

#[test]
fn json_object_renders_compactly() {
    let fields = vec![
        field("status", WireValue::Str("succeeded".to_string())),
        field("id", WireValue::Str("abc".to_string())),
        field("amount", WireValue::Int(-255)),
    ];
    let body = encode_json_object(&fields).unwrap();
    assert_eq!(body, "{\"status\":\"succeeded\",\"id\":\"abc\",\"amount\":-255}");
}

#[test]
fn empty_object_renders_as_braces() {
    let fields: Vec<WireField> = Vec::new();
    assert_eq!(encode_json_object(&fields).unwrap(), "{}");
    assert_eq!(decode_json_object("{}"), Some(Vec::new()));
}

#[test]
fn decoding_inverts_encoding() {
    let fields = vec![
        field("instanceId", WireValue::Str("inst_7".to_string())),
        field("status", WireValue::Int(0)),
        field("note", WireValue::Str("a,b:c 1".to_string())),
        field("delta", WireValue::Int(-9007)),
    ];
    let body = encode_json_object(&fields).unwrap();
    let parsed = decode_json_object(&body).expect("rendered object must parse");
    assert_eq!(parsed, fields);
}

#[test]
fn malformed_payloads_are_rejected() {
    for bad in [
        "",
        "{",
        "}",
        "not json",
        "{\"a\":}",
        "{\"a\":\"b\"",
        "{\"a\":\"b\"} ",
        "{\"a\":01}",
        "{\"a\":-0}",
        "{\"a\":--1}",
        "{a:\"b\"}",
        "{\"a\":\"b\",}",
    ] {
        assert!(decode_json_object(bad).is_none(), "{:?} must be rejected", bad);
    }
}

#[test]
fn unencodable_text_fails_with_encoding_condition() {
    let fields = vec![field("note", WireValue::Str("he said \"no\"".to_string()))];
    assert_eq!(
        encode_json_object(&fields),
        Err(ConnectorError::RequestEncodingFailed)
    );
    let fields = vec![field("path", WireValue::Str("a\\b".to_string()))];
    assert_eq!(
        encode_json_object(&fields),
        Err(ConnectorError::RequestEncodingFailed)
    );
}

#[test]
fn form_body_renders_as_pairs() {
    let fields = vec![
        field("amount", WireValue::Int(5000)),
        field("currency", WireValue::Str("USD".to_string())),
        field("exp", WireValue::Str("10/25".to_string())),
    ];
    assert_eq!(encode_form(&fields), "amount=5000&currency=USD&exp=10/25");
}

#[test]
fn decimal_rendering_is_exact() {
    assert_eq!(u64_to_dec(0), "0");
    assert_eq!(u64_to_dec(1042), "1042");
    assert_eq!(i64_to_dec(-255), "-255");
    assert_eq!(i64_to_dec(9223372036854775807), "9223372036854775807");
    assert_eq!(i64_to_dec(-9223372036854775808), "-9223372036854775808");
}

#[test]
fn plain_decimal_parsing_follows_the_standard_grammar() {
    assert_eq!(parse_i64_decimal("737"), Some(737));
    assert_eq!(parse_i64_decimal("0"), Some(0));
    assert_eq!(parse_i64_decimal("007"), Some(7));
    assert_eq!(parse_i64_decimal("+737"), Some(737));
    assert_eq!(parse_i64_decimal("-0"), Some(0));
    assert_eq!(parse_i64_decimal("-255"), Some(-255));
    assert_eq!(
        parse_i64_decimal("9223372036854775807"),
        Some(9223372036854775807)
    );
    assert_eq!(
        parse_i64_decimal("-9223372036854775808"),
        Some(-9223372036854775808)
    );
    assert_eq!(parse_i64_decimal(""), None);
    assert_eq!(parse_i64_decimal("+"), None);
    assert_eq!(parse_i64_decimal("-"), None);
    assert_eq!(parse_i64_decimal("12a"), None);
    assert_eq!(parse_i64_decimal(" 12"), None);
    assert_eq!(parse_i64_decimal("9223372036854775808"), None);
    assert_eq!(parse_i64_decimal("-9223372036854775809"), None);
    assert_eq!(parse_i64_decimal("99999999999999999999999999"), None);
}

#[test]
fn numbers_survive_the_wire() {
    let fields = vec![field("v", WireValue::Int(i64::MIN))];
    let body = encode_json_object(&fields).unwrap();
    assert_eq!(decode_json_object(&body), Some(fields));
}
