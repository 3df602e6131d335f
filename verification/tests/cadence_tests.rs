use mtmf::cadence;
use mtmf::cadence::JsonKind;
use mtmf::MtmfError;

fn parse(encoded: &[u8]) -> serde_json::Value {
    serde_json::from_slice(encoded).unwrap()
}

#[test]
fn test_load_template_mint() {
    let result = cadence::load_template("mint");
    assert!(result.is_ok(), "Should load mint template");

    let template = result.unwrap();
    assert!(template.contains("transaction"), "Template should contain transaction keyword");
    assert!(template.contains("Cadence 1.0"), "Template should be Cadence 1.0");
    assert!(template.len() > 0, "Template should not be empty");
}

#[test]
fn test_load_template_unknown() {
    let result = cadence::load_template("unknown");
    assert!(result.is_err(), "Should fail for unknown template");
}

#[test]
fn test_encode_string() {
    let result = cadence::encode_string("Hello World");
    assert!(result.is_ok());

    let encoded = result.unwrap();
    let json = parse(&encoded);

    assert_eq!(json["type"], "String");
    assert_eq!(json["value"], "Hello World");
}

#[test]
fn test_encode_address() {
    let result = cadence::encode_address("0x1234567890abcdef");
    assert!(result.is_ok());

    let encoded = result.unwrap();
    let json = parse(&encoded);

    assert_eq!(json["type"], "Address");
    assert_eq!(json["value"], "0x1234567890abcdef");
}

#[test]
fn test_encode_address_without_prefix() {
    let result = cadence::encode_address("1234567890abcdef");
    assert!(result.is_ok());

    let encoded = result.unwrap();
    let json = parse(&encoded);

    assert_eq!(json["type"], "Address");
    assert_eq!(json["value"], "0x1234567890abcdef");
}

#[test]
fn test_encode_argument_string() {
    let value = serde_json::Value::String("test".to_string());
    let encoded =
        cadence::encode_argument(JsonKind::String, &serde_json::to_vec(&value).unwrap());
    let json = parse(&encoded);

    assert_eq!(json["type"], "String");
    assert_eq!(json["value"], "test");
}

#[test]
fn test_encode_argument_number() {
    let value = serde_json::Value::from(42);
    let encoded =
        cadence::encode_argument(JsonKind::Number, &serde_json::to_vec(&value).unwrap());
    let json = parse(&encoded);

    assert_eq!(json["type"], "UInt64");
    assert_eq!(json["value"], 42);
}

#[test]
fn test_encode_argument_bool() {
    let value = serde_json::Value::Bool(true);
    let encoded =
        cadence::encode_argument(JsonKind::Bool, &serde_json::to_vec(&value).unwrap());
    let json = parse(&encoded);

    assert_eq!(json["type"], "Bool");
    assert_eq!(json["value"], true);
}

#[test]
fn test_unknown_template_error_names_the_template() {
    match cadence::load_template("burn") {
        Err(MtmfError::InvalidInput(message)) => assert_eq!(message, "Unknown template: burn"),
        _ => panic!("expected an invalid-input error"),
    }
    assert_eq!(cadence::load_template("mint").unwrap(), cadence::MINT_TEMPLATE);
    assert!(cadence::load_template("Mint").is_err());
}

#[test]
fn test_encoded_bytes_are_exact() {
    assert_eq!(
        cadence::encode_string("hi").unwrap(),
        b"{\"type\":\"String\",\"value\":\"hi\"}".to_vec()
    );
    assert_eq!(
        cadence::encode_address("0x01").unwrap(),
        b"{\"type\":\"Address\",\"value\":\"0x01\"}".to_vec()
    );
    assert_eq!(
        cadence::json_cdc("UInt64", b"42"),
        b"{\"type\":\"UInt64\",\"value\":42}".to_vec()
    );
}

#[test]
fn test_encode_string_escapes_what_json_cannot_hold() {
    let encoded = cadence::encode_string("a\"b\\c\nd").unwrap();
    assert_eq!(encoded, b"{\"type\":\"String\",\"value\":\"a\\\"b\\\\c\\nd\"}".to_vec());
    assert_eq!(parse(&encoded)["value"], "a\"b\\c\nd");
}

#[test]
fn test_encoding_matches_a_json_object() {
    let mut object = serde_json::Map::new();
    object.insert("type".to_string(), serde_json::Value::String("String".to_string()));
    object.insert("value".to_string(), serde_json::Value::String("x y".to_string()));
    let expected = serde_json::to_vec(&serde_json::Value::Object(object)).unwrap();
    assert_eq!(cadence::encode_string("x y").unwrap(), expected);
}

#[test]
fn test_encode_address_keeps_one_prefix() {
    assert_eq!(parse(&cadence::encode_address("").unwrap())["value"], "0x");
    assert_eq!(parse(&cadence::encode_address("0x").unwrap())["value"], "0x");
    assert_eq!(parse(&cadence::encode_address("0").unwrap())["value"], "0x0");
    assert_eq!(parse(&cadence::encode_address("0X1").unwrap())["value"], "0x0X1");
    assert_eq!(parse(&cadence::encode_address("0x0x1").unwrap())["value"], "0x0x1");
}

#[test]
fn test_infer_cadence_type() {
    assert_eq!(cadence::infer_cadence_type(JsonKind::String), "String");
    assert_eq!(cadence::infer_cadence_type(JsonKind::Number), "UInt64");
    assert_eq!(cadence::infer_cadence_type(JsonKind::Bool), "Bool");
    assert_eq!(cadence::infer_cadence_type(JsonKind::Array), "Array");
    assert_eq!(cadence::infer_cadence_type(JsonKind::Object), "Dictionary");
    assert_eq!(cadence::infer_cadence_type(JsonKind::Null), "Optional");
}
