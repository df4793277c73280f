use jsonrpc_usecase::case::{camel_to_snake, params_to_rust_case, snake_to_camel, value_to_json_case};
use jsonrpc_usecase::json::JsonValue;
use jsonrpc_usecase::naming::{field_json_name, unraw};
use serde_json::Value;

fn from_serde(value: Value) -> JsonValue {
    match value {
        Value::Null => JsonValue::Null,
        Value::Bool(flag) => JsonValue::Bool(flag),
        Value::Number(number) => JsonValue::Number(number),
        Value::String(text) => JsonValue::String(text),
        Value::Array(items) => JsonValue::Array(items.into_iter().map(from_serde).collect()),
        Value::Object(object) => JsonValue::Object(
            object
                .into_iter()
                .map(|(key, item)| (key, from_serde(item)))
                .collect(),
        ),
    }
}

fn to_serde(value: JsonValue) -> Value {
    match value {
        JsonValue::Null => Value::Null,
        JsonValue::Bool(flag) => Value::Bool(flag),
        JsonValue::Number(number) => Value::Number(number),
        JsonValue::String(text) => Value::String(text),
        JsonValue::Array(items) => Value::Array(items.into_iter().map(to_serde).collect()),
        JsonValue::Object(entries) => Value::Object(
            entries
                .into_iter()
                .map(|(key, item)| (key, to_serde(item)))
                .collect(),
        ),
    }
}

fn parse(text: &str) -> Value {
    serde_json::from_str(text).unwrap()
}

#[test]
fn converts_params_to_rust_case_recursively() {
    let input = parse(
        r#"{
            "leftOperand": 1,
            "URLValue": "https://example.test",
            "nestedValue": { "rightOperand": 2 },
            "items": [{ "itemValue": 3 }]
        }"#,
    );
    let expected = parse(
        r#"{
            "left_operand": 1,
            "url_value": "https://example.test",
            "nested_value": { "right_operand": 2 },
            "items": [{ "item_value": 3 }]
        }"#,
    );
    assert_eq!(to_serde(params_to_rust_case(from_serde(input))), expected);
}

#[test]
fn converts_values_to_json_case_recursively() {
    let input = parse(
        r#"{
            "left_operand": 1,
            "nested_value": { "right_operand": 2 },
            "items": [{ "item_value": 3 }]
        }"#,
    );
    let expected = parse(
        r#"{
            "leftOperand": 1,
            "nestedValue": { "rightOperand": 2 },
            "items": [{ "itemValue": 3 }]
        }"#,
    );
    assert_eq!(to_serde(value_to_json_case(from_serde(input))), expected);
}

#[test]
fn camel_to_snake_handles_acronyms_and_digits() {
    assert_eq!(camel_to_snake("leftOperand"), "left_operand");
    assert_eq!(camel_to_snake("URLValue"), "url_value");
    assert_eq!(camel_to_snake("item2Value"), "item2_value");
    assert_eq!(camel_to_snake("HTTPServer"), "http_server");
    assert_eq!(camel_to_snake("already_snake"), "already_snake");
    assert_eq!(camel_to_snake(""), "");
}

#[test]
fn snake_to_camel_drops_underscores() {
    assert_eq!(snake_to_camel("left_operand"), "leftOperand");
    assert_eq!(snake_to_camel("a__b"), "aB");
    assert_eq!(snake_to_camel("trailing_"), "trailing");
    assert_eq!(snake_to_camel("_leading"), "Leading");
    assert_eq!(snake_to_camel("plain"), "plain");
}

#[test]
fn snake_and_camel_names_round_trip() {
    for name in ["left_operand", "item2_value", "computed_sum", "x"] {
        assert_eq!(camel_to_snake(&snake_to_camel(name)), name);
    }
    for name in ["leftOperand", "item2Value", "computedSum", "x"] {
        assert_eq!(snake_to_camel(&camel_to_snake(name)), name);
    }
    // A one-letter word between underscores is not a plain snake name.
    assert_eq!(camel_to_snake(&snake_to_camel("a_b_c")), "a_bc");
}

#[test]
fn json_keys_round_trip_through_rust_case() {
    let input = parse(r#"{"leftOperand": [1, {"innerValue": null}], "flag": true, "text": "keepCase"}"#);
    let back = to_serde(value_to_json_case(params_to_rust_case(from_serde(input.clone()))));
    assert_eq!(back, input);
}

#[test]
fn scalars_and_string_values_are_left_alone() {
    let input = parse(r#"["someValue", 1.5, false, null]"#);
    assert_eq!(to_serde(params_to_rust_case(from_serde(input.clone()))), input);
}

#[test]
fn raw_identifiers_become_field_names() {
    assert_eq!(unraw("r#type"), "type");
    assert_eq!(unraw("plain"), "plain");
    assert_eq!(unraw("r"), "r");
    assert_eq!(field_json_name("r#display_name"), "displayName");
    assert_eq!(field_json_name("email"), "email");
}
