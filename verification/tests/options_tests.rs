use pdf_generator::json::{JsonNumber, JsonValue};
use pdf_generator::options::{decode_options, RenderOptions};

fn byte_array(bytes: &[u8]) -> JsonValue {
    JsonValue::Arr(
        bytes
            .iter()
            .map(|b| JsonValue::Num(JsonNumber::Int(*b as i64)))
            .collect(),
    )
}

#[test]
fn well_formed_options_decode() {
    let v = JsonValue::Obj(vec![
        ("template".to_owned(), JsonValue::Str("= Hi".to_owned())),
        (
            "font".to_owned(),
            JsonValue::Arr(vec![byte_array(&[0, 1, 255]), byte_array(&[])]),
        ),
    ]);
    let opts = decode_options(&v).unwrap();
    assert_eq!(
        opts,
        RenderOptions {
            template: "= Hi".to_owned(),
            font: vec![vec![0, 1, 255], vec![]],
        }
    );
}

#[test]
fn empty_font_list_decodes() {
    let v = JsonValue::Obj(vec![
        ("template".to_owned(), JsonValue::Str("".to_owned())),
        ("font".to_owned(), JsonValue::Arr(vec![])),
    ]);
    let opts = decode_options(&v).unwrap();
    assert_eq!(opts.template, "");
    assert!(opts.font.is_empty());
}

#[test]
fn unknown_fields_are_ignored() {
    let v = JsonValue::Obj(vec![
        ("extra".to_owned(), JsonValue::Null),
        ("template".to_owned(), JsonValue::Str("x".to_owned())),
        ("font".to_owned(), JsonValue::Arr(vec![])),
    ]);
    assert!(decode_options(&v).is_ok());
}

#[test]
fn missing_font_field_is_a_decoding_error() {
    let v = JsonValue::Obj(vec![(
        "template".to_owned(),
        JsonValue::Str("= Hi".to_owned()),
    )]);
    let err = decode_options(&v).unwrap_err();
    assert_eq!(
        err,
        "options field font is missing or not an array of byte arrays"
    );
}

#[test]
fn missing_template_field_is_a_decoding_error() {
    let v = JsonValue::Obj(vec![("font".to_owned(), JsonValue::Arr(vec![]))]);
    let err = decode_options(&v).unwrap_err();
    assert_eq!(err, "options field template is missing or not a string");
}

#[test]
fn non_object_options_are_a_decoding_error() {
    let err = decode_options(&JsonValue::Str("nope".to_owned())).unwrap_err();
    assert_eq!(err, "options value is not an object");
}

#[test]
fn template_of_wrong_type_is_a_decoding_error() {
    let v = JsonValue::Obj(vec![
        ("template".to_owned(), JsonValue::Num(JsonNumber::Int(1))),
        ("font".to_owned(), JsonValue::Arr(vec![])),
    ]);
    assert!(decode_options(&v).is_err());
}

#[test]
fn font_of_wrong_type_is_a_decoding_error() {
    let v = JsonValue::Obj(vec![
        ("template".to_owned(), JsonValue::Str("x".to_owned())),
        ("font".to_owned(), JsonValue::Str("not bytes".to_owned())),
    ]);
    assert!(decode_options(&v).is_err());
}

#[test]
fn font_byte_out_of_range_is_a_decoding_error() {
    let v = JsonValue::Obj(vec![
        ("template".to_owned(), JsonValue::Str("x".to_owned())),
        (
            "font".to_owned(),
            JsonValue::Arr(vec![JsonValue::Arr(vec![JsonValue::Num(
                JsonNumber::Int(256),
            )])]),
        ),
    ]);
    assert!(decode_options(&v).is_err());
}

#[test]
fn font_with_non_integer_entry_is_a_decoding_error() {
    let v = JsonValue::Obj(vec![
        ("template".to_owned(), JsonValue::Str("x".to_owned())),
        (
            "font".to_owned(),
            JsonValue::Arr(vec![JsonValue::Arr(vec![JsonValue::Str("a".to_owned())])]),
        ),
    ]);
    assert!(decode_options(&v).is_err());
}
