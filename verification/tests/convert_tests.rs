use pdf_generator::convert::convert;
use pdf_generator::json::{JsonNumber, JsonValue};
use pdf_generator::native::NativeValue;

#[test]
fn null_converts_to_nothing() {
    assert_eq!(convert(&JsonValue::Null), NativeValue::Nothing);
}

#[test]
fn booleans_convert_directly() {
    assert_eq!(convert(&JsonValue::Bool(true)), NativeValue::Bool(true));
    assert_eq!(convert(&JsonValue::Bool(false)), NativeValue::Bool(false));
}

#[test]
fn strings_convert_by_value() {
    assert_eq!(
        convert(&JsonValue::Str("Ada".to_owned())),
        NativeValue::Str("Ada".to_owned())
    );
}

#[test]
fn small_integers_keep_their_value() {
    assert_eq!(
        convert(&JsonValue::Num(JsonNumber::Int(42))),
        NativeValue::Int(42)
    );
    assert_eq!(
        convert(&JsonValue::Num(JsonNumber::Int(-7))),
        NativeValue::Int(-7)
    );
    assert_eq!(
        convert(&JsonValue::Num(JsonNumber::Int(2147483647))),
        NativeValue::Int(2147483647)
    );
    assert_eq!(
        convert(&JsonValue::Num(JsonNumber::Int(-2147483648))),
        NativeValue::Int(-2147483648)
    );
}

#[test]
fn integer_narrowing_truncates_two_to_the_31() {
    // 2^31 does not fit in an i32; truncation reinterprets the low 32 bits.
    assert_eq!(
        convert(&JsonValue::Num(JsonNumber::Int(2147483648))),
        NativeValue::Int(-2147483648)
    );
}

#[test]
fn integer_narrowing_truncates_large_values() {
    // 2^32 + 5 truncates to 5; -2^31 - 1 wraps around to 2^31 - 1.
    assert_eq!(
        convert(&JsonValue::Num(JsonNumber::Int(4294967301))),
        NativeValue::Int(5)
    );
    assert_eq!(
        convert(&JsonValue::Num(JsonNumber::Int(-2147483649))),
        NativeValue::Int(2147483647)
    );
}

#[test]
fn non_integer_numbers_keep_their_float_bits() {
    let bits = (1.5f64).to_bits();
    assert_eq!(
        convert(&JsonValue::Num(JsonNumber::Float(bits))),
        NativeValue::Float(bits)
    );
}

#[test]
fn unrepresentable_numbers_convert_to_nothing() {
    assert_eq!(
        convert(&JsonValue::Num(JsonNumber::Other)),
        NativeValue::Nothing
    );
}

#[test]
fn empty_array_converts_to_empty_sequence() {
    assert_eq!(convert(&JsonValue::Arr(vec![])), NativeValue::Arr(vec![]));
}

#[test]
fn empty_object_converts_to_empty_dictionary() {
    assert_eq!(convert(&JsonValue::Obj(vec![])), NativeValue::Dict(vec![]));
}

#[test]
fn object_key_order_is_insertion_order() {
    let v = JsonValue::Obj(vec![
        ("b".to_owned(), JsonValue::Num(JsonNumber::Int(1))),
        ("a".to_owned(), JsonValue::Num(JsonNumber::Int(2))),
    ]);
    assert_eq!(
        convert(&v),
        NativeValue::Dict(vec![
            ("b".to_owned(), NativeValue::Int(1)),
            ("a".to_owned(), NativeValue::Int(2)),
        ])
    );
}

#[test]
fn nested_structure_is_mirrored() {
    let v = JsonValue::Arr(vec![
        JsonValue::Null,
        JsonValue::Obj(vec![
            ("k".to_owned(), JsonValue::Arr(vec![JsonValue::Bool(true)])),
            ("s".to_owned(), JsonValue::Str("x".to_owned())),
        ]),
        JsonValue::Num(JsonNumber::Int(3)),
    ]);
    assert_eq!(
        convert(&v),
        NativeValue::Arr(vec![
            NativeValue::Nothing,
            NativeValue::Dict(vec![
                ("k".to_owned(), NativeValue::Arr(vec![NativeValue::Bool(true)])),
                ("s".to_owned(), NativeValue::Str("x".to_owned())),
            ]),
            NativeValue::Int(3),
        ])
    );
}

#[test]
fn round_trippable_subset_is_preserved_exactly() {
    // Booleans, strings, and 32-bit-range integers lose nothing, so reading
    // the converted tree back as JSON gives the original tree.
    let v = JsonValue::Obj(vec![
        ("flag".to_owned(), JsonValue::Bool(true)),
        ("name".to_owned(), JsonValue::Str("Ada".to_owned())),
        (
            "ns".to_owned(),
            JsonValue::Arr(vec![
                JsonValue::Num(JsonNumber::Int(-2147483648)),
                JsonValue::Num(JsonNumber::Int(2147483647)),
            ]),
        ),
    ]);
    assert_eq!(
        convert(&v),
        NativeValue::Dict(vec![
            ("flag".to_owned(), NativeValue::Bool(true)),
            ("name".to_owned(), NativeValue::Str("Ada".to_owned())),
            (
                "ns".to_owned(),
                NativeValue::Arr(vec![
                    NativeValue::Int(-2147483648),
                    NativeValue::Int(2147483647),
                ])
            ),
        ])
    );
}
