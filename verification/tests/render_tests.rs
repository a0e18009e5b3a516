use pdf_generator::json::{JsonNumber, JsonValue};
use pdf_generator::options::RenderOptions;
use pdf_generator::render::{render_pdf, render_with_options};

fn options_value(template: &str) -> JsonValue {
    JsonValue::Obj(vec![
        ("template".to_owned(), JsonValue::Str(template.to_owned())),
        ("font".to_owned(), JsonValue::Arr(vec![])),
    ])
}

fn name_data() -> JsonValue {
    JsonValue::Obj(vec![(
        "name".to_owned(),
        JsonValue::Str("Ada".to_owned()),
    )])
}

#[test]
fn render_produces_pdf_bytes() {
    let options = options_value("#set text(12pt)\n#context sys.inputs.name");
    let bytes = render_pdf(&options, &name_data()).unwrap();
    assert!(!bytes.is_empty());
    assert_eq!(&bytes[..5], b"%PDF-");
}

#[test]
fn render_with_embedded_fonts_produces_pdf_bytes() {
    let fonts: Vec<Vec<u8>> = typst_assets::fonts().map(|f| f.to_vec()).collect();
    let opts = RenderOptions {
        template: "#set text(12pt)\n#context sys.inputs.name".to_owned(),
        font: fonts,
    };
    let bytes = render_with_options(opts, &name_data()).unwrap();
    assert!(!bytes.is_empty());
    assert_eq!(&bytes[..5], b"%PDF-");
}

#[test]
fn render_passes_converted_values_through() {
    // The template checks the values the dictionary carries, so rendering
    // fails unless the conversion handed them over faithfully: the integer
    // 2^31 must arrive as the truncated 32-bit value.
    let template = "#context assert(sys.inputs.n == -2147483648)\n\
                    #context assert(sys.inputs.name == \"Ada\")\n\
                    #context assert(sys.inputs.list == (true, none))";
    let data = JsonValue::Obj(vec![
        (
            "n".to_owned(),
            JsonValue::Num(JsonNumber::Int(2147483648)),
        ),
        ("name".to_owned(), JsonValue::Str("Ada".to_owned())),
        (
            "list".to_owned(),
            JsonValue::Arr(vec![JsonValue::Bool(true), JsonValue::Null]),
        ),
    ]);
    let bytes = render_pdf(&options_value(template), &data).unwrap();
    assert_eq!(&bytes[..5], b"%PDF-");
}

#[test]
fn render_rejects_template_with_syntax_error() {
    let options = options_value("#let (");
    let err = render_pdf(&options, &name_data()).unwrap_err();
    assert!(!err.is_empty());
}

#[test]
fn render_rejects_template_with_unknown_variable() {
    let options = options_value("#context data.name");
    let err = render_pdf(&options, &name_data()).unwrap_err();
    assert!(!err.is_empty());
}

#[test]
fn render_rejects_options_missing_font() {
    let options = JsonValue::Obj(vec![(
        "template".to_owned(),
        JsonValue::Str("= Hi".to_owned()),
    )]);
    let err = render_pdf(&options, &name_data()).unwrap_err();
    assert_eq!(
        err,
        "options field font is missing or not an array of byte arrays"
    );
}

#[test]
fn render_rejects_non_object_options() {
    let err = render_pdf(&JsonValue::Null, &name_data()).unwrap_err();
    assert_eq!(err, "options value is not an object");
}
