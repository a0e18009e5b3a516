//! The bridge to the typesetting engine: declarations of the engine's opaque
//! types, trusted wrappers around the calls the render path makes, and the
//! verified construction of engine values from native trees.

use vstd::prelude::*;

use crate::native::{dict_keys_distinct, native_model, NativeModel, NativeValue};

verus! {

#[verifier::external_type_specification]
#[verifier::external_body]
pub struct ExValue(typst::foundations::Value);

#[verifier::external_type_specification]
#[verifier::external_body]
pub struct ExTypstTemplateMainFile(typst_as_lib::TypstTemplateMainFile);

#[verifier::external_type_specification]
#[verifier::external_body]
#[verifier::reject_recursive_types(T)]
pub struct ExTypstEngine<T>(typst_as_lib::TypstEngine<T>);

#[verifier::external_type_specification]
#[verifier::external_body]
pub struct ExPagedDocument(typst_layout::PagedDocument);

/// The native tree a `typst::foundations::Value` holds, for the values the
/// wrappers below construct.
pub uninterp spec fn engine_value_model(v: typst::foundations::Value) -> NativeModel;

/// Relies on typst's `Value::None`: the value that indicates the absence of a
/// meaningful value.
#[verifier::external_body]
fn engine_none() -> (r: typst::foundations::Value)
    ensures
        engine_value_model(r) == NativeModel::Nothing,
{
    typst::foundations::Value::None
}

/// Relies on typst's `IntoValue` for `bool`: wraps the boolean as a value.
#[verifier::external_body]
fn engine_bool(b: bool) -> (r: typst::foundations::Value)
    ensures
        engine_value_model(r) == NativeModel::Bool(b),
{
    typst::foundations::IntoValue::into_value(b)
}

/// Relies on typst's `IntoValue` for `i32`: wraps the integer as a value.
#[verifier::external_body]
fn engine_int(i: i32) -> (r: typst::foundations::Value)
    ensures
        engine_value_model(r) == NativeModel::Int(i),
{
    typst::foundations::IntoValue::into_value(i)
}

/// Relies on typst's `Value::Float` and on wasmi_core's bit-preserving
/// `F64::from_bits` / `F64::to_float` pair: wraps the 64-bit IEEE 754 number
/// with the given bit pattern as a value.
#[verifier::external_body]
fn engine_float(bits: u64) -> (r: typst::foundations::Value)
    ensures
        engine_value_model(r) == NativeModel::Float(bits),
{
    typst::foundations::Value::Float(wasmi_core::F64::from_bits(bits).to_float())
}

/// Relies on typst's `IntoValue` for `String`: wraps the string as a value.
#[verifier::external_body]
fn engine_str(s: String) -> (r: typst::foundations::Value)
    ensures
        engine_value_model(r) == NativeModel::Str(s@),
{
    typst::foundations::IntoValue::into_value(s)
}

/// Relies on typst's `IntoValue` for `Vec`: wraps the items as an array
/// value, keeping their order.
#[verifier::external_body]
fn engine_array(items: Vec<typst::foundations::Value>) -> (r: typst::foundations::Value)
    ensures
        engine_value_model(r) == NativeModel::Arr(
            Seq::new(items@.len(), |i: int| engine_value_model(items@[i])),
        ),
{
    typst::foundations::IntoValue::into_value(items)
}

/// Relies on typst's `Dict`, an index map collected entry by entry: with
/// pairwise-distinct keys — which the callers guarantee — every entry is
/// kept, in order. (On a repeated key the map would keep a single entry, so
/// such input is excluded.)
#[verifier::external_body]
fn engine_dict(entries: Vec<(String, typst::foundations::Value)>) -> (r:
    typst::foundations::Value)
    requires
        forall|i: int, j: int|
            0 <= i < j < entries@.len() ==> entries@[i].0@ != entries@[j].0@,
    ensures
        engine_value_model(r) == NativeModel::Dict(
            Seq::new(entries@.len(), |i: int| (entries@[i].0@, engine_value_model(entries@[i].1))),
        ),
{
    let dict: typst::foundations::Dict = entries
        .into_iter()
        .map(|(k, v)| (typst::foundations::Str::from(k), v))
        .collect();
    typst::foundations::Value::Dict(dict)
}

/// Relies on typst_as_lib's engine builder: an engine whose main file is the
/// given template source and whose font book holds the given font files.
#[verifier::external_body]
pub(crate) fn build_engine(template: &str, fonts: Vec<Vec<u8>>) -> (r: typst_as_lib::TypstEngine<
    typst_as_lib::TypstTemplateMainFile,
>) {
    typst_as_lib::TypstEngine::builder().main_file(template).fonts(fonts).build()
}

/// Relies on typst_as_lib's `compile_with_input`: collects the entries into
/// the engine's input dictionary (available to the template as `sys.inputs`)
/// and compiles the main file. A compile failure is carried as the error's
/// display form, which always begins with a non-empty description.
#[verifier::external_body]
pub(crate) fn compile_document(
    engine: &typst_as_lib::TypstEngine<typst_as_lib::TypstTemplateMainFile>,
    input: Vec<(String, typst::foundations::Value)>,
) -> (r: Result<typst_layout::PagedDocument, String>)
    ensures
        r matches Err(m) ==> m@.len() > 0,
{
    let dict: typst::foundations::Dict = input
        .into_iter()
        .map(|(k, v)| (typst::foundations::Str::from(k), v))
        .collect();
    let warned = engine.compile_with_input::<typst::foundations::Dict, typst_layout::PagedDocument>(
        dict,
    );
    warned.output.map_err(|e| e.to_string())
}

/// The five bytes every PDF file begins with: `%PDF-`.
pub open spec fn pdf_header() -> Seq<u8> {
    seq![37u8, 80u8, 68u8, 70u8, 45u8]
}

/// Relies on typst_pdf's `pdf` export with default options. Its writer puts
/// the `%PDF-` header at the head of the buffer unconditionally, so every
/// successful export begins with those five bytes. An export failure is
/// carried as a diagnostic string with a non-empty prefix.
#[verifier::external_body]
pub(crate) fn export_pdf(doc: &typst_layout::PagedDocument) -> (r: Result<Vec<u8>, String>)
    ensures
        r matches Ok(b) ==> b@.len() >= 5 && b@.subrange(0, 5) == pdf_header(),
        r matches Err(m) ==> m@.len() > 0,
{
    typst_pdf::pdf(doc, &typst_pdf::PdfOptions::default()).map_err(
        |e| format!("PDF export failed: {:?}", e),
    )
}

/// Builds the engine value a native tree stands for, leaf by leaf and node
/// by node through the wrappers above. Every dictionary in the tree must
/// have pairwise-distinct keys, since the engine's dictionary keeps one
/// entry per key.
pub(crate) fn to_engine_value(n: &NativeValue) -> (r: typst::foundations::Value)
    requires
        dict_keys_distinct(n@),
    ensures
        engine_value_model(r) == n@,
    decreases *n,
{
    match n {
        NativeValue::Nothing => engine_none(),
        NativeValue::Bool(b) => engine_bool(*b),
        NativeValue::Int(i) => engine_int(*i),
        NativeValue::Float(bits) => engine_float(*bits),
        NativeValue::Str(s) => engine_str(s.clone()),
        NativeValue::Arr(a) => {
            let mut items: Vec<typst::foundations::Value> = Vec::new();
            let mut i: usize = 0;
            while i < a.len()
                invariant
                    i <= a@.len(),
                    items@.len() == i,
                    *n == NativeValue::Arr(*a),
                    dict_keys_distinct(n@),
                    forall|k: int|
                        0 <= k < i ==> engine_value_model(items@[k]) == native_model(a@[k]),
                decreases a@.len() - i,
            {
                proof {
                    assert(decreases_to!(*n => (*n)->Arr_0));
                    assert(decreases_to!(*a => a@));
                    assert(decreases_to!(a@ => a@[i as int]));
                    assert(n@->Arr_0[i as int] == native_model(a@[i as int]));
                    assert(dict_keys_distinct(n@->Arr_0[i as int]));
                    assert(dict_keys_distinct(a@[i as int]@));
                }
                let item = to_engine_value(&a[i]);
                items.push(item);
                i = i + 1;
            }
            let r = engine_array(items);
            proof {
                assert(engine_value_model(r)->Arr_0 =~= n@->Arr_0);
                assert(engine_value_model(r) =~= n@);
            }
            r
        },
        NativeValue::Dict(d) => {
            let mut entries: Vec<(String, typst::foundations::Value)> = Vec::new();
            let mut i: usize = 0;
            while i < d.len()
                invariant
                    i <= d@.len(),
                    entries@.len() == i,
                    *n == NativeValue::Dict(*d),
                    dict_keys_distinct(n@),
                    forall|k: int|
                        0 <= k < i ==> entries@[k].0@ == d@[k].0@ && engine_value_model(
                            entries@[k].1,
                        ) == native_model(d@[k].1),
                decreases d@.len() - i,
            {
                proof {
                    assert(decreases_to!(*n => (*n)->Dict_0));
                    assert(decreases_to!(*d => d@));
                    assert(decreases_to!(d@ => d@[i as int]));
                    assert(decreases_to!(d@[i as int] => d@[i as int].1));
                    assert(n@->Dict_0[i as int] == (d@[i as int].0@, native_model(d@[i as int].1)));
                    assert(dict_keys_distinct(n@->Dict_0[i as int].1));
                    assert(dict_keys_distinct(d@[i as int].1@));
                }
                let entry = &d[i];
                let key = entry.0.clone();
                let val = to_engine_value(&entry.1);
                entries.push((key, val));
                i = i + 1;
            }
            proof {
                assert forall|x: int, y: int|
                    0 <= x < y < entries@.len() implies entries@[x].0@ != entries@[y].0@ by {
                    assert(n@->Dict_0[x] == (d@[x].0@, native_model(d@[x].1)));
                    assert(n@->Dict_0[y] == (d@[y].0@, native_model(d@[y].1)));
                    assert(n@->Dict_0[x].0 != n@->Dict_0[y].0);
                }
            }
            let r = engine_dict(entries);
            proof {
                assert(engine_value_model(r)->Dict_0 =~= n@->Dict_0);
                assert(engine_value_model(r) =~= n@);
            }
            r
        },
    }
}

/// Builds the engine entries a dictionary's native entries stand for: one
/// engine entry per native entry, same key, same order, each value modelling
/// the native value it came from.
pub(crate) fn to_engine_entries(pairs: &Vec<(String, NativeValue)>) -> (r: Vec<
    (String, typst::foundations::Value),
>)
    requires
        forall|k: int| 0 <= k < pairs@.len() ==> dict_keys_distinct(pairs@[k].1@),
    ensures
        r@.len() == pairs@.len(),
        forall|k: int|
            0 <= k < r@.len() ==> r@[k].0@ == pairs@[k].0@ && engine_value_model(r@[k].1)
                == pairs@[k].1@,
{
    let mut out: Vec<(String, typst::foundations::Value)> = Vec::new();
    let mut i: usize = 0;
    while i < pairs.len()
        invariant
            i <= pairs@.len(),
            out@.len() == i,
            forall|k: int| 0 <= k < pairs@.len() ==> dict_keys_distinct(pairs@[k].1@),
            forall|k: int|
                0 <= k < i ==> out@[k].0@ == pairs@[k].0@ && engine_value_model(out@[k].1)
                    == pairs@[k].1@,
        decreases pairs@.len() - i,
    {
        let entry = &pairs[i];
        let key = entry.0.clone();
        let val = to_engine_value(&entry.1);
        out.push((key, val));
        i = i + 1;
    }
    out
}

} // verus!
