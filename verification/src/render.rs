//! The render entry point: decode the options, build an engine from the
//! template and fonts, convert the data into the engine's input dictionary,
//! compile, and export the result as PDF bytes.

use vstd::prelude::*;

use crate::convert::{convert, convert_spec, lemma_convert_keeps_distinct_keys};
use crate::engine::{
    build_engine, compile_document, export_pdf, pdf_header, to_engine_entries,
};
use crate::json::{obj_keys_distinct, JsonValue};
use crate::native::{native_model, NativeValue};
use crate::options::{decode_error_spec, decode_options, decode_options_spec, RenderOptions};

verus! {

/// Renders with already-decoded options: builds the engine from the template
/// and fonts, converts the data tree into the engine's input dictionary,
/// compiles the main file, and exports it as PDF bytes. The data must be an
/// object with pairwise-distinct keys throughout, since the engine takes a
/// dictionary — one entry per key — as its input context. Success yields the
/// exporter's bytes, which begin with the PDF header; every failure,
/// the exporter's included, is carried back as a recoverable error string
/// with a non-empty diagnostic rather than ending the call abnormally.
pub fn render_with_options(options: RenderOptions, data: &JsonValue) -> (r: Result<Vec<u8>, String>)
    requires
        data@ is Obj,
        obj_keys_distinct(data@),
    ensures
        r matches Ok(b) ==> b@.len() >= 5 && b@.subrange(0, 5) == pdf_header(),
        r matches Err(m) ==> m@.len() > 0,
{
    let engine = build_engine(options.template.as_str(), options.font);
    let converted = convert(data);
    proof {
        lemma_convert_keeps_distinct_keys(data@);
        assert(convert_spec(data@) is Dict);
    }
    let ghost cm = converted@;
    match converted {
        NativeValue::Dict(pairs) => {
            proof {
                assert(cm == native_model(NativeValue::Dict(pairs)));
                assert forall|k: int|
                    0 <= k < pairs@.len() implies crate::native::dict_keys_distinct(
                    pairs@[k].1@,
                ) by {
                    assert(cm->Dict_0[k] == (pairs@[k].0@, native_model(pairs@[k].1)));
                }
            }
            let input = to_engine_entries(&pairs);
            let doc = match compile_document(&engine, input) {
                Ok(doc) => doc,
                Err(m) => {
                    return Err(m);
                },
            };
            match export_pdf(&doc) {
                Ok(bytes) => Ok(bytes),
                Err(m) => Err(m),
            }
        },
        _ => {
            proof {
                assert(false);
            }
            Err(String::new())
        },
    }
}

/// The render entry point: decodes the options value, then renders the data
/// with them. A value that does not decode to render options is rejected,
/// with the decoder's own diagnostic, before any engine is built; success
/// yields the exporter's bytes, which begin with the PDF header; every
/// failure carries a non-empty diagnostic string.
pub fn render_pdf(options: &JsonValue, data: &JsonValue) -> (r: Result<Vec<u8>, String>)
    requires
        data@ is Obj,
        obj_keys_distinct(data@),
    ensures
        decode_options_spec(options@) is None ==> (r matches Err(m) && m@ == decode_error_spec(
            options@,
        )),
        r is Ok ==> decode_options_spec(options@) is Some,
        r matches Ok(b) ==> b@.len() >= 5 && b@.subrange(0, 5) == pdf_header(),
        r matches Err(m) ==> m@.len() > 0,
{
    let opts = match decode_options(options) {
        Ok(opts) => opts,
        Err(m) => {
            return Err(m);
        },
    };
    render_with_options(opts, data)
}

} // verus!
