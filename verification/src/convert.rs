//! The structural JSON-to-native-value conversion: a pure, total, recursive
//! mapping from a JSON tree to the engine's value tree, preserving structure
//! and order.

use vstd::prelude::*;

use crate::json::{json_model, obj_keys_distinct, JsonModel, JsonNumber, JsonValue};
use crate::native::{dict_keys_distinct, native_model, NativeModel, NativeValue};

verus! {

/// What the conversion yields for each JSON node kind:
/// null becomes the none value; a boolean stays a boolean; an integer is
/// narrowed to 32 bits by truncation; a non-integer number keeps its 64-bit
/// IEEE 754 bit pattern; a string stays a string; an array becomes a sequence
/// of converted elements in order; an object becomes a dictionary of converted
/// entries in the order the object listed them; a number that is neither
/// integer- nor float-representable becomes the none value.
pub open spec fn convert_spec(v: JsonModel) -> NativeModel
    decreases v,
{
    match v {
        JsonModel::Null => NativeModel::Nothing,
        JsonModel::Bool(b) => NativeModel::Bool(b),
        JsonModel::Num(n) => match n {
            JsonNumber::Int(i) => NativeModel::Int(i as i32),
            JsonNumber::Float(bits) => NativeModel::Float(bits),
            JsonNumber::Other => NativeModel::Nothing,
        },
        JsonModel::Str(s) => NativeModel::Str(s),
        JsonModel::Arr(a) => {
            proof {
                assert forall|i: int| 0 <= i < a.len() implies decreases_to!(v => a[i]) by {
                    assert(decreases_to!(v => v->Arr_0));
                    assert(decreases_to!(a => a[i]));
                }
            }
            NativeModel::Arr(
                Seq::new(
                    a.len(),
                    |i: int|
                        if 0 <= i < a.len() {
                            convert_spec(a[i])
                        } else {
                            NativeModel::Nothing
                        },
                ),
            )
        },
        JsonModel::Obj(o) => {
            proof {
                assert forall|i: int| 0 <= i < o.len() implies decreases_to!(v => o[i].1) by {
                    assert(decreases_to!(v => v->Obj_0));
                    assert(decreases_to!(o => o[i]));
                    assert(decreases_to!(o[i] => o[i].1));
                }
            }
            NativeModel::Dict(
                Seq::new(
                    o.len(),
                    |i: int|
                        if 0 <= i < o.len() {
                            (o[i].0, convert_spec(o[i].1))
                        } else {
                            (Seq::empty(), NativeModel::Nothing)
                        },
                ),
            )
        },
    }
}

/// The conversion carries object keys over unchanged, so a tree whose
/// objects all have pairwise-distinct keys converts to a tree whose
/// dictionaries all do.
pub proof fn lemma_convert_keeps_distinct_keys(v: JsonModel)
    requires
        obj_keys_distinct(v),
    ensures
        dict_keys_distinct(convert_spec(v)),
    decreases v,
{
    match v {
        JsonModel::Arr(a) => {
            assert forall|i: int| 0 <= i < a.len() implies dict_keys_distinct(
                convert_spec(v)->Arr_0[i],
            ) by {
                assert(decreases_to!(v => v->Arr_0));
                assert(decreases_to!(a => a[i]));
                assert(obj_keys_distinct(a[i]));
                lemma_convert_keeps_distinct_keys(a[i]);
                assert(convert_spec(v)->Arr_0[i] == convert_spec(a[i]));
            }
        },
        JsonModel::Obj(o) => {
            let d = convert_spec(v)->Dict_0;
            assert forall|i: int| 0 <= i < o.len() implies d[i] == (
                o[i].0,
                convert_spec(o[i].1),
            ) && dict_keys_distinct(d[i].1) by {
                assert(decreases_to!(v => v->Obj_0));
                assert(decreases_to!(o => o[i]));
                assert(decreases_to!(o[i] => o[i].1));
                assert(obj_keys_distinct(o[i].1));
                lemma_convert_keeps_distinct_keys(o[i].1);
                assert(d[i] == (o[i].0, convert_spec(o[i].1)));
            }
            assert(forall|i: int, j: int| 0 <= i < j < d.len() ==> d[i].0 != d[j].0);
        },
        _ => {},
    }
}

/// Converts a JSON tree into the engine's value tree, exactly as
/// `convert_spec` describes: a single depth-first pass that preserves
/// structure and order and narrows integers to 32 bits.
pub fn convert(v: &JsonValue) -> (r: NativeValue)
    ensures
        r@ == convert_spec(v@),
    decreases *v,
{
    match v {
        JsonValue::Null => NativeValue::Nothing,
        JsonValue::Bool(b) => NativeValue::Bool(*b),
        JsonValue::Num(n) => match n {
            JsonNumber::Int(i) => NativeValue::Int(
                #[verifier::truncate]
                (*i as i32),
            ),
            JsonNumber::Float(bits) => NativeValue::Float(*bits),
            JsonNumber::Other => NativeValue::Nothing,
        },
        JsonValue::Str(s) => NativeValue::Str(s.clone()),
        JsonValue::Arr(a) => {
            let mut out: Vec<NativeValue> = Vec::new();
            let mut i: usize = 0;
            while i < a.len()
                invariant
                    i <= a@.len(),
                    out@.len() == i,
                    *v == JsonValue::Arr(*a),
                    forall|k: int|
                        0 <= k < i ==> native_model(out@[k]) == convert_spec(json_model(a@[k])),
                decreases a@.len() - i,
            {
                proof {
                    assert(decreases_to!(*v => (*v)->Arr_0));
                    assert(decreases_to!(*a => a@));
                    assert(decreases_to!(a@ => a@[i as int]));
                }
                let c = convert(&a[i]);
                out.push(c);
                i = i + 1;
            }
            let r = NativeValue::Arr(out);
            proof {
                let m1 = r@;
                let m2 = convert_spec(v@);
                assert(v@->Arr_0.len() == a@.len());
                assert(m1->Arr_0.len() == out@.len());
                assert(m2->Arr_0.len() == a@.len());
                assert forall|k: int| 0 <= k < out@.len() implies m1->Arr_0[k] == m2->Arr_0[k] by {
                    assert(m1->Arr_0[k] == native_model(out@[k]));
                    assert(v@->Arr_0[k] == json_model(a@[k]));
                    assert(m2->Arr_0[k] == convert_spec(v@->Arr_0[k]));
                }
                assert(m1->Arr_0 =~= m2->Arr_0);
                assert(m1 =~= m2);
            }
            r
        },
        JsonValue::Obj(o) => {
            let mut out: Vec<(String, NativeValue)> = Vec::new();
            let mut i: usize = 0;
            while i < o.len()
                invariant
                    i <= o@.len(),
                    out@.len() == i,
                    *v == JsonValue::Obj(*o),
                    forall|k: int|
                        0 <= k < i ==> out@[k].0@ == o@[k].0@ && native_model(out@[k].1)
                            == convert_spec(json_model(o@[k].1)),
                decreases o@.len() - i,
            {
                proof {
                    assert(decreases_to!(*v => (*v)->Obj_0));
                    assert(decreases_to!(*o => o@));
                    assert(decreases_to!(o@ => o@[i as int]));
                    assert(decreases_to!(o@[i as int] => o@[i as int].1));
                }
                let entry = &o[i];
                let key = entry.0.clone();
                let c = convert(&entry.1);
                out.push((key, c));
                i = i + 1;
            }
            let r = NativeValue::Dict(out);
            proof {
                let m1 = r@;
                let m2 = convert_spec(v@);
                assert(v@->Obj_0.len() == o@.len());
                assert(m1->Dict_0.len() == out@.len());
                assert(m2->Dict_0.len() == o@.len());
                assert forall|k: int| 0 <= k < out@.len() implies m1->Dict_0[k] == m2->Dict_0[k]
                by {
                    assert(m1->Dict_0[k] == (out@[k].0@, native_model(out@[k].1)));
                    assert(v@->Obj_0[k] == (o@[k].0@, json_model(o@[k].1)));
                    assert(m2->Dict_0[k] == (v@->Obj_0[k].0, convert_spec(v@->Obj_0[k].1)));
                }
                assert(m1->Dict_0 =~= m2->Dict_0);
                assert(m1 =~= m2);
            }
            r
        },
    }
}

} // verus!
