//! The library's own model of a JSON value tree: the six standard node kinds,
//! with numbers split by how the host's parser classified them.

use vstd::prelude::*;

verus! {

/// A JSON number as the host's parser hands it over: either exactly
/// representable as a 64-bit signed integer, or representable as a 64-bit
/// IEEE 754 value (carried here by its bit pattern), or neither.
#[derive(Debug, Clone, Copy, PartialEq, Eq)]
pub enum JsonNumber {
    /// The number is exactly a 64-bit signed integer.
    Int(i64),
    /// The number is not integer-representable; the field holds the bit
    /// pattern of its 64-bit IEEE 754 reading.
    Float(u64),
    /// The number is neither integer- nor float-representable. Well-formed
    /// parsers never produce this; it exists as a defensive fallback.
    Other,
}

/// A JSON value tree. Object entries keep the order in which the source
/// text listed them; keys are not deduplicated here.
#[derive(Debug, PartialEq, Eq)]
pub enum JsonValue {
    Null,
    Bool(bool),
    Num(JsonNumber),
    Str(String),
    Arr(Vec<JsonValue>),
    Obj(Vec<(String, JsonValue)>),
}

/// The mathematical shape of a `JsonValue`: strings become `Seq<char>`,
/// vectors become `Seq`.
#[verifier::ext_equal]
pub enum JsonModel {
    Null,
    Bool(bool),
    Num(JsonNumber),
    Str(Seq<char>),
    Arr(Seq<JsonModel>),
    Obj(Seq<(Seq<char>, JsonModel)>),
}

/// The abstraction of a `JsonValue` as a `JsonModel`. The range tests inside
/// the closures keep the recursion on elements of the vectors, which is what
/// bounds it.
pub open spec fn json_model(j: JsonValue) -> JsonModel
    decreases j,
{
    match j {
        JsonValue::Null => JsonModel::Null,
        JsonValue::Bool(b) => JsonModel::Bool(b),
        JsonValue::Num(n) => JsonModel::Num(n),
        JsonValue::Str(s) => JsonModel::Str(s@),
        JsonValue::Arr(a) => {
            proof {
                assert forall|i: int| 0 <= i < a@.len() implies decreases_to!(j => a@[i]) by {
                    assert(decreases_to!(j => j->Arr_0));
                    assert(decreases_to!(a => a@));
                    assert(decreases_to!(a@ => a@[i]));
                }
            }
            JsonModel::Arr(
                Seq::new(
                    a@.len(),
                    |i: int|
                        if 0 <= i < a@.len() {
                            json_model(a@[i])
                        } else {
                            JsonModel::Null
                        },
                ),
            )
        },
        JsonValue::Obj(o) => {
            proof {
                assert forall|i: int| 0 <= i < o@.len() implies decreases_to!(j => o@[i].1) by {
                    assert(decreases_to!(j => j->Obj_0));
                    assert(decreases_to!(o => o@));
                    assert(decreases_to!(o@ => o@[i]));
                    assert(decreases_to!(o@[i] => o@[i].1));
                }
            }
            JsonModel::Obj(
                Seq::new(
                    o@.len(),
                    |i: int|
                        if 0 <= i < o@.len() {
                            (o@[i].0@, json_model(o@[i].1))
                        } else {
                            (Seq::empty(), JsonModel::Null)
                        },
                ),
            )
        },
    }
}

impl View for JsonValue {
    type V = JsonModel;

    open spec fn view(&self) -> JsonModel {
        json_model(*self)
    }
}

/// Whether every object anywhere in the tree has pairwise-distinct keys.
/// Trees parsed from JSON text hold this, since the parser's map type keeps
/// one entry per key.
pub open spec fn obj_keys_distinct(v: JsonModel) -> bool
    decreases v,
{
    match v {
        JsonModel::Null => true,
        JsonModel::Bool(_) => true,
        JsonModel::Num(_) => true,
        JsonModel::Str(_) => true,
        JsonModel::Arr(a) => {
            proof {
                assert forall|i: int| 0 <= i < a.len() implies decreases_to!(v => a[i]) by {
                    assert(decreases_to!(v => v->Arr_0));
                    assert(decreases_to!(a => a[i]));
                }
            }
            forall|i: int| 0 <= i < a.len() ==> obj_keys_distinct(a[i])
        },
        JsonModel::Obj(o) => {
            proof {
                assert forall|i: int| 0 <= i < o.len() implies decreases_to!(v => o[i].1) by {
                    assert(decreases_to!(v => v->Obj_0));
                    assert(decreases_to!(o => o[i]));
                    assert(decreases_to!(o[i] => o[i].1));
                }
            }
            &&& forall|i: int, j: int| 0 <= i < j < o.len() ==> o[i].0 != o[j].0
            &&& forall|i: int| 0 <= i < o.len() ==> obj_keys_distinct(o[i].1)
        },
    }
}

} // verus!
