//! The library's own model of the typesetting engine's value tree, holding as
//! plain values exactly the kinds that the data conversion produces.

use vstd::prelude::*;

verus! {

/// An engine value as the data conversion produces it: the none value,
/// a boolean, a 32-bit signed integer, a 64-bit IEEE 754 number (carried by
/// its bit pattern), a string, an ordered sequence, or an ordered key-value
/// dictionary.
#[derive(Debug, PartialEq, Eq)]
pub enum NativeValue {
    Nothing,
    Bool(bool),
    Int(i32),
    Float(u64),
    Str(String),
    Arr(Vec<NativeValue>),
    Dict(Vec<(String, NativeValue)>),
}

/// The mathematical shape of a `NativeValue`.
#[verifier::ext_equal]
pub enum NativeModel {
    Nothing,
    Bool(bool),
    Int(i32),
    Float(u64),
    Str(Seq<char>),
    Arr(Seq<NativeModel>),
    Dict(Seq<(Seq<char>, NativeModel)>),
}

/// The abstraction of a `NativeValue` as a `NativeModel`. The range tests
/// inside the closures keep the recursion on elements of the vectors, which
/// is what bounds it.
pub open spec fn native_model(n: NativeValue) -> NativeModel
    decreases n,
{
    match n {
        NativeValue::Nothing => NativeModel::Nothing,
        NativeValue::Bool(b) => NativeModel::Bool(b),
        NativeValue::Int(i) => NativeModel::Int(i),
        NativeValue::Float(bits) => NativeModel::Float(bits),
        NativeValue::Str(s) => NativeModel::Str(s@),
        NativeValue::Arr(a) => {
            proof {
                assert forall|i: int| 0 <= i < a@.len() implies decreases_to!(n => a@[i]) by {
                    assert(decreases_to!(n => n->Arr_0));
                    assert(decreases_to!(a => a@));
                    assert(decreases_to!(a@ => a@[i]));
                }
            }
            NativeModel::Arr(
                Seq::new(
                    a@.len(),
                    |i: int|
                        if 0 <= i < a@.len() {
                            native_model(a@[i])
                        } else {
                            NativeModel::Nothing
                        },
                ),
            )
        },
        NativeValue::Dict(d) => {
            proof {
                assert forall|i: int| 0 <= i < d@.len() implies decreases_to!(n => d@[i].1) by {
                    assert(decreases_to!(n => n->Dict_0));
                    assert(decreases_to!(d => d@));
                    assert(decreases_to!(d@ => d@[i]));
                    assert(decreases_to!(d@[i] => d@[i].1));
                }
            }
            NativeModel::Dict(
                Seq::new(
                    d@.len(),
                    |i: int|
                        if 0 <= i < d@.len() {
                            (d@[i].0@, native_model(d@[i].1))
                        } else {
                            (Seq::empty(), NativeModel::Nothing)
                        },
                ),
            )
        },
    }
}

impl View for NativeValue {
    type V = NativeModel;

    open spec fn view(&self) -> NativeModel {
        native_model(*self)
    }
}

/// Whether every dictionary anywhere in the tree has pairwise-distinct keys.
/// The engine's dictionary type keeps one entry per key, so only such trees
/// can be handed over without loss.
pub open spec fn dict_keys_distinct(n: NativeModel) -> bool
    decreases n,
{
    match n {
        NativeModel::Nothing => true,
        NativeModel::Bool(_) => true,
        NativeModel::Int(_) => true,
        NativeModel::Float(_) => true,
        NativeModel::Str(_) => true,
        NativeModel::Arr(a) => {
            proof {
                assert forall|i: int| 0 <= i < a.len() implies decreases_to!(n => a[i]) by {
                    assert(decreases_to!(n => n->Arr_0));
                    assert(decreases_to!(a => a[i]));
                }
            }
            forall|i: int| 0 <= i < a.len() ==> dict_keys_distinct(a[i])
        },
        NativeModel::Dict(d) => {
            proof {
                assert forall|i: int| 0 <= i < d.len() implies decreases_to!(n => d[i].1) by {
                    assert(decreases_to!(n => n->Dict_0));
                    assert(decreases_to!(d => d[i]));
                    assert(decreases_to!(d[i] => d[i].1));
                }
            }
            &&& forall|i: int, j: int| 0 <= i < j < d.len() ==> d[i].0 != d[j].0
            &&& forall|i: int| 0 <= i < d.len() ==> dict_keys_distinct(d[i].1)
        },
    }
}

} // verus!
