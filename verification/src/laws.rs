//! Laws of the conversion: every JSON tree maps to a native tree of exactly
//! mirrored shape, and on the subset of booleans, strings and 32-bit-range
//! integers the conversion loses nothing.

use vstd::prelude::*;

use crate::convert::convert_spec;
use crate::json::{JsonModel, JsonNumber};
use crate::native::NativeModel;

verus! {

/// Structural correspondence between a JSON tree and a native tree: matching
/// node kinds, matching child counts, children in the same order, and object
/// keys carried over unchanged, recursively.
pub open spec fn mirrors(v: JsonModel, n: NativeModel) -> bool
    decreases v,
{
    match v {
        JsonModel::Null => n is Nothing,
        JsonModel::Bool(_) => n is Bool,
        JsonModel::Num(num) => match num {
            JsonNumber::Int(_) => n is Int,
            JsonNumber::Float(_) => n is Float,
            JsonNumber::Other => n is Nothing,
        },
        JsonModel::Str(_) => n is Str,
        JsonModel::Arr(a) => {
            proof {
                assert forall|i: int| 0 <= i < a.len() implies decreases_to!(v => a[i]) by {
                    assert(decreases_to!(v => v->Arr_0));
                    assert(decreases_to!(a => a[i]));
                }
            }
            &&& n is Arr
            &&& n->Arr_0.len() == a.len()
            &&& forall|i: int| 0 <= i < a.len() ==> mirrors(a[i], n->Arr_0[i])
        },
        JsonModel::Obj(o) => {
            proof {
                assert forall|i: int| 0 <= i < o.len() implies decreases_to!(v => o[i].1) by {
                    assert(decreases_to!(v => v->Obj_0));
                    assert(decreases_to!(o => o[i]));
                    assert(decreases_to!(o[i] => o[i].1));
                }
            }
            &&& n is Dict
            &&& n->Dict_0.len() == o.len()
            &&& forall|i: int|
                0 <= i < o.len() ==> n->Dict_0[i].0 == o[i].0 && mirrors(o[i].1, n->Dict_0[i].1)
        },
    }
}

/// Law: for every JSON tree, the conversion terminates and its result mirrors
/// the input's structural shape — node kind, child count, child order, and
/// object keys in their original order.
pub proof fn lemma_convert_mirrors(v: JsonModel)
    ensures
        mirrors(v, convert_spec(v)),
    decreases v,
{
    match v {
        JsonModel::Arr(a) => {
            assert forall|i: int| 0 <= i < a.len() implies mirrors(
                a[i],
                convert_spec(v)->Arr_0[i],
            ) by {
                assert(decreases_to!(v => v->Arr_0));
                assert(decreases_to!(a => a[i]));
                lemma_convert_mirrors(a[i]);
                assert(convert_spec(v)->Arr_0[i] == convert_spec(a[i]));
            }
        },
        JsonModel::Obj(o) => {
            assert forall|i: int| 0 <= i < o.len() implies convert_spec(v)->Dict_0[i].0 == o[i].0
                && mirrors(o[i].1, convert_spec(v)->Dict_0[i].1) by {
                assert(decreases_to!(v => v->Obj_0));
                assert(decreases_to!(o => o[i]));
                assert(decreases_to!(o[i] => o[i].1));
                lemma_convert_mirrors(o[i].1);
                assert(convert_spec(v)->Dict_0[i] == (o[i].0, convert_spec(o[i].1)));
            }
        },
        _ => {},
    }
}

/// The inverse reading of a native tree as a JSON tree, defined on every
/// native value: the none value reads back as null, a 32-bit integer widens
/// to 64 bits, and sequences and dictionaries read back element by element.
pub open spec fn json_of_native(n: NativeModel) -> JsonModel
    decreases n,
{
    match n {
        NativeModel::Nothing => JsonModel::Null,
        NativeModel::Bool(b) => JsonModel::Bool(b),
        NativeModel::Int(i) => JsonModel::Num(JsonNumber::Int(i as i64)),
        NativeModel::Float(bits) => JsonModel::Num(JsonNumber::Float(bits)),
        NativeModel::Str(s) => JsonModel::Str(s),
        NativeModel::Arr(a) => {
            proof {
                assert forall|i: int| 0 <= i < a.len() implies decreases_to!(n => a[i]) by {
                    assert(decreases_to!(n => n->Arr_0));
                    assert(decreases_to!(a => a[i]));
                }
            }
            JsonModel::Arr(
                Seq::new(
                    a.len(),
                    |i: int|
                        if 0 <= i < a.len() {
                            json_of_native(a[i])
                        } else {
                            JsonModel::Null
                        },
                ),
            )
        },
        NativeModel::Dict(d) => {
            proof {
                assert forall|i: int| 0 <= i < d.len() implies decreases_to!(n => d[i].1) by {
                    assert(decreases_to!(n => n->Dict_0));
                    assert(decreases_to!(d => d[i]));
                    assert(decreases_to!(d[i] => d[i].1));
                }
            }
            JsonModel::Obj(
                Seq::new(
                    d.len(),
                    |i: int|
                        if 0 <= i < d.len() {
                            (d[i].0, json_of_native(d[i].1))
                        } else {
                            (Seq::empty(), JsonModel::Null)
                        },
                ),
            )
        },
    }
}

/// The JSON trees built from booleans, strings, and integers within the
/// 32-bit signed range alone, including arrays and objects of such values.
pub open spec fn round_trippable(v: JsonModel) -> bool
    decreases v,
{
    match v {
        JsonModel::Null => false,
        JsonModel::Bool(_) => true,
        JsonModel::Num(num) => match num {
            JsonNumber::Int(i) => i32::MIN <= i <= i32::MAX,
            JsonNumber::Float(_) => false,
            JsonNumber::Other => false,
        },
        JsonModel::Str(_) => true,
        JsonModel::Arr(a) => {
            proof {
                assert forall|i: int| 0 <= i < a.len() implies decreases_to!(v => a[i]) by {
                    assert(decreases_to!(v => v->Arr_0));
                    assert(decreases_to!(a => a[i]));
                }
            }
            forall|i: int| 0 <= i < a.len() ==> round_trippable(a[i])
        },
        JsonModel::Obj(o) => {
            proof {
                assert forall|i: int| 0 <= i < o.len() implies decreases_to!(v => o[i].1) by {
                    assert(decreases_to!(v => v->Obj_0));
                    assert(decreases_to!(o => o[i]));
                    assert(decreases_to!(o[i] => o[i].1));
                }
            }
            forall|i: int| 0 <= i < o.len() ==> round_trippable(o[i].1)
        },
    }
}

/// Law: on JSON trees restricted to booleans, strings, and integers within
/// the 32-bit signed range, converting and then reading the result back as
/// JSON recovers the original tree exactly.
pub proof fn lemma_round_trip(v: JsonModel)
    requires
        round_trippable(v),
    ensures
        json_of_native(convert_spec(v)) == v,
    decreases v,
{
    match v {
        JsonModel::Arr(a) => {
            assert forall|i: int| 0 <= i < a.len() implies json_of_native(
                convert_spec(v)->Arr_0[i],
            ) == a[i] by {
                assert(decreases_to!(v => v->Arr_0));
                assert(decreases_to!(a => a[i]));
                assert(round_trippable(a[i]));
                lemma_round_trip(a[i]);
                assert(convert_spec(v)->Arr_0[i] == convert_spec(a[i]));
            }
            assert(json_of_native(convert_spec(v))->Arr_0 =~= a);
            assert(json_of_native(convert_spec(v)) =~= v);
        },
        JsonModel::Obj(o) => {
            assert forall|i: int| 0 <= i < o.len() implies json_of_native(convert_spec(v))->Obj_0[i]
                == o[i] by {
                assert(decreases_to!(v => v->Obj_0));
                assert(decreases_to!(o => o[i]));
                assert(decreases_to!(o[i] => o[i].1));
                assert(round_trippable(o[i].1));
                lemma_round_trip(o[i].1);
                assert(convert_spec(v)->Dict_0[i] == (o[i].0, convert_spec(o[i].1)));
            }
            assert(json_of_native(convert_spec(v))->Obj_0 =~= o);
            assert(json_of_native(convert_spec(v)) =~= v);
        },
        _ => {},
    }
}

} // verus!
