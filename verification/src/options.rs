//! Decoding of the render options: an object with a `template` string and a
//! `font` array of byte arrays. Decoding succeeds exactly on values of that
//! shape; anything else is a decoding failure carried as a diagnostic string.

use vstd::prelude::*;

use crate::json::{json_model, JsonModel, JsonNumber, JsonValue};

verus! {

/// The options a render call is configured with: the template source text and
/// the font files to load, each an embedded binary blob.
#[derive(Debug, PartialEq, Eq)]
pub struct RenderOptions {
    pub template: String,
    pub font: Vec<Vec<u8>>,
}

/// The mathematical shape of `RenderOptions`.
#[verifier::ext_equal]
pub struct RenderOptionsModel {
    pub template: Seq<char>,
    pub font: Seq<Seq<u8>>,
}

impl View for RenderOptions {
    type V = RenderOptionsModel;

    open spec fn view(&self) -> RenderOptionsModel {
        RenderOptionsModel {
            template: self.template@,
            font: Seq::new(self.font@.len(), |i: int| self.font@[i]@),
        }
    }
}

/// The value of the first entry with the given key, if any.
pub open spec fn find_entry(o: Seq<(Seq<char>, JsonModel)>, key: Seq<char>) -> Option<JsonModel>
    decreases o.len(),
{
    if o.len() == 0 {
        None
    } else if o[0].0 == key {
        Some(o[0].1)
    } else {
        find_entry(o.drop_first(), key)
    }
}

/// A JSON value standing for a single byte: an integer between 0 and 255.
pub open spec fn is_byte_value(v: JsonModel) -> bool {
    &&& v matches JsonModel::Num(n)
    &&& n matches JsonNumber::Int(i)
    &&& 0 <= i <= 255
}

/// A JSON value standing for a byte sequence: an array of byte values.
pub open spec fn is_byte_array(v: JsonModel) -> bool {
    &&& v matches JsonModel::Arr(a)
    &&& forall|i: int| 0 <= i < a.len() ==> is_byte_value(a[i])
}

/// The byte sequence a byte-array-shaped JSON value stands for.
pub open spec fn byte_seq_of(v: JsonModel) -> Seq<u8>
    recommends
        is_byte_array(v),
{
    Seq::new(v->Arr_0.len(), |i: int| v->Arr_0[i]->Num_0->Int_0 as u8)
}

/// Whether every element of a sequence of JSON values is a byte array.
pub open spec fn fonts_ok(fa: Seq<JsonModel>) -> bool {
    forall|i: int| 0 <= i < fa.len() ==> is_byte_array(fa[i])
}

/// The byte sequences a sequence of byte-array-shaped JSON values stands for.
pub open spec fn fonts_of(fa: Seq<JsonModel>) -> Seq<Seq<u8>> {
    Seq::new(fa.len(), |i: int| byte_seq_of(fa[i]))
}

/// What decoding the options yields: the template text and font blobs when
/// the value is an object whose first `template` entry is a string and whose
/// first `font` entry is an array of byte arrays, and nothing otherwise.
pub open spec fn decode_options_spec(v: JsonModel) -> Option<RenderOptionsModel> {
    match v {
        JsonModel::Obj(o) => match (find_entry(o, "template"@), find_entry(o, "font"@)) {
            (Some(JsonModel::Str(ts)), Some(JsonModel::Arr(fa))) => if fonts_ok(fa) {
                Some(RenderOptionsModel { template: ts, font: fonts_of(fa) })
            } else {
                None
            },
            _ => None,
        },
        _ => None,
    }
}

/// The models of the elements of a vector of JSON values, in order.
pub open spec fn models_of(s: Seq<JsonValue>) -> Seq<JsonModel> {
    Seq::new(s.len(), |i: int| json_model(s[i]))
}

/// The diagnostic decoding yields when it fails: it names the first thing
/// that does not fit — the value not being an object, the `template` field,
/// or the `font` field.
pub open spec fn decode_error_spec(v: JsonModel) -> Seq<char>
    recommends
        decode_options_spec(v) is None,
{
    match v {
        JsonModel::Obj(o) => match find_entry(o, "template"@) {
            Some(JsonModel::Str(_)) => "options field font is missing or not an array of byte arrays"@,
            _ => "options field template is missing or not a string"@,
        },
        _ => "options value is not an object"@,
    }
}

proof fn lemma_find_entry_at(s: Seq<(Seq<char>, JsonModel)>, key: Seq<char>, i: int)
    requires
        0 <= i < s.len(),
        s[i].0 == key,
        forall|k: int| 0 <= k < i ==> s[k].0 != key,
    ensures
        find_entry(s, key) == Some(s[i].1),
    decreases i,
{
    if i > 0 {
        assert(s[0].0 != key);
        assert(forall|k: int| 0 <= k < i - 1 ==> s.drop_first()[k] == s[k + 1]);
        assert(s.drop_first()[i - 1] == s[i]);
        lemma_find_entry_at(s.drop_first(), key, i - 1);
    }
}

proof fn lemma_find_entry_none(s: Seq<(Seq<char>, JsonModel)>, key: Seq<char>)
    requires
        forall|k: int| 0 <= k < s.len() ==> s[k].0 != key,
    ensures
        find_entry(s, key) is None,
    decreases s.len(),
{
    if s.len() > 0 {
        assert(forall|k: int| 0 <= k < s.len() - 1 ==> s.drop_first()[k] == s[k + 1]);
        lemma_find_entry_none(s.drop_first(), key);
    }
}

/// The index of the first entry whose key equals `key`, if any.
fn find_key(entries: &Vec<(String, JsonValue)>, key: &String) -> (r: Option<usize>)
    ensures
        match r {
            Some(i) => i < entries@.len() && entries@[i as int].0@ == key@ && forall|k: int|
                0 <= k < i ==> entries@[k].0@ != key@,
            None => forall|k: int| 0 <= k < entries@.len() ==> entries@[k].0@ != key@,
        },
{
    let mut i: usize = 0;
    while i < entries.len()
        invariant
            i <= entries@.len(),
            forall|k: int| 0 <= k < i ==> entries@[k].0@ != key@,
        decreases entries@.len() - i,
    {
        if entries[i].0 == *key {
            return Some(i);
        }
        i = i + 1;
    }
    None
}

/// Reads one font blob: succeeds exactly on an array of integers between 0
/// and 255, and yields those bytes in order.
fn decode_byte_array(v: &JsonValue) -> (r: Option<Vec<u8>>)
    ensures
        r is Some <==> is_byte_array(v@),
        r matches Some(bs) ==> bs@ == byte_seq_of(v@),
{
    let a = match v {
        JsonValue::Arr(a) => a,
        _ => {
            return None;
        },
    };
    let mut bytes: Vec<u8> = Vec::new();
    let mut i: usize = 0;
    while i < a.len()
        invariant
            i <= a@.len(),
            bytes@.len() == i,
            *v == JsonValue::Arr(*a),
            forall|k: int| 0 <= k < i ==> is_byte_value(json_model(a@[k])),
            forall|k: int| 0 <= k < i ==> bytes@[k] == v@->Arr_0[k]->Num_0->Int_0 as u8,
        decreases a@.len() - i,
    {
        match &a[i] {
            JsonValue::Num(n) => match n {
                JsonNumber::Int(x) => {
                    let xi: i64 = *x;
                    if 0 <= xi && xi <= 255 {
                        bytes.push(xi as u8);
                    } else {
                        assert(!is_byte_value(v@->Arr_0[i as int]));
                        return None;
                    }
                },
                _ => {
                    assert(!is_byte_value(v@->Arr_0[i as int]));
                    return None;
                },
            },
            _ => {
                assert(!is_byte_value(v@->Arr_0[i as int]));
                return None;
            },
        }
        i = i + 1;
    }
    proof {
        assert(forall|k: int| 0 <= k < a@.len() ==> v@->Arr_0[k] == json_model(a@[k]));
        assert(bytes@ =~= byte_seq_of(v@));
    }
    Some(bytes)
}

/// Reads the font list: succeeds exactly when every element is a byte array,
/// and yields the blobs in order.
fn decode_fonts(fa: &Vec<JsonValue>) -> (r: Option<Vec<Vec<u8>>>)
    ensures
        r is Some <==> fonts_ok(models_of(fa@)),
        r matches Some(fs) ==> Seq::new(fs@.len(), |i: int| fs@[i]@) == fonts_of(models_of(fa@)),
{
    let mut fonts: Vec<Vec<u8>> = Vec::new();
    let mut i: usize = 0;
    while i < fa.len()
        invariant
            i <= fa@.len(),
            fonts@.len() == i,
            forall|k: int| 0 <= k < i ==> is_byte_array(json_model(fa@[k])),
            forall|k: int| 0 <= k < i ==> fonts@[k]@ == byte_seq_of(json_model(fa@[k])),
        decreases fa@.len() - i,
    {
        match decode_byte_array(&fa[i]) {
            Some(bs) => {
                fonts.push(bs);
            },
            None => {
                assert(!is_byte_array(models_of(fa@)[i as int]));
                return None;
            },
        }
        i = i + 1;
    }
    proof {
        assert(forall|k: int| 0 <= k < fa@.len() ==> models_of(fa@)[k] == json_model(fa@[k]));
        assert(Seq::new(fonts@.len(), |k: int| fonts@[k]@) =~= fonts_of(models_of(fa@)));
    }
    Some(fonts)
}

/// Decodes a JSON value into `RenderOptions`: exactly the values of the shape
/// `decode_options_spec` accepts succeed; every failure carries the
/// decoder's own non-empty diagnostic, as `decode_error_spec` states it.
pub fn decode_options(v: &JsonValue) -> (r: Result<RenderOptions, String>)
    ensures
        r is Ok <==> decode_options_spec(v@) is Some,
        r matches Ok(opts) ==> Some(opts@) == decode_options_spec(v@),
        r matches Err(m) ==> m@ == decode_error_spec(v@) && m@.len() > 0,
{
    let entries = match v {
        JsonValue::Obj(o) => o,
        _ => {
            proof {
                reveal_strlit("options value is not an object");
            }
            return Err("options value is not an object".to_owned());
        },
    };
    let ghost om = v@->Obj_0;
    proof {
        assert(forall|k: int|
            0 <= k < entries@.len() ==> om[k] == (entries@[k].0@, json_model(entries@[k].1)));
    }
    let template_key: String = "template".to_owned();
    let template = match find_key(entries, &template_key) {
        Some(ti) => {
            proof {
                assert(forall|k: int| 0 <= k < ti ==> om[k].0 != "template"@);
                lemma_find_entry_at(om, "template"@, ti as int);
            }
            match &entries[ti].1 {
                JsonValue::Str(s) => {
                    proof {
                        assert(find_entry(om, "template"@) matches Some(jv) && jv is Str);
                    }
                    s.clone()
                },
                _ => {
                    proof {
                        reveal_strlit("options field template is missing or not a string");
                    }
                    return Err("options field template is missing or not a string".to_owned());
                },
            }
        },
        None => {
            proof {
                assert(forall|k: int| 0 <= k < om.len() ==> om[k].0 != "template"@);
                lemma_find_entry_none(om, "template"@);
                reveal_strlit("options field template is missing or not a string");
            }
            return Err("options field template is missing or not a string".to_owned());
        },
    };
    let font_key: String = "font".to_owned();
    let font = match find_key(entries, &font_key) {
        Some(fi) => {
            proof {
                assert(forall|k: int| 0 <= k < fi ==> om[k].0 != "font"@);
                lemma_find_entry_at(om, "font"@, fi as int);
            }
            match &entries[fi].1 {
                JsonValue::Arr(fa) => {
                    proof {
                        assert(json_model(entries@[fi as int].1)->Arr_0 =~= models_of(fa@));
                    }
                    match decode_fonts(fa) {
                        Some(fs) => fs,
                        None => {
                            proof {
                                reveal_strlit(
                                    "options field font is missing or not an array of byte arrays",
                                );
                            }
                            return Err(
                                "options field font is missing or not an array of byte arrays".to_owned(),
                            );
                        },
                    }
                },
                _ => {
                    proof {
                        reveal_strlit(
                            "options field font is missing or not an array of byte arrays",
                        );
                    }
                    return Err(
                        "options field font is missing or not an array of byte arrays".to_owned(),
                    );
                },
            }
        },
        None => {
            proof {
                assert(forall|k: int| 0 <= k < om.len() ==> om[k].0 != "font"@);
                lemma_find_entry_none(om, "font"@);
                reveal_strlit("options field font is missing or not an array of byte arrays");
            }
            return Err("options field font is missing or not an array of byte arrays".to_owned());
        },
    };
    let opts = RenderOptions { template, font };
    proof {
        assert(opts@.font =~= decode_options_spec(v@)->Some_0.font);
        assert(opts@ =~= decode_options_spec(v@)->Some_0);
    }
    Ok(opts)
}

} // verus!
