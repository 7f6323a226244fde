//! A JSON tree owned by the crate, and access to it.
//!
//! Response bodies arrive as text.  The text is handed to `serde_json` once,
//! behind [`parse_json`]; everything after that point — finding fields,
//! checking their types, tolerating absent optional fields — is verified code
//! over the crate's own [`JsonValue`] tree and its mathematical model
//! [`JsonModel`].

use vstd::prelude::*;

verus! {

broadcast use vstd::std_specs::vec::group_vec_axioms;

/// The mathematical model of a JSON tree.  Numbers keep only their `u64`
/// value, when they have one: no decoded response field needs more.
pub enum JsonModel {
    Null,
    Bool(bool),
    Num(Option<u64>),
    Str(Seq<char>),
    Arr(Seq<JsonModel>),
    Obj(Seq<(Seq<char>, JsonModel)>),
}

/// One `key: value` member of a JSON object.
pub struct JsonMember {
    pub key: String,
    pub value: JsonValue,
}

/// A JSON tree as executable data.
pub enum JsonValue {
    Null,
    Bool(bool),
    Num(Option<u64>),
    Str(String),
    Arr(Vec<JsonValue>),
    Obj(Vec<JsonMember>),
}

/// The model of an executable JSON tree.
pub open spec fn model_of(v: JsonValue) -> JsonModel
    decreases v,
    via model_of_decreases
{
    match v {
        JsonValue::Null => JsonModel::Null,
        JsonValue::Bool(b) => JsonModel::Bool(b),
        JsonValue::Num(n) => JsonModel::Num(n),
        JsonValue::Str(s) => JsonModel::Str(s@),
        JsonValue::Arr(items) => JsonModel::Arr(models_of(items@)),
        JsonValue::Obj(members) => JsonModel::Obj(members_model_of(members@)),
    }
}

/// The models of a sequence of values, element by element.
pub open spec fn models_of(items: Seq<JsonValue>) -> Seq<JsonModel>
    decreases items,
{
    if items.len() == 0 {
        Seq::empty()
    } else {
        seq![model_of(items[0])] + models_of(items.subrange(1, items.len() as int))
    }
}

/// The models of a sequence of object members, element by element.
pub open spec fn members_model_of(members: Seq<JsonMember>) -> Seq<(Seq<char>, JsonModel)>
    decreases members,
{
    if members.len() == 0 {
        Seq::empty()
    } else {
        seq![member_model(members[0])] + members_model_of(
            members.subrange(1, members.len() as int),
        )
    }
}

/// The model of one object member.
pub open spec fn member_model(m: JsonMember) -> (Seq<char>, JsonModel)
    decreases m,
{
    (m.key@, model_of(m.value))
}

#[via_fn]
proof fn model_of_decreases(v: JsonValue) {
    match v {
        JsonValue::Arr(items) => {
            assert(decreases_to!(v => items));
            assert(decreases_to!(items => items@));
        },
        JsonValue::Obj(members) => {
            assert(decreases_to!(v => members));
            assert(decreases_to!(members => members@));
        },
        _ => {
        },
    }
}

/// `models_of` maps the sequence element by element.
pub proof fn lemma_models_of(items: Seq<JsonValue>)
    ensures
        models_of(items).len() == items.len(),
        forall|i: int| 0 <= i < items.len() ==> models_of(items)[i] == model_of(items[i]),
    decreases items.len(),
{
    if items.len() > 0 {
        lemma_models_of(items.subrange(1, items.len() as int));
        assert forall|i: int| 0 <= i < items.len() implies models_of(items)[i] == model_of(
            items[i],
        ) by {
            if i > 0 {
                assert(items.subrange(1, items.len() as int)[i - 1] == items[i]);
            }
        }
    }
}

/// `members_model_of` maps the sequence element by element.
pub proof fn lemma_members_model_of(members: Seq<JsonMember>)
    ensures
        members_model_of(members).len() == members.len(),
        forall|i: int|
            0 <= i < members.len() ==> members_model_of(members)[i] == member_model(members[i]),
    decreases members.len(),
{
    if members.len() > 0 {
        lemma_members_model_of(members.subrange(1, members.len() as int));
        assert forall|i: int| 0 <= i < members.len() implies members_model_of(members)[i]
            == member_model(members[i]) by {
            if i > 0 {
                assert(members.subrange(1, members.len() as int)[i - 1] == members[i]);
            }
        }
    }
}

/// What parsing a JSON text yields: `None` when the text is not valid JSON.
/// The tree depends on the text alone.
pub uninterp spec fn parsed_json(s: Seq<char>) -> Option<JsonModel>;

/// Declares `serde_json::Value` so that the two functions below may pass
/// one through; the tree stays opaque and is read only after conversion
/// into [`JsonValue`].
#[verifier::external_type_specification]
#[verifier::external_body]
pub struct ExSerdeValue(serde_json::Value);

/// Mirrors a `serde_json` tree into the crate's own value type, one variant
/// arm each; arrays and objects recurse, numbers keep their `u64` value when
/// they have one.  Called only by `parse_json` below.
#[verifier::external_body]
fn from_serde_value(v: serde_json::Value) -> JsonValue {
    match v {
        serde_json::Value::Null => JsonValue::Null,
        serde_json::Value::Bool(b) => JsonValue::Bool(b),
        serde_json::Value::Number(n) => JsonValue::Num(n.as_u64()),
        serde_json::Value::String(s) => JsonValue::Str(s),
        serde_json::Value::Array(items) => JsonValue::Arr(
            items.into_iter().map(from_serde_value).collect(),
        ),
        serde_json::Value::Object(members) => JsonValue::Obj(
            members.into_iter().map(|(k, x)| JsonMember { key: k, value: from_serde_value(x) }).collect(),
        ),
    }
}

/// Relies on `serde_json::from_str::<serde_json::Value>`: parses a JSON text
/// into a tree that depends on the text alone (object members come back
/// sorted by key, a duplicated key keeps its last value).  A failed parse
/// reports the parser's diagnostic message.
#[verifier::external_body]
pub fn parse_json(s: &str) -> (r: Result<JsonValue, String>)
    ensures
        (r matches Ok(v) ==> parsed_json(s@) == Some(model_of(v))),
        (r matches Err(_) ==> parsed_json(s@) is None),
{
    match serde_json::from_str::<serde_json::Value>(s) {
        Ok(v) => Ok(from_serde_value(v)),
        Err(e) => Err(e.to_string()),
    }
}

/// The value under `key` among the members of an object, first match.
pub open spec fn obj_lookup(
    members: Seq<(Seq<char>, JsonModel)>,
    key: Seq<char>,
) -> Option<JsonModel>
    decreases members.len(),
{
    if members.len() == 0 {
        None
    } else if members[0].0 == key {
        Some(members[0].1)
    } else {
        obj_lookup(members.drop_first(), key)
    }
}

/// The value under `key`, when `v` is an object that has it.
pub open spec fn field_of(v: JsonModel, key: Seq<char>) -> Option<JsonModel> {
    match v {
        JsonModel::Obj(members) => obj_lookup(members, key),
        _ => None,
    }
}

proof fn lemma_obj_lookup_skip(members: Seq<(Seq<char>, JsonModel)>, key: Seq<char>, i: int)
    requires
        0 <= i <= members.len(),
        forall|j: int| 0 <= j < i ==> members[j].0 != key,
    ensures
        obj_lookup(members, key) == obj_lookup(members.skip(i), key),
    decreases i,
{
    if i > 0 {
        assert(members[0].0 != key);
        lemma_obj_lookup_skip(members.drop_first(), key, i - 1);
        assert(members.skip(i) =~= members.drop_first().skip(i - 1));
    } else {
        assert(members.skip(0) =~= members);
    }
}

/// The member of `v` named `key`, when `v` is an object that has one.
pub fn get_field<'a>(v: &'a JsonValue, key: &str) -> (r: Option<&'a JsonValue>)
    ensures
        match r {
            Some(x) => field_of(model_of(*v), key@) == Some(model_of(*x)),
            None => field_of(model_of(*v), key@) is None,
        },
{
    match v {
        JsonValue::Obj(members) => {
            let k = String::from_str(key);
            let ghost m = model_of(*v)->Obj_0;
            proof {
                assert(model_of(*v) matches JsonModel::Obj(_));
                lemma_members_model_of(members@);
            }
            let mut i: usize = 0;
            while i < members.len()
                invariant
                    i <= members.len(),
                    k@ == key@,
                    m == model_of(*v)->Obj_0,
                    model_of(*v) matches JsonModel::Obj(_),
                    m.len() == members@.len(),
                    forall|j: int| 0 <= j < members@.len() ==> m[j] == member_model(members@[j]),
                    forall|j: int| 0 <= j < i ==> m[j].0 != key@,
                decreases members.len() - i,
            {
                if members[i].key == k {
                    proof {
                        lemma_obj_lookup_skip(m, key@, i as int);
                        assert(m.skip(i as int)[0] == m[i as int]);
                    }
                    return Some(&members[i].value);
                }
                i = i + 1;
            }
            proof {
                lemma_obj_lookup_skip(m, key@, members@.len() as int);
                assert(m.skip(m.len() as int) =~= Seq::<(Seq<char>, JsonModel)>::empty());
            }
            None
        },
        _ => None,
    }
}

/// The text of a string value.
pub fn as_string(v: &JsonValue) -> (r: Option<String>)
    ensures
        match model_of(*v) {
            JsonModel::Str(t) => r matches Some(s) && s@ == t,
            _ => r is None,
        },
{
    match v {
        JsonValue::Str(s) => Some(s.clone()),
        _ => None,
    }
}

/// The value of a boolean.
pub fn as_bool(v: &JsonValue) -> (r: Option<bool>)
    ensures
        r == (match model_of(*v) {
            JsonModel::Bool(b) => Some(b),
            _ => None::<bool>,
        }),
{
    match v {
        JsonValue::Bool(b) => Some(*b),
        _ => None,
    }
}

/// An array field: its elements, when `v` is an object holding an array
/// under `key`.
pub open spec fn arr_field(v: JsonModel, key: Seq<char>) -> Option<Seq<JsonModel>> {
    match field_of(v, key) {
        Some(JsonModel::Arr(es)) => Some(es),
        _ => None,
    }
}

/// True when every element of a sequence is a string value.
pub open spec fn str_elems_ok(es: Seq<JsonModel>) -> bool {
    forall|i: int| 0 <= i < es.len() ==> (#[trigger] es[i]) is Str
}

/// The texts of a sequence of string values, element by element.
pub open spec fn str_elems(es: Seq<JsonModel>) -> Seq<Seq<char>> {
    es.map_values(|e: JsonModel| e->Str_0)
}

/// Reads a required field holding an array of strings.
pub fn get_str_arr_field(v: &JsonValue, key: &str) -> (r: Option<Vec<String>>)
    ensures
        match r {
            Some(l) => {
                &&& arr_field(model_of(*v), key@) is Some
                &&& str_elems_ok(arr_field(model_of(*v), key@)->0)
                &&& l.deep_view() == str_elems(arr_field(model_of(*v), key@)->0)
            },
            None => !(arr_field(model_of(*v), key@) is Some && str_elems_ok(
                arr_field(model_of(*v), key@)->0,
            )),
        },
{
    let arr = match get_field(v, key) {
        Some(x) => x,
        None => {
            return None;
        },
    };
    match arr {
        JsonValue::Arr(items) => {
            let ghost es = arr_field(model_of(*v), key@)->0;
            proof {
                lemma_models_of(items@);
                assert(es == models_of(items@));
            }
            let mut out: Vec<String> = Vec::new();
            let mut i: usize = 0;
            while i < items.len()
                invariant
                    i <= items.len(),
                    arr_field(model_of(*v), key@) == Some(es),
                    es.len() == items@.len(),
                    forall|j: int| 0 <= j < items@.len() ==> es[j] == model_of(items@[j]),
                    out@.len() == i,
                    forall|j: int| 0 <= j < i ==> (#[trigger] es[j]) is Str,
                    forall|j: int| 0 <= j < i ==> (#[trigger] out@[j])@ == es[j]->Str_0,
                decreases items.len() - i,
            {
                match as_string(&items[i]) {
                    Some(s) => out.push(s),
                    None => {
                        proof {
                            assert(!((#[trigger] arr_field(model_of(*v), key@)->0[i as int])
                                is Str));
                        }
                        return None;
                    },
                }
                i = i + 1;
            }
            proof {
                assert(out.deep_view() =~= str_elems(es));
            }
            Some(out)
        },
        _ => None,
    }
}

/// True when an optional array field is acceptable: absent, `null`, or an
/// array.
pub open spec fn opt_arr_field_ok(v: JsonModel, key: Seq<char>) -> bool {
    match field_of(v, key) {
        None => true,
        Some(JsonModel::Null) => true,
        Some(JsonModel::Arr(_)) => true,
        _ => false,
    }
}

/// A required string field: its text, when `v` has it with the right type.
pub open spec fn str_field(v: JsonModel, key: Seq<char>) -> Option<Seq<char>> {
    match field_of(v, key) {
        Some(JsonModel::Str(s)) => Some(s),
        _ => None,
    }
}

/// Reads a required string field.
pub fn get_str_field(v: &JsonValue, key: &str) -> (r: Option<String>)
    ensures
        match str_field(model_of(*v), key@) {
            Some(t) => r matches Some(s) && s@ == t,
            None => r is None,
        },
{
    match get_field(v, key) {
        Some(x) => as_string(x),
        None => None,
    }
}

/// A required boolean field: its value, when `v` has it with the right
/// type.
pub open spec fn bool_field(v: JsonModel, key: Seq<char>) -> Option<bool> {
    match field_of(v, key) {
        Some(JsonModel::Bool(b)) => Some(b),
        _ => None,
    }
}

/// Reads a required boolean field.
pub fn get_bool_field(v: &JsonValue, key: &str) -> (r: Option<bool>)
    ensures
        r == bool_field(model_of(*v), key@),
{
    match get_field(v, key) {
        Some(x) => as_bool(x),
        None => None,
    }
}

/// An optional field tolerates absence and `null`; any other value must have
/// the expected type.  True when a string-typed optional field is acceptable.
pub open spec fn opt_str_field_ok(v: JsonModel, key: Seq<char>) -> bool {
    match field_of(v, key) {
        None => true,
        Some(JsonModel::Null) => true,
        Some(JsonModel::Str(_)) => true,
        _ => false,
    }
}

/// The text of an optional string field that is present and non-null.
pub open spec fn opt_str_field(v: JsonModel, key: Seq<char>) -> Option<Seq<char>> {
    match field_of(v, key) {
        Some(JsonModel::Str(s)) => Some(s),
        _ => None,
    }
}

/// Reads an optional string field: absent and `null` both yield
/// `Some(None)`; a value of another type is a shape error.
pub fn get_opt_str_field(v: &JsonValue, key: &str) -> (r: Option<Option<String>>)
    ensures
        match r {
            Some(o) => opt_str_field_ok(model_of(*v), key@) && (match o {
                Some(s) => opt_str_field(model_of(*v), key@) == Some(s@),
                None => opt_str_field(model_of(*v), key@) is None,
            }),
            None => !opt_str_field_ok(model_of(*v), key@),
        },
{
    match get_field(v, key) {
        None => Some(None),
        Some(x) => match x {
            JsonValue::Null => Some(None),
            JsonValue::Str(s) => Some(Some(s.clone())),
            _ => None,
        },
    }
}

/// True when a number-typed optional field is acceptable: absent, `null`, or
/// a number with a `u64` value.
pub open spec fn opt_u64_field_ok(v: JsonModel, key: Seq<char>) -> bool {
    match field_of(v, key) {
        None => true,
        Some(JsonModel::Null) => true,
        Some(JsonModel::Num(n)) => n is Some,
        _ => false,
    }
}

/// The value of an optional number field that is present and non-null.
pub open spec fn opt_u64_field(v: JsonModel, key: Seq<char>) -> Option<u64> {
    match field_of(v, key) {
        Some(JsonModel::Num(n)) => n,
        _ => None,
    }
}

/// Reads an optional number field: absent and `null` both yield
/// `Some(None)`; a non-number, or a number without a `u64` value, is a
/// shape error.
pub fn get_opt_u64_field(v: &JsonValue, key: &str) -> (r: Option<Option<u64>>)
    ensures
        match r {
            Some(o) => opt_u64_field_ok(model_of(*v), key@) && o == opt_u64_field(
                model_of(*v),
                key@,
            ),
            None => !opt_u64_field_ok(model_of(*v), key@),
        },
{
    match get_field(v, key) {
        None => Some(None),
        Some(x) => match x {
            JsonValue::Null => Some(None),
            JsonValue::Num(n) => match n {
                Some(u) => Some(Some(*u)),
                None => None,
            },
            _ => None,
        },
    }
}

} // verus!
