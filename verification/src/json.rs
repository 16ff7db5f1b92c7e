//! A JSON tree the verified logic can read, with a trusted bridge that
//! parses raw response bytes through `serde_json`.

use vstd::prelude::*;

verus! {

/// A parsed JSON document. Numbers keep their decimal text: nothing in this
/// library reads a number's value.
pub enum Json {
    Null,
    Bool(bool),
    Num(String),
    Str(String),
    Arr(Vec<Json>),
    Obj(Vec<(String, Json)>),
}

/// Mathematical model of a JSON document.
pub enum JsonModel {
    Null,
    Bool(bool),
    Num(Seq<char>),
    Str(Seq<char>),
    Arr(Seq<JsonModel>),
    Obj(Seq<(Seq<char>, JsonModel)>),
}

impl View for Json {
    type V = JsonModel;

    open spec fn view(&self) -> JsonModel
        decreases self,
    {
        match self {
            Json::Null => JsonModel::Null,
            Json::Bool(b) => JsonModel::Bool(*b),
            Json::Num(s) => JsonModel::Num(s@),
            Json::Str(s) => JsonModel::Str(s@),
            Json::Arr(items) => JsonModel::Arr(item_views(items@)),
            Json::Obj(fields) => JsonModel::Obj(obj_fields_view(fields@)),
        }
    }
}

/// The models of an array's items, in order.
pub open spec fn item_views(items: Seq<Json>) -> Seq<JsonModel>
    decreases items,
{
    if items.len() == 0 {
        Seq::empty()
    } else {
        item_views(items.drop_last()).push(items.last()@)
    }
}

/// The model of an object's field list, in order.
pub open spec fn obj_fields_view(fields: Seq<(String, Json)>) -> Seq<(Seq<char>, JsonModel)>
    decreases fields,
{
    if fields.len() == 0 {
        Seq::empty()
    } else {
        obj_fields_view(fields.drop_last()).push((fields.last().0@, fields.last().1@))
    }
}

/// `item_views` is the pointwise model of the items.
pub proof fn lemma_item_views(items: Seq<Json>)
    ensures
        item_views(items).len() == items.len(),
        forall|i: int| 0 <= i < items.len() ==> item_views(items)[i] == #[trigger] items[i]@,
    decreases items.len(),
{
    if items.len() > 0 {
        let prefix = items.drop_last();
        lemma_item_views(prefix);
        assert(item_views(items) == item_views(prefix).push(items.last()@));
        assert(item_views(items).len() == items.len());
        assert forall|i: int| 0 <= i < items.len() implies item_views(items)[i] == #[trigger] items[i]@ by {
            if i < items.len() - 1 {
                assert(prefix[i] == items[i]);
                assert(item_views(prefix)[i] == prefix[i]@);
                assert(item_views(items)[i] == item_views(prefix)[i]);
            } else {
                assert(items[i] == items.last());
                assert(item_views(items)[i] == items.last()@);
            }
        }
    }
}

/// `obj_fields_view` is the pointwise model of the fields.
pub proof fn lemma_obj_fields_view(fields: Seq<(String, Json)>)
    ensures
        obj_fields_view(fields).len() == fields.len(),
        forall|i: int|
            0 <= i < fields.len() ==> obj_fields_view(fields)[i] == (
            #[trigger] fields[i].0@,
            fields[i].1@,
            ),
    decreases fields.len(),
{
    if fields.len() > 0 {
        let prefix = fields.drop_last();
        lemma_obj_fields_view(prefix);
        assert(obj_fields_view(fields) == obj_fields_view(prefix).push(
            (fields.last().0@, fields.last().1@),
        ));
        assert(obj_fields_view(fields).len() == fields.len());
        assert forall|i: int|
            0 <= i < fields.len() implies obj_fields_view(fields)[i] == (
        #[trigger] fields[i].0@,
        fields[i].1@,
        ) by {
            if i < fields.len() - 1 {
                assert(prefix[i] == fields[i]);
                assert(obj_fields_view(prefix)[i] == (prefix[i].0@, prefix[i].1@));
                assert(obj_fields_view(fields)[i] == obj_fields_view(prefix)[i]);
            } else {
                assert(fields[i] == fields.last());
                assert(obj_fields_view(fields)[i] == (fields.last().0@, fields.last().1@));
            }
        }
    }
}

/// The value of the first field named `key`, if any.
pub open spec fn obj_lookup_from(
    fields: Seq<(Seq<char>, JsonModel)>,
    key: Seq<char>,
    i: int,
) -> Option<JsonModel>
    decreases fields.len() - i,
{
    if i < 0 || i >= fields.len() {
        None
    } else if fields[i].0 == key {
        Some(fields[i].1)
    } else {
        obj_lookup_from(fields, key, i + 1)
    }
}

/// The value of the first field named `key`, if any.
pub open spec fn obj_lookup(fields: Seq<(Seq<char>, JsonModel)>, key: Seq<char>) -> Option<
    JsonModel,
> {
    obj_lookup_from(fields, key, 0)
}

/// Looks up `key` among an object's fields.
pub fn json_obj_get<'a>(fields: &'a Vec<(String, Json)>, key: &str) -> (r: Option<&'a Json>)
    ensures
        match r {
            Some(j) => obj_lookup(obj_fields_view(fields@), key@) == Some(j@),
            None => obj_lookup(obj_fields_view(fields@), key@) is None,
        },
{
    let ghost m = obj_fields_view(fields@);
    proof {
        lemma_obj_fields_view(fields@);
    }
    let n = fields.len();
    let mut i: usize = 0;
    while i < n
        invariant
            0 <= i <= n,
            n == fields@.len(),
            m == obj_fields_view(fields@),
            m.len() == n,
            forall|j: int| 0 <= j < n ==> m[j] == (#[trigger] fields@[j].0@, fields@[j].1@),
            obj_lookup(m, key@) == obj_lookup_from(m, key@, i as int),
        decreases n - i,
    {
        if crate::text::str_eq(fields[i].0.as_str(), key) {
            proof {
                assert(m[i as int].0 == key@);
                assert(obj_lookup_from(m, key@, i as int) == Some(m[i as int].1));
            }
            return Some(&fields[i].1);
        }
        i = i + 1;
    }
    None
}

/// What `serde_json` makes of a byte sequence: `None` where the bytes are
/// not a JSON document, otherwise the parsed tree. The result depends on
/// the bytes alone.
pub uninterp spec fn json_of(bytes: Seq<u8>) -> Option<JsonModel>;

/// The model of an optional parsed document.
pub open spec fn parsed_model(r: Option<Json>) -> Option<JsonModel> {
    match r {
        Some(j) => Some(j@),
        None => None,
    }
}

/// Parses `body` as JSON.
///
/// Relies on `serde_json::from_slice::<serde_json::Value>`: it accepts
/// exactly the JSON documents among the byte sequences, and what it returns
/// is a function of the bytes alone.
#[verifier::external_body]
pub fn parse_json(body: &[u8]) -> (r: Option<Json>)
    ensures
        parsed_model(r) == json_of(body@),
{
    match serde_json::from_slice::<serde_json::Value>(body) {
        Ok(v) => Some(json_from_value(&v)),
        Err(_) => None,
    }
}

/// Carries a `serde_json::Value` through signatures; the library never
/// reads one directly.
#[verifier::external_type_specification]
#[verifier::external_body]
pub struct ExValue(serde_json::Value);

/// Rebuilds a `serde_json::Value` as the library's own tree, variant by
/// variant; part of the trusted bridge under `parse_json`.
#[verifier::external_body]
fn json_from_value(v: &serde_json::Value) -> Json {
    match v {
        serde_json::Value::Null => Json::Null,
        serde_json::Value::Bool(b) => Json::Bool(*b),
        serde_json::Value::Number(n) => Json::Num(n.to_string()),
        serde_json::Value::String(s) => Json::Str(s.clone()),
        serde_json::Value::Array(a) => Json::Arr(a.iter().map(json_from_value).collect()),
        serde_json::Value::Object(m) => Json::Obj(
            m.iter().map(|(k, x)| (k.clone(), json_from_value(x))).collect(),
        ),
    }
}

} // verus!
