//! Interpretation of the three provider responses: zone lookup, record
//! lookup, and update. Each response is parsed as JSON and read against
//! the shape the provider documents.

use vstd::prelude::*;

use crate::errors::{SyncError, SyncStep, ErrorModel};
use crate::json::{
    Json,
    JsonModel,
    json_of,
    obj_lookup,
    item_views,
    parse_json,
    json_obj_get,
    lemma_item_views,
};

verus! {

/// An address record as the provider reports it: its identifier and its
/// current content.
#[derive(Debug, Clone, PartialEq, Eq)]
pub struct DnsRecord {
    pub id: String,
    pub content: String,
}

/// Mathematical model of `DnsRecord`.
pub struct DnsRecordModel {
    pub id: Seq<char>,
    pub content: Seq<char>,
}

impl View for DnsRecord {
    type V = DnsRecordModel;

    open spec fn view(&self) -> DnsRecordModel {
        DnsRecordModel { id: self.id@, content: self.content@ }
    }
}

/// What a lookup response holds once it is read: a malformed body, an
/// empty `result` sequence, or the first element of `result`.
pub enum ZoneLookupModel {
    Malformed,
    Empty,
    Found(Seq<char>),
}

/// Like `ZoneLookupModel`, with the record's identifier and content.
pub enum RecordLookupModel {
    Malformed,
    Empty,
    Found { id: Seq<char>, content: Seq<char> },
}

/// The string value of field `key` of object `j`, if `j` is an object and
/// holds such a string field.
pub open spec fn field_str(j: JsonModel, key: Seq<char>) -> Option<Seq<char>> {
    match j {
        JsonModel::Obj(fields) => match obj_lookup(fields, key) {
            Some(JsonModel::Str(s)) => Some(s),
            _ => None,
        },
        _ => None,
    }
}

/// The `result` sequence of a response document, if the document is an
/// object whose `result` field is an array.
pub open spec fn result_items(j: JsonModel) -> Option<Seq<JsonModel>> {
    match j {
        JsonModel::Obj(fields) => match obj_lookup(fields, "result"@) {
            Some(JsonModel::Arr(items)) => Some(items),
            _ => None,
        },
        _ => None,
    }
}

/// How a zone lookup body reads: the `result` array must exist and every
/// element must carry a string `id`; the first `id` is the zone.
pub open spec fn zone_interp(j: Option<JsonModel>) -> ZoneLookupModel {
    match j {
        Some(doc) => match result_items(doc) {
            Some(items) => {
                if exists|i: int| 0 <= i < items.len() && field_str(#[trigger] items[i], "id"@) is None {
                    ZoneLookupModel::Malformed
                } else if items.len() == 0 {
                    ZoneLookupModel::Empty
                } else {
                    ZoneLookupModel::Found(field_str(items[0], "id"@).unwrap())
                }
            },
            None => ZoneLookupModel::Malformed,
        },
        None => ZoneLookupModel::Malformed,
    }
}

/// Whether a `result` element reads as a record: a string `id` and a
/// string `content`.
pub open spec fn record_item_ok(item: JsonModel) -> bool {
    field_str(item, "id"@) is Some && field_str(item, "content"@) is Some
}

/// How a record lookup body reads: the `result` array must exist and every
/// element must carry string `id` and `content`; the first element is the
/// record.
pub open spec fn record_interp(j: Option<JsonModel>) -> RecordLookupModel {
    match j {
        Some(doc) => match result_items(doc) {
            Some(items) => {
                if exists|i: int| 0 <= i < items.len() && !record_item_ok(#[trigger] items[i]) {
                    RecordLookupModel::Malformed
                } else if items.len() == 0 {
                    RecordLookupModel::Empty
                } else {
                    RecordLookupModel::Found {
                        id: field_str(items[0], "id"@).unwrap(),
                        content: field_str(items[0], "content"@).unwrap(),
                    }
                }
            },
            None => RecordLookupModel::Malformed,
        },
        None => RecordLookupModel::Malformed,
    }
}

/// Whether an update response reports success: the document is an object
/// whose `success` field is the boolean `true`. Anything else — `false`,
/// another type, or no such field — is a rejection.
pub open spec fn update_success(doc: JsonModel) -> bool {
    match doc {
        JsonModel::Obj(fields) => obj_lookup(fields, "success"@) == Some(JsonModel::Bool(true)),
        _ => false,
    }
}

/// Reads the string field `key` of `j`.
pub fn get_str_field<'a>(j: &'a Json, key: &str) -> (r: Option<&'a String>)
    ensures
        match r {
            Some(s) => field_str(j@, key@) == Some(s@),
            None => field_str(j@, key@) is None,
        },
{
    match j {
        Json::Obj(fields) => match json_obj_get(fields, key) {
            Some(v) => match v {
                Json::Str(s) => Some(s),
                _ => None,
            },
            None => None,
        },
        _ => None,
    }
}

/// Reads a zone lookup body. Returns the zone identifier; `ZoneNotFound`
/// naming `domain` when `result` is empty; a zone-lookup parse error when
/// the body is not JSON or not of the expected shape.
pub fn parse_zone_response(domain: &str, body: &[u8]) -> (r: Result<String, SyncError>)
    ensures
        match zone_interp(json_of(body@)) {
            ZoneLookupModel::Found(id) => r matches Ok(s) && s@ == id,
            ZoneLookupModel::Empty => r matches Err(e) && e@ == (ErrorModel::ZoneNotFound {
                domain: domain@,
            }),
            ZoneLookupModel::Malformed => r matches Err(e) && e@ == ErrorModel::ParseError(
                SyncStep::ZoneLookup,
            ),
        },
{
    match parse_json(body) {
        None => Err(SyncError::ParseError(SyncStep::ZoneLookup)),
        Some(doc) => zone_from_json(domain, &doc),
    }
}

/// Reads an already parsed zone lookup document.
pub fn zone_from_json(domain: &str, doc: &Json) -> (r: Result<String, SyncError>)
    ensures
        match zone_interp(Some(doc@)) {
            ZoneLookupModel::Found(id) => r matches Ok(s) && s@ == id,
            ZoneLookupModel::Empty => r matches Err(e) && e@ == (ErrorModel::ZoneNotFound {
                domain: domain@,
            }),
            ZoneLookupModel::Malformed => r matches Err(e) && e@ == ErrorModel::ParseError(
                SyncStep::ZoneLookup,
            ),
        },
{
    let items: &Vec<Json> = match doc {
        Json::Obj(fields) => match json_obj_get(fields, "result") {
            Some(v) => match v {
                Json::Arr(items) => items,
                _ => {
                    return Err(SyncError::ParseError(SyncStep::ZoneLookup));
                },
            },
            None => {
                return Err(SyncError::ParseError(SyncStep::ZoneLookup));
            },
        },
        _ => {
            return Err(SyncError::ParseError(SyncStep::ZoneLookup));
        },
    };
    let ghost m = item_views(items@);
    proof {
        lemma_item_views(items@);
        assert(result_items(doc@) == Some(m));
    }
    let n = items.len();
    let mut i: usize = 0;
    while i < n
        invariant
            0 <= i <= n,
            n == items@.len(),
            m == item_views(items@),
            m.len() == n,
            result_items(doc@) == Some(m),
            forall|j: int| 0 <= j < n ==> m[j] == #[trigger] items@[j]@,
            forall|j: int| 0 <= j < i ==> field_str(#[trigger] m[j], "id"@) is Some,
        decreases n - i,
    {
        if get_str_field(&items[i], "id").is_none() {
            proof {
                assert(field_str(m[i as int], "id"@) is None);
                assert(zone_interp(Some(doc@)) is Malformed);
            }
            return Err(SyncError::ParseError(SyncStep::ZoneLookup));
        }
        i = i + 1;
    }
    if n == 0 {
        return Err(SyncError::ZoneNotFound { domain: domain.to_owned() });
    }
    match get_str_field(&items[0], "id") {
        Some(s) => Ok(s.clone()),
        None => {
            proof {
                assert(false);
            }
            Err(SyncError::ParseError(SyncStep::ZoneLookup))
        },
    }
}

/// Reads a record lookup body. Returns the first record; `RecordNotFound`
/// naming `domain` when `result` is empty; a record-lookup parse error
/// when the body is not JSON or not of the expected shape.
pub fn parse_record_response(domain: &str, body: &[u8]) -> (r: Result<DnsRecord, SyncError>)
    ensures
        match record_interp(json_of(body@)) {
            RecordLookupModel::Found { id, content } => r matches Ok(rec) && rec@
                == (DnsRecordModel { id, content }),
            RecordLookupModel::Empty => r matches Err(e) && e@ == (ErrorModel::RecordNotFound {
                domain: domain@,
            }),
            RecordLookupModel::Malformed => r matches Err(e) && e@ == ErrorModel::ParseError(
                SyncStep::RecordLookup,
            ),
        },
{
    match parse_json(body) {
        None => Err(SyncError::ParseError(SyncStep::RecordLookup)),
        Some(doc) => record_from_json(domain, &doc),
    }
}

/// Reads an already parsed record lookup document.
pub fn record_from_json(domain: &str, doc: &Json) -> (r: Result<DnsRecord, SyncError>)
    ensures
        match record_interp(Some(doc@)) {
            RecordLookupModel::Found { id, content } => r matches Ok(rec) && rec@
                == (DnsRecordModel { id, content }),
            RecordLookupModel::Empty => r matches Err(e) && e@ == (ErrorModel::RecordNotFound {
                domain: domain@,
            }),
            RecordLookupModel::Malformed => r matches Err(e) && e@ == ErrorModel::ParseError(
                SyncStep::RecordLookup,
            ),
        },
{
    let items: &Vec<Json> = match doc {
        Json::Obj(fields) => match json_obj_get(fields, "result") {
            Some(v) => match v {
                Json::Arr(items) => items,
                _ => {
                    return Err(SyncError::ParseError(SyncStep::RecordLookup));
                },
            },
            None => {
                return Err(SyncError::ParseError(SyncStep::RecordLookup));
            },
        },
        _ => {
            return Err(SyncError::ParseError(SyncStep::RecordLookup));
        },
    };
    let ghost m = item_views(items@);
    proof {
        lemma_item_views(items@);
        assert(result_items(doc@) == Some(m));
    }
    let n = items.len();
    let mut i: usize = 0;
    while i < n
        invariant
            0 <= i <= n,
            n == items@.len(),
            m == item_views(items@),
            m.len() == n,
            result_items(doc@) == Some(m),
            forall|j: int| 0 <= j < n ==> m[j] == #[trigger] items@[j]@,
            forall|j: int| 0 <= j < i ==> record_item_ok(#[trigger] m[j]),
        decreases n - i,
    {
        if get_str_field(&items[i], "id").is_none() {
            proof {
                assert(!record_item_ok(m[i as int]));
                assert(record_interp(Some(doc@)) is Malformed);
            }
            return Err(SyncError::ParseError(SyncStep::RecordLookup));
        }
        if get_str_field(&items[i], "content").is_none() {
            proof {
                assert(!record_item_ok(m[i as int]));
                assert(record_interp(Some(doc@)) is Malformed);
            }
            return Err(SyncError::ParseError(SyncStep::RecordLookup));
        }
        i = i + 1;
    }
    if n == 0 {
        return Err(SyncError::RecordNotFound { domain: domain.to_owned() });
    }
    let id = match get_str_field(&items[0], "id") {
        Some(s) => s.clone(),
        None => {
            proof {
                assert(false);
            }
            return Err(SyncError::ParseError(SyncStep::RecordLookup));
        },
    };
    let content = match get_str_field(&items[0], "content") {
        Some(s) => s.clone(),
        None => {
            proof {
                assert(false);
            }
            return Err(SyncError::ParseError(SyncStep::RecordLookup));
        },
    };
    Ok(DnsRecord { id, content })
}

/// Reads an update response body. Success means the body parsed and its
/// `success` field is `true`; a body that parses otherwise is a rejection
/// carrying the raw bytes; a body that is not JSON is a parse error.
pub fn parse_update_response(body: &[u8]) -> (r: Result<(), SyncError>)
    ensures
        match json_of(body@) {
            None => r matches Err(e) && e@ == ErrorModel::ParseError(SyncStep::Update),
            Some(doc) => if update_success(doc) {
                r is Ok
            } else {
                r matches Err(e) && e@ == (ErrorModel::UpdateRejected { raw: body@ })
            },
        },
{
    let doc = match parse_json(body) {
        None => {
            return Err(SyncError::ParseError(SyncStep::Update));
        },
        Some(doc) => doc,
    };
    let ok = match &doc {
        Json::Obj(fields) => match json_obj_get(fields, "success") {
            Some(v) => match v {
                Json::Bool(b) => *b,
                _ => false,
            },
            None => false,
        },
        _ => false,
    };
    if ok {
        Ok(())
    } else {
        Err(SyncError::UpdateRejected { raw: vstd::slice::slice_to_vec(body) })
    }
}

} // verus!
