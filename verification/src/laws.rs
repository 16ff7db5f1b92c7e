//! Cycle-level properties of the reconciler, proved from the step
//! specification alone.

use vstd::prelude::*;

use crate::CredentialsModel;
use crate::errors::ErrorModel;
use crate::json::JsonModel;
use crate::reconcile::{
    Method,
    PhaseModel,
    StepModel,
    step_spec,
    zone_step_spec,
    record_step_spec,
    update_step_spec,
    record_request_spec,
    update_request_spec,
    update_payload_spec,
};
use crate::responses::{
    DnsRecordModel,
    ZoneLookupModel,
    RecordLookupModel,
    zone_interp,
    result_items,
    update_success,
};
use crate::text::{trim_spec, lossy_of};

verus! {

/// Idempotence: when the stored record content already equals the
/// machine's current address — both read after trimming — the cycle ends
/// at the IP step with `NoUpdateNeeded`, so no mutating call is issued.
pub proof fn lemma_idempotence(
    c: CredentialsModel,
    zone_id: Seq<char>,
    record: DnsRecordModel,
    body: Seq<u8>,
)
    requires
        vstd::utf8::valid_utf8(body),
        trim_spec(record.content) == trim_spec(vstd::utf8::decode_utf8(body)),
    ensures
        step_spec(c, PhaseModel::IpFetch { zone_id, record }, body) == StepModel::Done(
            crate::reconcile::OutcomeModel::NoUpdateNeeded {
                ip: trim_spec(vstd::utf8::decode_utf8(body)),
            },
        ),
{
}

/// Convergence: when the stored content differs from the current address,
/// the IP step issues exactly the update request — a `PUT` to the
/// record's own URL whose payload carries the configured domain as its
/// name and the trimmed address as its content.
pub proof fn lemma_convergence(
    c: CredentialsModel,
    zone_id: Seq<char>,
    record: DnsRecordModel,
    body: Seq<u8>,
)
    requires
        vstd::utf8::valid_utf8(body),
        trim_spec(record.content) != trim_spec(vstd::utf8::decode_utf8(body)),
    ensures
        step_spec(c, PhaseModel::IpFetch { zone_id, record }, body) == (StepModel::Next {
            phase: PhaseModel::Update { new_ip: trim_spec(vstd::utf8::decode_utf8(body)) },
            request: update_request_spec(
                c,
                zone_id,
                record.id,
                trim_spec(vstd::utf8::decode_utf8(body)),
            ),
        }),
        update_request_spec(
            c,
            zone_id,
            record.id,
            trim_spec(vstd::utf8::decode_utf8(body)),
        ).method == Method::Put,
        update_request_spec(
            c,
            zone_id,
            record.id,
            trim_spec(vstd::utf8::decode_utf8(body)),
        ).body == Some(
            update_payload_spec(c.domain, trim_spec(vstd::utf8::decode_utf8(body))),
        ),
{
}

/// A whole cycle with nothing to do: when the zone and record lookups
/// succeed and the found record's trimmed content equals the trimmed
/// address, every request the cycle issues — record lookup, then IP echo
/// — is a `GET`, and the cycle ends with `NoUpdateNeeded`. Zero mutating
/// calls are performed.
pub proof fn lemma_cycle_idempotent(
    c: CredentialsModel,
    zone_doc: JsonModel,
    record_doc: JsonModel,
    zone_id: Seq<char>,
    rec: DnsRecordModel,
    ip_body: Seq<u8>,
)
    requires
        zone_interp(Some(zone_doc)) == ZoneLookupModel::Found(zone_id),
        crate::responses::record_interp(Some(record_doc)) == (RecordLookupModel::Found {
            id: rec.id,
            content: rec.content,
        }),
        vstd::utf8::valid_utf8(ip_body),
        trim_spec(rec.content) == trim_spec(vstd::utf8::decode_utf8(ip_body)),
    ensures
        zone_step_spec(c, Some(zone_doc)) == (StepModel::Next {
            phase: PhaseModel::RecordLookup { zone_id },
            request: record_request_spec(c, zone_id),
        }),
        record_request_spec(c, zone_id).method == Method::Get,
        record_step_spec(c, zone_id, Some(record_doc)) == (StepModel::Next {
            phase: PhaseModel::IpFetch { zone_id, record: rec },
            request: crate::reconcile::ip_request_spec(),
        }),
        crate::reconcile::ip_request_spec().method == Method::Get,
        step_spec(c, PhaseModel::IpFetch { zone_id, record: rec }, ip_body) == StepModel::Done(
            crate::reconcile::OutcomeModel::NoUpdateNeeded {
                ip: trim_spec(vstd::utf8::decode_utf8(ip_body)),
            },
        ),
{
}

/// A whole cycle that must converge: with the same successful lookups but
/// differing content, the cycle issues the same two `GET`s and then
/// exactly one mutating call — the update request — whose payload names
/// the configured domain and carries the trimmed address.
pub proof fn lemma_cycle_converges(
    c: CredentialsModel,
    zone_doc: JsonModel,
    record_doc: JsonModel,
    zone_id: Seq<char>,
    rec: DnsRecordModel,
    ip_body: Seq<u8>,
)
    requires
        zone_interp(Some(zone_doc)) == ZoneLookupModel::Found(zone_id),
        crate::responses::record_interp(Some(record_doc)) == (RecordLookupModel::Found {
            id: rec.id,
            content: rec.content,
        }),
        vstd::utf8::valid_utf8(ip_body),
        trim_spec(rec.content) != trim_spec(vstd::utf8::decode_utf8(ip_body)),
    ensures
        zone_step_spec(c, Some(zone_doc)) == (StepModel::Next {
            phase: PhaseModel::RecordLookup { zone_id },
            request: record_request_spec(c, zone_id),
        }),
        record_step_spec(c, zone_id, Some(record_doc)) == (StepModel::Next {
            phase: PhaseModel::IpFetch { zone_id, record: rec },
            request: crate::reconcile::ip_request_spec(),
        }),
        record_request_spec(c, zone_id).method == Method::Get,
        crate::reconcile::ip_request_spec().method == Method::Get,
        step_spec(c, PhaseModel::IpFetch { zone_id, record: rec }, ip_body) == (StepModel::Next {
            phase: PhaseModel::Update { new_ip: trim_spec(vstd::utf8::decode_utf8(ip_body)) },
            request: update_request_spec(
                c,
                zone_id,
                rec.id,
                trim_spec(vstd::utf8::decode_utf8(ip_body)),
            ),
        }),
        update_request_spec(
            c,
            zone_id,
            rec.id,
            trim_spec(vstd::utf8::decode_utf8(ip_body)),
        ).method == Method::Put,
        forall|update_body: Seq<u8>|
            !(#[trigger] step_spec(
                c,
                PhaseModel::Update { new_ip: trim_spec(vstd::utf8::decode_utf8(ip_body)) },
                update_body,
            ) matches StepModel::Next { .. }),
{
}

/// A cycle makes at most one mutating call: a step issues a `PUT` exactly
/// when it moves to the update phase, and the update phase itself never
/// issues another request.
pub proof fn lemma_single_mutation(c: CredentialsModel, phase: PhaseModel, body: Seq<u8>)
    ensures
        match step_spec(c, phase, body) {
            StepModel::Next { phase: next, request } => (request.method == Method::Put
                <==> next matches PhaseModel::Update { .. }),
            _ => true,
        },
        phase matches PhaseModel::Update { .. } ==> !(step_spec(c, phase, body)
            matches StepModel::Next { .. }),
{
}

/// Fresh lookup: a successful zone step always hands on the record lookup
/// built from the identifier found in this cycle's zone response — no
/// identifier is carried over — and a successful record step likewise
/// moves on with the record just looked up.
pub proof fn lemma_fresh_lookup(c: CredentialsModel, zone_id: Seq<char>, j: Option<JsonModel>)
    ensures
        match zone_step_spec(c, j) {
            StepModel::Next { phase, request } => zone_interp(j)
                matches ZoneLookupModel::Found(id) && phase == (PhaseModel::RecordLookup {
                zone_id: id,
            }) && request == record_request_spec(c, id),
            _ => true,
        },
        match record_step_spec(c, zone_id, j) {
            StepModel::Next { phase, request } => crate::responses::record_interp(j)
                matches RecordLookupModel::Found { id, content } && phase == (PhaseModel::IpFetch {
                zone_id,
                record: DnsRecordModel { id, content },
            }),
            _ => true,
        },
{
}

/// Missing zone: a zone lookup response whose `result` sequence is empty
/// fails the cycle with `ZoneNotFound` naming the configured domain; no
/// further request is issued.
pub proof fn lemma_missing_zone(c: CredentialsModel, doc: JsonModel)
    requires
        result_items(doc) matches Some(items) && items.len() == 0,
    ensures
        zone_step_spec(c, Some(doc)) == StepModel::Fail(
            ErrorModel::ZoneNotFound { domain: c.domain },
        ),
        crate::errors::message_spec(ErrorModel::ZoneNotFound { domain: c.domain })
            == "Zone not found for domain "@ + c.domain,
{
}

/// Missing record: a record lookup response whose `result` sequence is
/// empty fails the cycle with `RecordNotFound` naming the configured
/// domain; no update is attempted.
pub proof fn lemma_missing_record(c: CredentialsModel, zone_id: Seq<char>, doc: JsonModel)
    requires
        result_items(doc) matches Some(items) && items.len() == 0,
    ensures
        record_step_spec(c, zone_id, Some(doc)) == StepModel::Fail(
            ErrorModel::RecordNotFound { domain: c.domain },
        ),
        crate::errors::message_spec(ErrorModel::RecordNotFound { domain: c.domain })
            == "A record not found for domain "@ + c.domain,
{
}

/// Update rejection: an update response that parses but does not report
/// `"success": true` fails the cycle with `UpdateRejected`, which keeps
/// the raw response body; its rendered message carries that body.
pub proof fn lemma_update_rejection(new_ip: Seq<char>, doc: JsonModel, raw: Seq<u8>)
    requires
        !update_success(doc),
    ensures
        update_step_spec(new_ip, Some(doc), raw) == StepModel::Fail(
            ErrorModel::UpdateRejected { raw },
        ),
        crate::errors::message_spec(ErrorModel::UpdateRejected { raw })
            == "Cloudflare API reported failure: "@ + lossy_of(raw),
{
}

} // verus!
