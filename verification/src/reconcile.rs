//! The reconciliation cycle as a state machine: each state names the
//! response it awaits, and `handle_response` turns a response body into
//! the next request, a final outcome, or an error. The driver that moves
//! bytes over the network stays outside; everything it must do is pinned
//! down here.

use vstd::prelude::*;

use crate::Credentials;
use crate::CredentialsModel;
use crate::errors::{SyncError, SyncStep, ErrorModel};
use crate::json::{JsonModel, json_of};
use crate::responses::{
    DnsRecord,
    DnsRecordModel,
    ZoneLookupModel,
    RecordLookupModel,
    zone_interp,
    record_interp,
    update_success,
    parse_zone_response,
    parse_record_response,
    parse_update_response,
};
use crate::text::{trim, trim_spec, str_eq, json_string_spec, append_json_string};

verus! {

/// An HTTP method this workflow uses. `Put` is the one mutating call.
#[derive(Clone, Copy, Debug, PartialEq, Eq, Structural)]
pub enum Method {
    Get,
    Put,
}

/// A fully prepared outbound call: the driver sends it as given, adding
/// nothing.
#[derive(Debug, Clone, PartialEq, Eq)]
pub struct HttpRequest {
    pub method: Method,
    pub url: String,
    /// Header lines, each `Name: value`.
    pub headers: Vec<String>,
    /// The serialized request payload, for `Put`.
    pub body: Option<String>,
}

/// Mathematical model of `HttpRequest`.
#[verifier::ext_equal]
pub struct RequestModel {
    pub method: Method,
    pub url: Seq<char>,
    pub headers: Seq<Seq<char>>,
    pub body: Option<Seq<char>>,
}

impl View for HttpRequest {
    type V = RequestModel;

    open spec fn view(&self) -> RequestModel {
        RequestModel {
            method: self.method,
            url: self.url@,
            headers: self.headers.deep_view(),
            body: self.body.deep_view(),
        }
    }
}

/// The response a cycle is waiting for, with everything later steps need.
/// A fresh cycle always starts at `ZoneLookup`: no identifier survives
/// from an earlier cycle.
#[derive(Debug)]
pub enum Phase {
    /// Awaiting the zone lookup response.
    ZoneLookup,
    /// Awaiting the record lookup response.
    RecordLookup { zone_id: String },
    /// Awaiting the IP-echo response.
    IpFetch { zone_id: String, record: DnsRecord },
    /// Awaiting the update response.
    Update { new_ip: String },
}

/// Mathematical model of `Phase`.
#[verifier::ext_equal]
pub enum PhaseModel {
    ZoneLookup,
    RecordLookup { zone_id: Seq<char> },
    IpFetch { zone_id: Seq<char>, record: DnsRecordModel },
    Update { new_ip: Seq<char> },
}

impl Phase {
    /// The step whose response this phase awaits; a transport failure
    /// while waiting is charged to it.
    pub fn awaited_step(&self) -> (r: SyncStep)
        ensures
            r == awaited_step_spec(self@),
    {
        match self {
            Phase::ZoneLookup => SyncStep::ZoneLookup,
            Phase::RecordLookup { .. } => SyncStep::RecordLookup,
            Phase::IpFetch { .. } => SyncStep::IpFetch,
            Phase::Update { .. } => SyncStep::Update,
        }
    }
}

/// The step whose response each phase awaits.
pub open spec fn awaited_step_spec(phase: PhaseModel) -> SyncStep {
    match phase {
        PhaseModel::ZoneLookup => SyncStep::ZoneLookup,
        PhaseModel::RecordLookup { .. } => SyncStep::RecordLookup,
        PhaseModel::IpFetch { .. } => SyncStep::IpFetch,
        PhaseModel::Update { .. } => SyncStep::Update,
    }
}

impl View for Phase {
    type V = PhaseModel;

    open spec fn view(&self) -> PhaseModel {
        match self {
            Phase::ZoneLookup => PhaseModel::ZoneLookup,
            Phase::RecordLookup { zone_id } => PhaseModel::RecordLookup { zone_id: zone_id@ },
            Phase::IpFetch { zone_id, record } => PhaseModel::IpFetch {
                zone_id: zone_id@,
                record: record@,
            },
            Phase::Update { new_ip } => PhaseModel::Update { new_ip: new_ip@ },
        }
    }
}

/// How a finished cycle ended: the record already held the current
/// address, or it was updated to it.
#[derive(Debug, PartialEq, Eq)]
pub enum Outcome {
    NoUpdateNeeded { ip: String },
    Updated { ip: String },
}

/// Mathematical model of `Outcome`.
#[verifier::ext_equal]
pub enum OutcomeModel {
    NoUpdateNeeded { ip: Seq<char> },
    Updated { ip: Seq<char> },
}

impl View for Outcome {
    type V = OutcomeModel;

    open spec fn view(&self) -> OutcomeModel {
        match self {
            Outcome::NoUpdateNeeded { ip } => OutcomeModel::NoUpdateNeeded { ip: ip@ },
            Outcome::Updated { ip } => OutcomeModel::Updated { ip: ip@ },
        }
    }
}

/// What one handled response leads to: another request to issue, or a
/// finished cycle.
#[derive(Debug)]
pub enum Step {
    Continue { phase: Phase, request: HttpRequest },
    Done(Outcome),
}

/// Mathematical model of a handled response, errors included.
#[verifier::ext_equal]
pub enum StepModel {
    Next { phase: PhaseModel, request: RequestModel },
    Done(OutcomeModel),
    Fail(ErrorModel),
}

/// The model of what `handle_response` returned.
pub open spec fn step_result_model(r: Result<Step, SyncError>) -> StepModel {
    match r {
        Ok(Step::Continue { phase, request }) => StepModel::Next {
            phase: phase@,
            request: request@,
        },
        Ok(Step::Done(o)) => StepModel::Done(o@),
        Err(e) => StepModel::Fail(e@),
    }
}

/// The zone lookup URL for `domain`: active zones of that name.
pub open spec fn zone_url_spec(domain: Seq<char>) -> Seq<char> {
    "https://api.cloudflare.com/client/v4/zones?name="@ + domain + "&status=active"@
}

/// The record lookup URL: address records named `domain` in the zone.
pub open spec fn record_url_spec(zone_id: Seq<char>, domain: Seq<char>) -> Seq<char> {
    "https://api.cloudflare.com/client/v4/zones/"@ + zone_id + "/dns_records?type=A&name="@
        + domain
}

/// The update URL of one record.
pub open spec fn update_url_spec(zone_id: Seq<char>, record_id: Seq<char>) -> Seq<char> {
    "https://api.cloudflare.com/client/v4/zones/"@ + zone_id + "/dns_records/"@ + record_id
}

/// The IP-echo endpoint; unauthenticated.
pub open spec fn ip_url_spec() -> Seq<char> {
    "https://checkip.amazonaws.com"@
}

/// The three header lines of every authenticated call.
pub open spec fn auth_headers_spec(c: CredentialsModel) -> Seq<Seq<char>> {
    seq![
        "X-Auth-Email: "@ + c.email,
        "X-Auth-Key: "@ + c.api_key,
        "Content-Type: application/json"@,
    ]
}

/// The update payload: an address record named `domain` holding `ip`,
/// automatic TTL, not proxied.
pub open spec fn update_payload_spec(domain: Seq<char>, ip: Seq<char>) -> Seq<char> {
    "{\"type\":\"A\",\"name\":"@ + json_string_spec(domain) + ",\"content\":"@ + json_string_spec(
        ip,
    ) + ",\"ttl\":1,\"proxied\":false}"@
}

/// The authenticated zone lookup request.
pub open spec fn zone_request_spec(c: CredentialsModel) -> RequestModel {
    RequestModel {
        method: Method::Get,
        url: zone_url_spec(c.domain),
        headers: auth_headers_spec(c),
        body: None,
    }
}

/// The authenticated record lookup request.
pub open spec fn record_request_spec(c: CredentialsModel, zone_id: Seq<char>) -> RequestModel {
    RequestModel {
        method: Method::Get,
        url: record_url_spec(zone_id, c.domain),
        headers: auth_headers_spec(c),
        body: None,
    }
}

/// The unauthenticated IP-echo request.
pub open spec fn ip_request_spec() -> RequestModel {
    RequestModel {
        method: Method::Get,
        url: ip_url_spec(),
        headers: Seq::empty(),
        body: None,
    }
}

/// The one mutating request: an authenticated update of the record to
/// `ip`.
pub open spec fn update_request_spec(
    c: CredentialsModel,
    zone_id: Seq<char>,
    record_id: Seq<char>,
    ip: Seq<char>,
) -> RequestModel {
    RequestModel {
        method: Method::Put,
        url: update_url_spec(zone_id, record_id),
        headers: auth_headers_spec(c),
        body: Some(update_payload_spec(c.domain, ip)),
    }
}

/// What handling a zone lookup document leads to.
pub open spec fn zone_step_spec(c: CredentialsModel, j: Option<JsonModel>) -> StepModel {
    match zone_interp(j) {
        ZoneLookupModel::Malformed => StepModel::Fail(
            ErrorModel::ParseError(SyncStep::ZoneLookup),
        ),
        ZoneLookupModel::Empty => StepModel::Fail(ErrorModel::ZoneNotFound { domain: c.domain }),
        ZoneLookupModel::Found(id) => StepModel::Next {
            phase: PhaseModel::RecordLookup { zone_id: id },
            request: record_request_spec(c, id),
        },
    }
}

/// What handling a record lookup document leads to.
pub open spec fn record_step_spec(
    c: CredentialsModel,
    zone_id: Seq<char>,
    j: Option<JsonModel>,
) -> StepModel {
    match record_interp(j) {
        RecordLookupModel::Malformed => StepModel::Fail(
            ErrorModel::ParseError(SyncStep::RecordLookup),
        ),
        RecordLookupModel::Empty => StepModel::Fail(
            ErrorModel::RecordNotFound { domain: c.domain },
        ),
        RecordLookupModel::Found { id, content } => StepModel::Next {
            phase: PhaseModel::IpFetch { zone_id, record: DnsRecordModel { id, content } },
            request: ip_request_spec(),
        },
    }
}

/// What handling an IP-echo body leads to: compare the trimmed body with
/// the trimmed stored content, and update exactly when they differ.
pub open spec fn ip_step_spec(
    c: CredentialsModel,
    zone_id: Seq<char>,
    record: DnsRecordModel,
    body: Seq<u8>,
) -> StepModel {
    if !vstd::utf8::valid_utf8(body) {
        StepModel::Fail(ErrorModel::ParseError(SyncStep::IpFetch))
    } else {
        let ip = trim_spec(vstd::utf8::decode_utf8(body));
        if trim_spec(record.content) == ip {
            StepModel::Done(OutcomeModel::NoUpdateNeeded { ip })
        } else {
            StepModel::Next {
                phase: PhaseModel::Update { new_ip: ip },
                request: update_request_spec(c, zone_id, record.id, ip),
            }
        }
    }
}

/// What handling an update response leads to: success exactly when the
/// provider said `"success": true`; any other parsed answer is a
/// rejection carrying the raw body.
pub open spec fn update_step_spec(
    new_ip: Seq<char>,
    j: Option<JsonModel>,
    raw: Seq<u8>,
) -> StepModel {
    match j {
        None => StepModel::Fail(ErrorModel::ParseError(SyncStep::Update)),
        Some(doc) => if update_success(doc) {
            StepModel::Done(OutcomeModel::Updated { ip: new_ip })
        } else {
            StepModel::Fail(ErrorModel::UpdateRejected { raw })
        },
    }
}

/// One transition of the cycle: the whole reconciliation policy.
pub open spec fn step_spec(c: CredentialsModel, phase: PhaseModel, body: Seq<u8>) -> StepModel {
    match phase {
        PhaseModel::ZoneLookup => zone_step_spec(c, json_of(body)),
        PhaseModel::RecordLookup { zone_id } => record_step_spec(c, zone_id, json_of(body)),
        PhaseModel::IpFetch { zone_id, record } => ip_step_spec(c, zone_id, record, body),
        PhaseModel::Update { new_ip } => update_step_spec(new_ip, json_of(body), body),
    }
}

/// Builds the zone lookup URL.
pub fn zone_lookup_url(creds: &Credentials) -> (r: String)
    ensures
        r@ == zone_url_spec(creds@.domain),
{
    let mut s = String::from_str("https://api.cloudflare.com/client/v4/zones?name=");
    s.append(creds.domain.as_str());
    s.append("&status=active");
    s
}

/// Builds the record lookup URL.
pub fn record_lookup_url(creds: &Credentials, zone_id: &str) -> (r: String)
    ensures
        r@ == record_url_spec(zone_id@, creds@.domain),
{
    let mut s = String::from_str("https://api.cloudflare.com/client/v4/zones/");
    s.append(zone_id);
    s.append("/dns_records?type=A&name=");
    s.append(creds.domain.as_str());
    s
}

/// Builds the update URL of one record.
pub fn update_url(zone_id: &str, record_id: &str) -> (r: String)
    ensures
        r@ == update_url_spec(zone_id@, record_id@),
{
    let mut s = String::from_str("https://api.cloudflare.com/client/v4/zones/");
    s.append(zone_id);
    s.append("/dns_records/");
    s.append(record_id);
    s
}

/// The three authentication header lines.
pub fn auth_header_lines(creds: &Credentials) -> (r: Vec<String>)
    ensures
        r.deep_view() == auth_headers_spec(creds@),
{
    let mut v: Vec<String> = Vec::new();
    let mut email_line = String::from_str("X-Auth-Email: ");
    email_line.append(creds.email.as_str());
    v.push(email_line);
    let mut key_line = String::from_str("X-Auth-Key: ");
    key_line.append(creds.api_key.as_str());
    v.push(key_line);
    v.push(String::from_str("Content-Type: application/json"));
    proof {
        assert(v.deep_view() =~= auth_headers_spec(creds@));
    }
    v
}

/// Serializes the update payload.
pub fn update_payload(domain: &str, ip: &str) -> (r: String)
    ensures
        r@ == update_payload_spec(domain@, ip@),
{
    let mut out = String::from_str("{\"type\":\"A\",\"name\":");
    append_json_string(&mut out, domain);
    out.append(",\"content\":");
    append_json_string(&mut out, ip);
    out.append(",\"ttl\":1,\"proxied\":false}");
    proof {
        assert(out@ =~= update_payload_spec(domain@, ip@));
    }
    out
}

/// Builds the zone lookup request.
fn zone_request(creds: &Credentials) -> (r: HttpRequest)
    ensures
        r@ == zone_request_spec(creds@),
{
    let r = HttpRequest {
        method: Method::Get,
        url: zone_lookup_url(creds),
        headers: auth_header_lines(creds),
        body: None,
    };
    proof {
        assert(r@ =~= zone_request_spec(creds@));
    }
    r
}

/// Builds the record lookup request.
fn record_request(creds: &Credentials, zone_id: &str) -> (r: HttpRequest)
    ensures
        r@ == record_request_spec(creds@, zone_id@),
{
    let r = HttpRequest {
        method: Method::Get,
        url: record_lookup_url(creds, zone_id),
        headers: auth_header_lines(creds),
        body: None,
    };
    proof {
        assert(r@ =~= record_request_spec(creds@, zone_id@));
    }
    r
}

/// Builds the IP-echo request.
fn ip_request() -> (r: HttpRequest)
    ensures
        r@ == ip_request_spec(),
{
    let r = HttpRequest {
        method: Method::Get,
        url: String::from_str("https://checkip.amazonaws.com"),
        headers: Vec::new(),
        body: None,
    };
    proof {
        assert(r@.headers =~= ip_request_spec().headers);
        assert(r@ =~= ip_request_spec());
    }
    r
}

/// Builds the update request.
fn update_request(creds: &Credentials, zone_id: &str, record_id: &str, ip: &str) -> (r:
    HttpRequest)
    ensures
        r@ == update_request_spec(creds@, zone_id@, record_id@, ip@),
{
    let r = HttpRequest {
        method: Method::Put,
        url: update_url(zone_id, record_id),
        headers: auth_header_lines(creds),
        body: Some(update_payload(creds.domain.as_str(), ip)),
    };
    proof {
        assert(r@ =~= update_request_spec(creds@, zone_id@, record_id@, ip@));
    }
    r
}

/// Opens a fresh cycle: the first call is always the zone lookup, built
/// from the credentials alone. Nothing from an earlier cycle enters.
pub fn start_cycle(creds: &Credentials) -> (r: (Phase, HttpRequest))
    ensures
        r.0@ == PhaseModel::ZoneLookup,
        r.1@ == zone_request_spec(creds@),
{
    (Phase::ZoneLookup, zone_request(creds))
}

/// Handles the response body of the call `phase` was waiting for, and
/// returns the next request to issue, the cycle's outcome, or the error
/// that aborts the cycle — exactly as `step_spec` reads it.
pub fn handle_response(creds: &Credentials, phase: Phase, body: &[u8]) -> (r: Result<
    Step,
    SyncError,
>)
    ensures
        step_result_model(r) == step_spec(creds@, phase@, body@),
{
    match phase {
        Phase::ZoneLookup => match parse_zone_response(creds.domain.as_str(), body) {
            Ok(zone_id) => {
                let request = record_request(creds, zone_id.as_str());
                Ok(Step::Continue { phase: Phase::RecordLookup { zone_id }, request })
            },
            Err(e) => Err(e),
        },
        Phase::RecordLookup { zone_id } => match parse_record_response(
            creds.domain.as_str(),
            body,
        ) {
            Ok(record) => {
                let request = ip_request();
                Ok(Step::Continue { phase: Phase::IpFetch { zone_id, record }, request })
            },
            Err(e) => Err(e),
        },
        Phase::IpFetch { zone_id, record } => match crate::text::utf8_to_string(body) {
            None => Err(SyncError::ParseError(SyncStep::IpFetch)),
            Some(raw_ip) => {
                let ip = trim(raw_ip.as_str());
                let current = trim(record.content.as_str());
                if str_eq(current.as_str(), ip.as_str()) {
                    Ok(Step::Done(Outcome::NoUpdateNeeded { ip }))
                } else {
                    let request = update_request(
                        creds,
                        zone_id.as_str(),
                        record.id.as_str(),
                        ip.as_str(),
                    );
                    Ok(Step::Continue { phase: Phase::Update { new_ip: ip }, request })
                }
            },
        },
        Phase::Update { new_ip } => match parse_update_response(body) {
            Ok(_) => Ok(Step::Done(Outcome::Updated { ip: new_ip })),
            Err(e) => Err(e),
        },
    }
}

} // verus!
