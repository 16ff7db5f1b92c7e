//! The error taxonomy of a reconciliation cycle, with a rendered message
//! for each variant.

use vstd::prelude::*;

verus! {

/// The configuration value that was missing at startup.
#[derive(Clone, Copy, Debug, PartialEq, Eq, Structural)]
pub enum ConfigField {
    Email,
    ApiKey,
    Domain,
}

/// The step of a cycle in which a failure arose.
#[derive(Clone, Copy, Debug, PartialEq, Eq, Structural)]
pub enum SyncStep {
    ZoneLookup,
    RecordLookup,
    IpFetch,
    Update,
}

/// Everything that can go wrong in a reconciliation cycle. Any error aborts
/// the cycle at once; the mutating call is last, so no partial update is
/// possible.
#[derive(Debug, PartialEq, Eq)]
pub enum SyncError {
    /// A required credential or the domain was missing at startup.
    ConfigurationError(ConfigField),
    /// The network call itself failed; raised by the driver, never by the
    /// verified logic.
    TransportError(SyncStep),
    /// A response body was not the JSON (or text) shape the step expects.
    ParseError(SyncStep),
    /// The zone lookup succeeded but its `result` sequence was empty:
    /// no zone matches the configured domain.
    ZoneNotFound { domain: String },
    /// The record lookup succeeded but its `result` sequence was empty:
    /// the configured domain has no address record.
    RecordNotFound { domain: String },
    /// The provider answered the update without `"success": true`; `raw` is
    /// the untouched response body.
    UpdateRejected { raw: Vec<u8> },
}

/// Mathematical model of `SyncError`.
pub enum ErrorModel {
    ConfigurationError(ConfigField),
    TransportError(SyncStep),
    ParseError(SyncStep),
    ZoneNotFound { domain: Seq<char> },
    RecordNotFound { domain: Seq<char> },
    UpdateRejected { raw: Seq<u8> },
}

impl View for SyncError {
    type V = ErrorModel;

    open spec fn view(&self) -> ErrorModel {
        match self {
            SyncError::ConfigurationError(f) => ErrorModel::ConfigurationError(*f),
            SyncError::TransportError(s) => ErrorModel::TransportError(*s),
            SyncError::ParseError(s) => ErrorModel::ParseError(*s),
            SyncError::ZoneNotFound { domain } => ErrorModel::ZoneNotFound { domain: domain@ },
            SyncError::RecordNotFound { domain } => ErrorModel::RecordNotFound {
                domain: domain@,
            },
            SyncError::UpdateRejected { raw } => ErrorModel::UpdateRejected { raw: raw@ },
        }
    }
}

/// The diagnostic line for each error.
pub open spec fn message_spec(e: ErrorModel) -> Seq<char> {
    match e {
        ErrorModel::ConfigurationError(ConfigField::Email) => {
            "Set CLOUDFLARE_EMAIL to your Cloudflare account email"@
        },
        ErrorModel::ConfigurationError(ConfigField::ApiKey) => {
            "Set CLOUDFLARE_API_KEY to your Cloudflare API key"@
        },
        ErrorModel::ConfigurationError(ConfigField::Domain) => {
            "Set CLOUDFLARE_DOMAIN to the zone you want to update"@
        },
        ErrorModel::TransportError(s) => "Network request failed during the "@ + step_name_spec(
            s,
        ) + " step"@,
        ErrorModel::ParseError(SyncStep::IpFetch) => "Failed to read the IP lookup response"@,
        ErrorModel::ParseError(s) => "Failed to parse "@ + step_name_spec(s) + " response"@,
        ErrorModel::ZoneNotFound { domain } => "Zone not found for domain "@ + domain,
        ErrorModel::RecordNotFound { domain } => "A record not found for domain "@ + domain,
        ErrorModel::UpdateRejected { raw } => {
            "Cloudflare API reported failure: "@ + crate::text::lossy_of(raw)
        },
    }
}

/// The human name of each step.
pub open spec fn step_name_spec(s: SyncStep) -> Seq<char> {
    match s {
        SyncStep::ZoneLookup => "zone lookup"@,
        SyncStep::RecordLookup => "DNS record"@,
        SyncStep::IpFetch => "IP lookup"@,
        SyncStep::Update => "update"@,
    }
}

/// The human name of each step.
pub fn step_name(s: SyncStep) -> (r: &'static str)
    ensures
        r@ == step_name_spec(s),
{
    match s {
        SyncStep::ZoneLookup => "zone lookup",
        SyncStep::RecordLookup => "DNS record",
        SyncStep::IpFetch => "IP lookup",
        SyncStep::Update => "update",
    }
}

impl SyncError {
    /// Renders the diagnostic line for this error.
    pub fn message(&self) -> (r: String)
        ensures
            r@ == message_spec(self@),
    {
        match self {
            SyncError::ConfigurationError(ConfigField::Email) => {
                String::from_str("Set CLOUDFLARE_EMAIL to your Cloudflare account email")
            },
            SyncError::ConfigurationError(ConfigField::ApiKey) => {
                String::from_str("Set CLOUDFLARE_API_KEY to your Cloudflare API key")
            },
            SyncError::ConfigurationError(ConfigField::Domain) => {
                String::from_str("Set CLOUDFLARE_DOMAIN to the zone you want to update")
            },
            SyncError::TransportError(s) => {
                let mut out = String::from_str("Network request failed during the ");
                out.append(step_name(*s));
                out.append(" step");
                proof {
                    assert(out@ =~= message_spec(self@));
                }
                out
            },
            SyncError::ParseError(SyncStep::IpFetch) => {
                String::from_str("Failed to read the IP lookup response")
            },
            SyncError::ParseError(s) => {
                let mut out = String::from_str("Failed to parse ");
                out.append(step_name(*s));
                out.append(" response");
                proof {
                    assert(out@ =~= message_spec(self@));
                }
                out
            },
            SyncError::ZoneNotFound { domain } => {
                let mut out = String::from_str("Zone not found for domain ");
                out.append(domain.as_str());
                out
            },
            SyncError::RecordNotFound { domain } => {
                let mut out = String::from_str("A record not found for domain ");
                out.append(domain.as_str());
                out
            },
            SyncError::UpdateRejected { raw } => {
                let mut out = String::from_str("Cloudflare API reported failure: ");
                let tail = crate::text::decode_lossy(raw.as_slice());
                out.append(tail.as_str());
                out
            },
        }
    }
}

} // verus!
