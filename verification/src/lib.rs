use vstd::prelude::*;

pub mod errors;
pub mod json;
pub mod laws;
pub mod reconcile;
pub mod responses;
pub mod text;

verus! {

/// Immutable configuration loaded once at startup: the account email, the
/// API secret, and the fully-qualified domain whose address record is kept
/// in sync.
#[derive(Debug, Clone)]
pub struct Credentials {
    pub email: String,
    pub api_key: String,
    pub domain: String,
}

/// Mathematical model of `Credentials`: the three fields as character
/// sequences.
pub struct CredentialsModel {
    pub email: Seq<char>,
    pub api_key: Seq<char>,
    pub domain: Seq<char>,
}

impl View for Credentials {
    type V = CredentialsModel;

    open spec fn view(&self) -> CredentialsModel {
        CredentialsModel { email: self.email@, api_key: self.api_key@, domain: self.domain@ }
    }
}

impl Credentials {
    /// Packs the three startup values.
    pub fn new(email: String, api_key: String, domain: String) -> (r: Credentials)
        ensures
            r@ == (CredentialsModel { email: email@, api_key: api_key@, domain: domain@ }),
    {
        Credentials { email, api_key, domain }
    }

    /// Validates the startup values as they come from the environment:
    /// each of the three must be present, and the first missing one names
    /// the configuration error.
    pub fn from_values(
        email: Option<String>,
        api_key: Option<String>,
        domain: Option<String>,
    ) -> (r: Result<Credentials, errors::SyncError>)
        ensures
            match (email, api_key, domain) {
                (Some(e), Some(k), Some(d)) => r matches Ok(c) && c@ == (CredentialsModel {
                    email: e@,
                    api_key: k@,
                    domain: d@,
                }),
                (None, _, _) => r matches Err(err) && err@
                    == errors::ErrorModel::ConfigurationError(errors::ConfigField::Email),
                (_, None, _) => r matches Err(err) && err@
                    == errors::ErrorModel::ConfigurationError(errors::ConfigField::ApiKey),
                (_, _, None) => r matches Err(err) && err@
                    == errors::ErrorModel::ConfigurationError(errors::ConfigField::Domain),
            },
    {
        let email = match email {
            Some(e) => e,
            None => {
                return Err(errors::SyncError::ConfigurationError(errors::ConfigField::Email));
            },
        };
        let api_key = match api_key {
            Some(k) => k,
            None => {
                return Err(errors::SyncError::ConfigurationError(errors::ConfigField::ApiKey));
            },
        };
        let domain = match domain {
            Some(d) => d,
            None => {
                return Err(errors::SyncError::ConfigurationError(errors::ConfigField::Domain));
            },
        };
        Ok(Credentials { email, api_key, domain })
    }
}

} // verus!
