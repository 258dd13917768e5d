//! The options of the adapter: where the upstream API is, and which
//! credential opens it.

use vstd::prelude::*;
use vstd::string::*;
use crate::schema::ConfigError;

verus! {

/// Where the bearer credential comes from.
#[derive(Clone, Debug, PartialEq, Eq)]
pub enum Credential {
    /// The credential itself.
    Key(String),
    /// The identifier of a secret that holds the credential.
    SecretId(String),
}

/// The mathematical value of a [`Credential`].
pub enum CredentialV {
    Key(Seq<char>),
    SecretId(Seq<char>),
}

impl View for Credential {
    type V = CredentialV;

    open spec fn view(&self) -> CredentialV {
        match *self {
            Credential::Key(k) => CredentialV::Key(k@),
            Credential::SecretId(id) => CredentialV::SecretId(id@),
        }
    }
}

/// The root of the live upstream API.
pub open spec fn live_api_root() -> Seq<char> {
    "https://api.stripe.com/v1/"@
}

/// The base URL: the `api_url` option where it is set, else the live API.
pub fn base_url(api_url: Option<&str>) -> (r: String)
    ensures
        r@ == match api_url {
            Some(url) => url@,
            None => live_api_root(),
        },
{
    match api_url {
        Some(url) => url.to_owned(),
        None => "https://api.stripe.com/v1/".to_owned(),
    }
}

/// The source of the credential: the `api_key` option where it is set,
/// else the secret that `api_key_id` names; one of the two is required.
pub fn credential(api_key: Option<&str>, api_key_id: Option<&str>) -> (r: Result<Credential, ConfigError>)
    ensures
        match (api_key, api_key_id) {
            (Some(key), _) => r is Ok && r->Ok_0@ == CredentialV::Key(key@),
            (None, Some(id)) => r is Ok && r->Ok_0@ == CredentialV::SecretId(id@),
            (None, None) => r is Err && r->Err_0 == ConfigError::MissingOption,
        },
{
    match api_key {
        Some(key) => Ok(Credential::Key(key.to_owned())),
        None => match api_key_id {
            Some(id) => Ok(Credential::SecretId(id.to_owned())),
            None => Err(ConfigError::MissingOption),
        },
    }
}

/// The value of the authorization header for a credential.
pub fn bearer(api_key: &str) -> (r: String)
    ensures
        r@ == "Bearer "@ + api_key@,
{
    let mut value = "Bearer ".to_owned();
    value.append(api_key);
    value
}

} // verus!
