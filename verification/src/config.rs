//! Credentials of an application: application key, application secret,
//! consumer key, and the host of the API they are valid for.
use crate::document::lookup_string;
use crate::document::parse_document;
use crate::document::string_at;
use crate::document::toml_document;
use crate::document::toml_strings;
use crate::document::Strings;
use vstd::prelude::*;

verus! {

/// Why a configuration gives no credential.
#[derive(Debug, Clone, Copy, PartialEq, Eq, Structural)]
pub enum ConfigError {
    /// The text is not a TOML document.
    Unparsable,
    /// The table `default` names no `endpoint`.
    MissingEndpoint,
    /// The endpoint's table has no `application_key`.
    MissingApplicationKey,
    /// The endpoint's table has no `application_secret`.
    MissingApplicationSecret,
    /// The endpoint's table has no `consumer_key`.
    MissingConsumerKey,
}

/// The host that serves the API of the subsidiary named by `endpoint`.
///
/// Only `ovh-eu` and `ovh-ca` are known; every other name gives the empty
/// host.
pub open spec fn host_of(endpoint: Seq<char>) -> Seq<char> {
    if endpoint == "ovh-eu"@ {
        "eu.api.ovh.com"@
    } else if endpoint == "ovh-ca"@ {
        "ca.api.ovh.com"@
    } else {
        Seq::<char>::empty()
    }
}

/// Whether `host` is one that a credential can hold: the host of a known
/// endpoint, or the empty host that stands for an unknown one.
pub open spec fn is_api_host(host: Seq<char>) -> bool {
    host == "eu.api.ovh.com"@ || host == "ca.api.ovh.com"@ || host == Seq::<char>::empty()
}

/// Every endpoint name is mapped to a host that a credential can hold.
pub proof fn lemma_host_of_is_api_host(endpoint: Seq<char>)
    ensures
        is_api_host(host_of(endpoint)),
{
}

/// Maps the name of a subsidiary's endpoint to the host of its API.
pub fn host2host(host: String) -> (r: String)
    ensures
        r@ == host_of(host@),
        is_api_host(r@),
{
    if host == "ovh-eu".to_owned() {
        "eu.api.ovh.com".to_owned()
    } else if host == "ovh-ca".to_owned() {
        "ca.api.ovh.com".to_owned()
    } else {
        String::new()
    }
}

/// OVH API application credentials: application key, application secret,
/// consumer key, and the host that the calls go to.
#[derive(Debug, Clone)]
pub struct Credential {
    pub host: String,
    pub application_key: String,
    pub application_secret: String,
    pub consumer_key: String,
}

/// What a `Credential` holds, as sequences of characters.
pub struct CredentialView {
    pub host: Seq<char>,
    pub application_key: Seq<char>,
    pub application_secret: Seq<char>,
    pub consumer_key: Seq<char>,
}

impl View for Credential {
    type V = CredentialView;

    open spec fn view(&self) -> CredentialView {
        CredentialView {
            host: self.host@,
            application_key: self.application_key@,
            application_secret: self.application_secret@,
            consumer_key: self.consumer_key@,
        }
    }
}

/// The outcome of loading a credential, with the credential as plain values.
pub open spec fn loaded_view(outcome: Result<Credential, ConfigError>) -> Result<
    CredentialView,
    ConfigError,
> {
    match outcome {
        Ok(credential) => Ok(credential@),
        Err(error) => Err(error),
    }
}

/// The credential that the four entries of a configuration make: the host is
/// that of the endpoint, and the first key that is missing, in the order
/// application key, application secret, consumer key, is the error.
pub open spec fn credential_of_entries(
    endpoint: Seq<char>,
    application_key: Option<Seq<char>>,
    application_secret: Option<Seq<char>>,
    consumer_key: Option<Seq<char>>,
) -> Result<CredentialView, ConfigError> {
    if application_key is None {
        Err(ConfigError::MissingApplicationKey)
    } else if application_secret is None {
        Err(ConfigError::MissingApplicationSecret)
    } else if consumer_key is None {
        Err(ConfigError::MissingConsumerKey)
    } else {
        Ok(
            CredentialView {
                host: host_of(endpoint),
                application_key: application_key.unwrap(),
                application_secret: application_secret.unwrap(),
                consumer_key: consumer_key.unwrap(),
            },
        )
    }
}

/// The credential that a document with these strings configures: the table
/// `default` names the endpoint, and the table of that name holds the three
/// keys.
pub open spec fn credential_of_strings(strings: Strings) -> Result<CredentialView, ConfigError> {
    match string_at(strings, "default"@, "endpoint"@) {
        None => Err(ConfigError::MissingEndpoint),
        Some(endpoint) => credential_of_entries(
            endpoint,
            string_at(strings, endpoint, "application_key"@),
            string_at(strings, endpoint, "application_secret"@),
            string_at(strings, endpoint, "consumer_key"@),
        ),
    }
}

/// The credential that the text of a configuration file gives.
pub open spec fn credential_of_text(text: Seq<char>) -> Result<CredentialView, ConfigError> {
    match toml_document(text) {
        None => Err(ConfigError::Unparsable),
        Some(strings) => credential_of_strings(strings),
    }
}

/// An optional text as an optional sequence of characters.
pub open spec fn text_view(text: Option<String>) -> Option<Seq<char>> {
    match text {
        Some(text) => Some(text@),
        None => None,
    }
}

impl Credential {
    /// Loads the credential from the text of a configuration file: a TOML
    /// document whose table `default` names the endpoint, and whose table of
    /// that name holds `application_key`, `application_secret` and
    /// `consumer_key`.
    pub fn new_from_file(text: &str) -> (r: Result<Credential, ConfigError>)
        ensures
            loaded_view(r) == credential_of_text(text@),
            r is Ok ==> is_api_host(r.unwrap()@.host),
    {
        match parse_document(text) {
            None => Err(ConfigError::Unparsable),
            Some(document) => Credential::from_document(&document),
        }
    }

    /// Reads the credential from a parsed configuration.
    pub fn from_document(document: &toml::Value) -> (r: Result<Credential, ConfigError>)
        ensures
            loaded_view(r) == credential_of_strings(toml_strings(*document)),
            r is Ok ==> is_api_host(r.unwrap()@.host),
    {
        match lookup_string(document, "default", "endpoint") {
            None => Err(ConfigError::MissingEndpoint),
            Some(endpoint) => {
                let application_key: Option<String> = lookup_string(
                    document,
                    endpoint.as_str(),
                    "application_key",
                );
                let application_secret: Option<String> = lookup_string(
                    document,
                    endpoint.as_str(),
                    "application_secret",
                );
                let consumer_key: Option<String> = lookup_string(
                    document,
                    endpoint.as_str(),
                    "consumer_key",
                );
                Credential::from_entries(
                    endpoint,
                    application_key,
                    application_secret,
                    consumer_key,
                )
            },
        }
    }

    /// Makes the credential of the endpoint named `endpoint` from the three
    /// keys that its table holds.
    pub fn from_entries(
        endpoint: String,
        application_key: Option<String>,
        application_secret: Option<String>,
        consumer_key: Option<String>,
    ) -> (r: Result<Credential, ConfigError>)
        ensures
            loaded_view(r) == credential_of_entries(
                endpoint@,
                text_view(application_key),
                text_view(application_secret),
                text_view(consumer_key),
            ),
            r is Ok ==> is_api_host(r.unwrap()@.host),
    {
        let application_key: String = match application_key {
            Some(key) => key,
            None => {
                return Err(ConfigError::MissingApplicationKey);
            },
        };
        let application_secret: String = match application_secret {
            Some(secret) => secret,
            None => {
                return Err(ConfigError::MissingApplicationSecret);
            },
        };
        let consumer_key: String = match consumer_key {
            Some(key) => key,
            None => {
                return Err(ConfigError::MissingConsumerKey);
            },
        };
        Ok(
            Credential {
                host: host2host(endpoint),
                application_key,
                application_secret,
                consumer_key,
            },
        )
    }

    /// A credential with an application key and secret and no consumer key
    /// yet, for the European endpoint.
    pub fn new_with_application(application_key: &str, application_secret: &str) -> (r: Credential)
        ensures
            r@ == (CredentialView {
                host: "eu.api.ovh.com"@,
                application_key: application_key@,
                application_secret: application_secret@,
                consumer_key: Seq::<char>::empty(),
            }),
            is_api_host(r@.host),
    {
        Credential {
            host: "eu.api.ovh.com".to_owned(),
            application_key: application_key.to_owned(),
            application_secret: application_secret.to_owned(),
            consumer_key: String::new(),
        }
    }

    /// A credential with all three keys, for the European endpoint.
    pub fn new_with_credential(
        application_key: &str,
        application_secret: &str,
        consumer_key: &str,
    ) -> (r: Credential)
        ensures
            r@ == (CredentialView {
                host: "eu.api.ovh.com"@,
                application_key: application_key@,
                application_secret: application_secret@,
                consumer_key: consumer_key@,
            }),
            is_api_host(r@.host),
    {
        Credential {
            host: "eu.api.ovh.com".to_owned(),
            application_key: application_key.to_owned(),
            application_secret: application_secret.to_owned(),
            consumer_key: consumer_key.to_owned(),
        }
    }
}

} // verus!
