//! The sections of the settings file, what each holds where the file says
//! nothing, and what the file may not say.

use crate::settings::tls_parser::{CipherSuite, KxGroup, ProtocolVersion};
use crate::types::time::{TimeSpan, NANOS_PER_SEC};
use vstd::prelude::*;

verus! {

/// What the settings file may not say.
#[derive(Debug, Clone, Copy, PartialEq, Eq, Structural)]
pub enum SettingsError {
    /// A credential is empty, or still the `...` of the example file.
    NoCredential,
    /// The page size is not one of 1 to 999.
    ResultsPerPageOutOfRange,
    /// A URL is empty or the bare `/`.
    EmptyUrl,
    /// A URL does not start with `/`.
    UrlWithoutLeadingSlash,
}

impl SettingsError {
    /// The fault in words.
    pub fn message(&self) -> (message: &'static str)
        ensures
            message@ == match self {
                SettingsError::NoCredential => "no credential found"@,
                SettingsError::ResultsPerPageOutOfRange => "value not in range 1..=999"@,
                SettingsError::EmptyUrl => "url cannot be empty or \"/\""@,
                SettingsError::UrlWithoutLeadingSlash => "url must start with \"/\""@,
            },
    {
        match self {
            SettingsError::NoCredential => "no credential found",
            SettingsError::ResultsPerPageOutOfRange => "value not in range 1..=999",
            SettingsError::EmptyUrl => "url cannot be empty or \"/\"",
            SettingsError::UrlWithoutLeadingSlash => "url must start with \"/\"",
        }
    }
}

/// The variable of the environment that tells where the settings file is.
pub const SETTINGS_PATH_VAR: &'static str = "AZURE_APP_EXPORTER_SETTINGS_PATH";

/// Where the settings file is looked for when the environment does not
/// tell.
pub const DEFAULT_SETTINGS_PATH: &'static str = "/etc/azure_app_exporter/settings.toml";

/// Where the settings file is: where the environment says it is, or else at
/// [`DEFAULT_SETTINGS_PATH`].
pub fn settings_path(from_environment: Option<String>) -> (path: String)
    ensures
        path@ == match from_environment {
            Some(told) => told@,
            None => DEFAULT_SETTINGS_PATH@,
        },
{
    match from_environment {
        Some(told) => told,
        None => String::from_str(DEFAULT_SETTINGS_PATH),
    }
}

/// What stands in the place of the client secret wherever the settings are
/// shown.
pub const HIDDEN_SECRET: &'static str = "******";

/// Whether `value` is a credential that someone has filled in.
pub open spec fn credential_present(value: Seq<char>) -> bool {
    value.len() != 0 && value != "..."@
}

/// Accepts a credential that has been filled in.
pub fn verify_credential_present(value: String) -> (checked: Result<String, SettingsError>)
    ensures
        credential_present(value@) ==> checked == Ok::<String, SettingsError>(value),
        !credential_present(value@) ==> checked == Err::<String, SettingsError>(
            SettingsError::NoCredential,
        ),
{
    if value.as_str().is_empty() || value == String::from_str("...") {
        Err(SettingsError::NoCredential)
    } else {
        Ok(value)
    }
}

/// The identity under which the exporter asks the directory.
#[derive(Debug, Clone)]
pub struct Credentials {
    pub tenant_id: String,
    pub client_id: String,
    pub client_secret: String,
}

impl Credentials {
    /// The credentials as they may be shown: with the client secret hidden.
    pub fn hide_client_secret(&self) -> (shown: Credentials)
        ensures
            shown.tenant_id@ == self.tenant_id@,
            shown.client_id@ == self.client_id@,
            shown.client_secret@ == HIDDEN_SECRET@,
    {
        Credentials {
            tenant_id: self.tenant_id.clone(),
            client_id: self.client_id.clone(),
            client_secret: String::from_str(HIDDEN_SECRET),
        }
    }
}

/// How the gauges of the credentials are kept.
#[derive(Debug, Clone)]
pub struct Metrics {
    /// A gauge that nothing has set for this long is dropped; none is ever
    /// dropped where this is `None`.
    pub prune_interval: Option<TimeSpan>,
    /// How long the gauges rest between two settings.
    pub refresh_interval: TimeSpan,
}

impl Default for Metrics {
    /// Gauges are set every minute, and dropped after half an hour.
    fn default() -> (metrics: Metrics)
        ensures
            metrics.prune_interval matches Some(interval) && interval@ == 1_800 * NANOS_PER_SEC,
            metrics.refresh_interval@ == 60 * NANOS_PER_SEC,
    {
        Metrics {
            prune_interval: Some(TimeSpan::from_secs(60 * 30)),
            refresh_interval: TimeSpan::from_secs(60),
        }
    }
}

/// The smallest and the largest page that the directory serves.
pub const MIN_RESULTS_PER_PAGE: u16 = 1;

pub const MAX_RESULTS_PER_PAGE: u16 = 999;

/// Accepts a page size that the directory serves.
pub fn de_results_per_page(value: u16) -> (checked: Result<u16, SettingsError>)
    ensures
        checked == if MIN_RESULTS_PER_PAGE <= value <= MAX_RESULTS_PER_PAGE {
            Ok::<u16, SettingsError>(value)
        } else {
            Err::<u16, SettingsError>(SettingsError::ResultsPerPageOutOfRange)
        },
{
    if MIN_RESULTS_PER_PAGE <= value && value <= MAX_RESULTS_PER_PAGE {
        Ok(value)
    } else {
        Err(SettingsError::ResultsPerPageOutOfRange)
    }
}

/// Where the applications are read from, and how often.
#[derive(Debug, Clone)]
pub struct Applications {
    pub enabled: bool,
    /// How long the cache rests between two refreshes, whether the last one
    /// went well or not.
    pub cache_refresh_interval: TimeSpan,
    pub url: String,
    pub results_per_page: u16,
}

impl Default for Applications {
    /// The applications of Microsoft Graph, in pages of 999, every quarter
    /// of an hour.
    fn default() -> (applications: Applications)
        ensures
            applications.enabled,
            applications.cache_refresh_interval@ == 900 * NANOS_PER_SEC,
            applications.url@ == "https://graph.microsoft.com/v1.0/applications"@,
            applications.results_per_page == 999,
    {
        Applications {
            enabled: true,
            cache_refresh_interval: TimeSpan::from_secs(60 * 15),
            url: String::from_str("https://graph.microsoft.com/v1.0/applications"),
            results_per_page: 999,
        }
    }
}

/// What is wrong with `url` as the path of a page of the exporter, if
/// anything is.
pub open spec fn url_fault(url: Seq<char>) -> Option<SettingsError> {
    if url.len() == 0 || url == seq!['/'] {
        Some(SettingsError::EmptyUrl)
    } else if url[0] != '/' {
        Some(SettingsError::UrlWithoutLeadingSlash)
    } else {
        None
    }
}

/// Accepts a path under which the exporter can serve a page: one that
/// starts with `/` and goes on.
pub fn check_url(url: String) -> (checked: Result<String, SettingsError>)
    ensures
        match url_fault(url@) {
            Some(fault) => checked == Err::<String, SettingsError>(fault),
            None => checked == Ok::<String, SettingsError>(url),
        },
{
    let length: usize = url.as_str().unicode_len();
    if length == 0 {
        return Err(SettingsError::EmptyUrl);
    }
    let first: char = url.as_str().get_char(0);
    if first != '/' {
        Err(SettingsError::UrlWithoutLeadingSlash)
    } else if length == 1 {
        assert(url@ == seq!['/']);
        Err(SettingsError::EmptyUrl)
    } else {
        Ok(url)
    }
}

/// Where the description of the API and its browser are served.
#[derive(Debug, Clone)]
pub struct OpenApi {
    pub enabled: bool,
    pub docs_url: String,
    pub swagger_ui_url: String,
}

impl Default for OpenApi {
    fn default() -> (openapi: OpenApi)
        ensures
            openapi.enabled,
            openapi.docs_url@ == "/openapi.json"@,
            openapi.swagger_ui_url@ == "/swagger"@,
    {
        OpenApi {
            enabled: true,
            docs_url: String::from_str("/openapi.json"),
            swagger_ui_url: String::from_str("/swagger"),
        }
    }
}

/// What the listener offers to a client that asks for TLS, each list in the
/// order of preference.
#[derive(Debug, Clone)]
pub struct Tls {
    pub cipher_suites: Vec<CipherSuite>,
    pub key_exchange_groups: Vec<KxGroup>,
    pub protocol_versions: Vec<ProtocolVersion>,
}

impl Default for Tls {
    /// TLS 1.3 before TLS 1.2, and in both the suites with the longer key
    /// first.
    fn default() -> (tls: Tls)
        ensures
            tls.cipher_suites@ == seq![
                CipherSuite::TLS13_AES_256_GCM_SHA384,
                CipherSuite::TLS13_AES_128_GCM_SHA256,
                CipherSuite::TLS13_CHACHA20_POLY1305_SHA256,
                CipherSuite::TLS_ECDHE_ECDSA_WITH_AES_256_GCM_SHA384,
                CipherSuite::TLS_ECDHE_ECDSA_WITH_AES_128_GCM_SHA256,
                CipherSuite::TLS_ECDHE_ECDSA_WITH_CHACHA20_POLY1305_SHA256,
                CipherSuite::TLS_ECDHE_RSA_WITH_AES_256_GCM_SHA384,
                CipherSuite::TLS_ECDHE_RSA_WITH_AES_128_GCM_SHA256,
                CipherSuite::TLS_ECDHE_RSA_WITH_CHACHA20_POLY1305_SHA256,
            ],
            tls.key_exchange_groups@ == seq![
                KxGroup::X25519,
                KxGroup::SECP256R1,
                KxGroup::SECP384R1,
            ],
            tls.protocol_versions@ == seq![ProtocolVersion::TLS13, ProtocolVersion::TLS12],
    {
        let mut cipher_suites: Vec<CipherSuite> = Vec::new();
        cipher_suites.push(CipherSuite::TLS13_AES_256_GCM_SHA384);
        cipher_suites.push(CipherSuite::TLS13_AES_128_GCM_SHA256);
        cipher_suites.push(CipherSuite::TLS13_CHACHA20_POLY1305_SHA256);
        cipher_suites.push(CipherSuite::TLS_ECDHE_ECDSA_WITH_AES_256_GCM_SHA384);
        cipher_suites.push(CipherSuite::TLS_ECDHE_ECDSA_WITH_AES_128_GCM_SHA256);
        cipher_suites.push(CipherSuite::TLS_ECDHE_ECDSA_WITH_CHACHA20_POLY1305_SHA256);
        cipher_suites.push(CipherSuite::TLS_ECDHE_RSA_WITH_AES_256_GCM_SHA384);
        cipher_suites.push(CipherSuite::TLS_ECDHE_RSA_WITH_AES_128_GCM_SHA256);
        cipher_suites.push(CipherSuite::TLS_ECDHE_RSA_WITH_CHACHA20_POLY1305_SHA256);
        let mut key_exchange_groups: Vec<KxGroup> = Vec::new();
        key_exchange_groups.push(KxGroup::X25519);
        key_exchange_groups.push(KxGroup::SECP256R1);
        key_exchange_groups.push(KxGroup::SECP384R1);
        let mut protocol_versions: Vec<ProtocolVersion> = Vec::new();
        protocol_versions.push(ProtocolVersion::TLS13);
        protocol_versions.push(ProtocolVersion::TLS12);
        Tls { cipher_suites, key_exchange_groups, protocol_versions }
    }
}

/// Switches for finding faults. None of them belongs in production.
#[derive(Debug, Clone, Copy)]
pub struct Debug {
    /// Whether the certificates of the directory go unchecked.
    pub no_verify_tls: bool,
}

impl Default for Debug {
    fn default() -> (debug: Debug)
        ensures
            !debug.no_verify_tls,
    {
        Debug { no_verify_tls: false }
    }
}

} // verus!
