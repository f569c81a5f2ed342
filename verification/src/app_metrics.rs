//! The names under which the exporter's own measurements are published.

use vstd::prelude::*;

verus! {

/// Counts the HTTP requests that were handled.
pub const REQUESTS_TOTAL: &'static str = "azure_app_exporter_requests_total";

/// Observes how long the handling of an HTTP request took.
pub const REQUEST_SECONDS: &'static str = "azure_app_exporter_request_duration_seconds";

/// Observes the size of the body of an HTTP request.
pub const REQUEST_SIZE: &'static str = "azure_app_exporter_request_size_bytes";

/// Observes the size of the body of an HTTP response.
pub const RESPONSE_SIZE: &'static str = "azure_app_exporter_response_size_bytes";

/// Observes how long a round of the token refresher took.
pub const TOKEN_SECONDS: &'static str = "azure_app_exporter_azure_api_token_update_duration_seconds";

/// Observes how long a round of the cache refresher took.
pub const APPLICATIONS_SECONDS: &'static str =
    "azure_app_exporter_azure_applications_update_duration_seconds";

/// Shows the seconds that are left to a password credential.
pub const APPLICATION_PASSWORD_SECONDS: &'static str =
    "azure_app_exporter_azure_application_password_remaining_seconds";

/// Tells the version of the exporter.
pub const APP_INFO: &'static str = "azure_app_exporter_app_info";

/// Tells the compiler that built the exporter.
pub const RUST_INFO: &'static str = "azure_app_exporter_rust_info";

} // verus!
