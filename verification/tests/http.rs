use azure_app_exporter::app_metrics::{
    APPLICATIONS_SECONDS, APPLICATION_PASSWORD_SECONDS, APP_INFO, REQUESTS_TOTAL, REQUEST_SECONDS,
    REQUEST_SIZE, RESPONSE_SIZE, RUST_INFO, TOKEN_SECONDS,
};
use azure_app_exporter::cache::ResourceCache;
use azure_app_exporter::middleware::{request_labels, UNSUPPORTED_URL};
use azure_app_exporter::routes::applications::{
    get_all_applications, get_application_by_id, SWAGGER_UI_LIMIT,
};
use azure_app_exporter::tasks::metrics_updater::azure_metrics_updater;
use azure_app_exporter::types::applications::{
    AzureApplication, PasswordCredential, RemainingLifetime,
};
use azure_app_exporter::types::time::Timestamp;
use azure_app_exporter::utils::from_swagger_ui_header::FromSwaggerUi;

fn application(id: &str, ends: &[Option<i64>]) -> AzureApplication {
    AzureApplication {
        id: id.to_string(),
        app_id: format!("app-{id}"),
        display_name: Some(format!("application {id}")),
        password_credentials: ends
            .iter()
            .enumerate()
            .map(|(n, end)| PasswordCredential {
                key_id: format!("{id}-key-{n}"),
                display_name: if n % 2 == 0 { Some(format!("secret {n}")) } else { None },
                end_date_time: end.map(|secs| Timestamp::new(secs, 0).expect("an instant")),
            })
            .collect(),
    }
}

fn cache_of(count: usize) -> ResourceCache {
    let mut cache = ResourceCache::new();
    cache.replace_all((0..count).map(|n| application(&format!("id-{n}"), &[])).collect());
    cache
}

fn pairs(labels: &[(String, String)]) -> Vec<(&str, &str)> {
    labels.iter().map(|(name, value)| (name.as_str(), value.as_str())).collect()
}

#[test]
fn request_is_labelled_with_method_host_route_and_status() {
    let labels = request_labels("GET", Some("localhost:9081"), Some("/api/apps/:id"), 200);
    assert_eq!(
        pairs(&labels),
        [("method", "GET"), ("host", "localhost:9081"), ("path", "/api/apps/:id"), ("status", "200")]
    );
}

#[test]
fn request_that_matched_no_route_shares_one_path() {
    let labels = request_labels("POST", None, None, 404);
    assert_eq!(
        pairs(&labels),
        [("method", "POST"), ("host", ""), ("path", "unsupported-url"), ("status", "404")]
    );
    assert_eq!(UNSUPPORTED_URL, "unsupported-url");
}

#[test]
fn api_browser_is_shown_fifty_applications_at_most() {
    let cache = cache_of(60);
    assert_eq!(get_all_applications(&cache, None).len(), 60);
    let shown = get_all_applications(&cache, Some(FromSwaggerUi));
    assert_eq!(shown.len(), 50);
    assert_eq!(SWAGGER_UI_LIMIT, 50);
    let all = get_all_applications(&cache, None);
    for (one, other) in shown.iter().zip(all) {
        assert_eq!(one.id, other.id);
    }
    let cache = cache_of(50);
    assert_eq!(get_all_applications(&cache, Some(FromSwaggerUi)).len(), 50);
    let cache = cache_of(3);
    assert_eq!(get_all_applications(&cache, Some(FromSwaggerUi)).len(), 3);
    let cache = cache_of(0);
    assert_eq!(get_all_applications(&cache, Some(FromSwaggerUi)).len(), 0);
    assert_eq!(get_all_applications(&cache, None).len(), 0);
}

#[test]
fn application_is_looked_up_by_id() {
    let cache = cache_of(3);
    assert_eq!(get_application_by_id(&cache, "id-1").expect("cached").app_id, "app-id-1");
    assert!(get_application_by_id(&cache, "id-3").is_none());
    assert!(get_application_by_id(&ResourceCache::new(), "id-1").is_none());
}

#[test]
fn every_credential_is_measured() {
    let applications = [
        application("a", &[Some(1_000), None, Some(10)]),
        application("b", &[]),
        application("c", &[Some(500)]),
    ];
    let now = Timestamp::new(500, 250_000_000).expect("an instant");
    let samples = azure_metrics_updater(&applications, &now);
    let told: Vec<(&str, &str, RemainingLifetime)> =
        samples.iter().map(|s| (s.id.as_str(), s.key_id.as_str(), s.remaining)).collect();
    assert_eq!(
        told,
        [
            ("a", "a-key-0", RemainingLifetime::Nanoseconds(499_750_000_000)),
            ("a", "a-key-1", RemainingLifetime::Unlimited),
            ("a", "a-key-2", RemainingLifetime::Nanoseconds(-490_250_000_000)),
            ("c", "c-key-0", RemainingLifetime::Nanoseconds(-250_000_000)),
        ]
    );
    assert_eq!(samples[0].app_id, "app-a");
    assert_eq!(samples[0].app_name.as_deref(), Some("application a"));
    assert_eq!(samples[0].key_name.as_deref(), Some("secret 0"));
    assert_eq!(samples[1].key_name, None);
    assert!(azure_metrics_updater(&[], &now).is_empty());
}

#[test]
fn measurements_are_published_under_the_exporters_name() {
    let names = [
        REQUESTS_TOTAL,
        REQUEST_SECONDS,
        REQUEST_SIZE,
        RESPONSE_SIZE,
        TOKEN_SECONDS,
        APPLICATIONS_SECONDS,
        APPLICATION_PASSWORD_SECONDS,
        APP_INFO,
        RUST_INFO,
    ];
    for name in names {
        assert!(name.starts_with("azure_app_exporter_"), "{name}");
    }
    assert_eq!(REQUESTS_TOTAL, "azure_app_exporter_requests_total");
    assert_eq!(REQUEST_SECONDS, "azure_app_exporter_request_duration_seconds");
    assert_eq!(REQUEST_SIZE, "azure_app_exporter_request_size_bytes");
    assert_eq!(RESPONSE_SIZE, "azure_app_exporter_response_size_bytes");
    assert_eq!(TOKEN_SECONDS, "azure_app_exporter_azure_api_token_update_duration_seconds");
    assert_eq!(
        APPLICATIONS_SECONDS,
        "azure_app_exporter_azure_applications_update_duration_seconds"
    );
    assert_eq!(
        APPLICATION_PASSWORD_SECONDS,
        "azure_app_exporter_azure_application_password_remaining_seconds"
    );
    assert_eq!(APP_INFO, "azure_app_exporter_app_info");
    assert_eq!(RUST_INFO, "azure_app_exporter_rust_info");
}
