use azure_app_exporter::settings::app_settings::Credentials;
use azure_app_exporter::tasks::api_token_updater::{
    azure_api_token_updater, token_request, token_url, ApiToken, AuthToken, RETRY_SECS, SCOPE,
};
use azure_app_exporter::tasks::schedule::{RefreshError, Status};
use azure_app_exporter::types::time::TimeSpan;

fn grant(access_token: &str, expires_in: u64) -> Result<AuthToken, RefreshError> {
    Ok(AuthToken { expires_in, access_token: access_token.to_string() })
}

fn timeout() -> Result<AuthToken, RefreshError> {
    Err(RefreshError::Transport("operation timed out".to_string()))
}

fn seconds(span: &TimeSpan) -> (u64, u32) {
    (span.as_secs(), span.subsec_nanos())
}

#[test]
fn token_is_asked_for_at_the_tenants_endpoint() {
    assert_eq!(
        token_url("contoso"),
        "https://login.microsoftonline.com/contoso/oauth2/v2.0/token"
    );
    assert_eq!(token_url(""), "https://login.microsoftonline.com//oauth2/v2.0/token");
}

#[test]
fn token_request_is_a_client_credentials_grant() {
    let credentials = Credentials {
        tenant_id: "tenant".to_string(),
        client_id: "client".to_string(),
        client_secret: "secret".to_string(),
    };
    let request = token_request(&credentials);
    assert_eq!(request.url, "https://login.microsoftonline.com/tenant/oauth2/v2.0/token");
    let form: Vec<(&str, &str)> =
        request.form.iter().map(|(name, value)| (name.as_str(), value.as_str())).collect();
    assert_eq!(
        form,
        [
            ("grant_type", "client_credentials"),
            ("scope", "https://graph.microsoft.com/.default"),
            ("client_id", "client"),
            ("client_secret", "secret"),
        ]
    );
    assert_eq!(SCOPE, "https://graph.microsoft.com/.default");
}

#[test]
fn token_is_empty_until_granted() {
    let token = ApiToken::new();
    assert!(token.is_empty());
    assert_eq!(token.as_str(), "");
}

#[test]
fn renewal_replaces_the_token_and_tells_its_validity() {
    let mut token = ApiToken::new();
    let validity = token.renew(grant("first", 3_600)).expect("granted");
    assert_eq!(seconds(&validity), (3_600, 0));
    assert_eq!(token.as_str(), "first");
    assert!(!token.is_empty());
    let validity = token.renew(grant("second", 1)).expect("granted");
    assert_eq!(seconds(&validity), (1, 0));
    assert_eq!(token.as_str(), "second");
}

#[test]
fn failed_renewal_leaves_the_token() {
    let mut token = ApiToken::new();
    assert!(matches!(token.renew(timeout()), Err(RefreshError::Transport(_))));
    assert!(token.is_empty());
    token.renew(grant("kept", 60)).expect("granted");
    match token.renew(Err(RefreshError::Status(503))) {
        Err(RefreshError::Status(status)) => assert_eq!(status, 503),
        _ => panic!("the failure is handed on"),
    }
    assert_eq!(token.as_str(), "kept");
}

#[test]
fn next_renewal_is_due_after_nine_tenths_of_the_validity() {
    let mut token = ApiToken::new();
    let outcome = azure_api_token_updater(&mut token, grant("t", 1_000), TimeSpan::from_secs(2));
    assert_eq!(outcome.status, Status::Success);
    assert!(outcome.error.is_none());
    assert_eq!(seconds(&outcome.next_update_in), (900, 0));
    assert_eq!(outcome.next_update_in_millis(), 900_000);
    assert_eq!(seconds(&outcome.took), (2, 0));
    assert_eq!(outcome.took_millis(), 2_000);
    assert_eq!(token.as_str(), "t");

    let outcome = azure_api_token_updater(&mut token, grant("u", 3_599), TimeSpan::from_secs(0));
    assert_eq!(seconds(&outcome.next_update_in), (3_239, 100_000_000));
    assert_eq!(outcome.next_update_in_millis(), 3_239_100);
    assert_eq!(token.as_str(), "u");

    let outcome = azure_api_token_updater(&mut token, grant("v", 0), TimeSpan::from_secs(0));
    assert_eq!(seconds(&outcome.next_update_in), (0, 0));

    let outcome = azure_api_token_updater(&mut token, grant("w", u64::MAX), TimeSpan::from_secs(0));
    assert_eq!(seconds(&outcome.next_update_in), (16_602_069_666_338_596_453, 500_000_000));
}

#[test]
fn failed_renewal_is_tried_again_after_the_short_rest() {
    let mut token = ApiToken::new();
    azure_api_token_updater(&mut token, grant("good for an hour", 3_600), TimeSpan::from_secs(1));
    let took = TimeSpan::new(120, 5_000_000).expect("a span");
    let outcome = azure_api_token_updater(&mut token, timeout(), took);
    assert_eq!(outcome.status, Status::Fail);
    assert_eq!(seconds(&outcome.next_update_in), (30, 0));
    assert_eq!(outcome.next_update_in_millis(), 30_000);
    assert_eq!(outcome.took_millis(), 120_005);
    assert_eq!(RETRY_SECS, 30);
    match outcome.error {
        Some(RefreshError::Transport(cause)) => assert_eq!(cause, "operation timed out"),
        _ => panic!("the cause is kept"),
    }
    assert_eq!(token.as_str(), "good for an hour");
}

#[test]
fn rounds_are_labelled_by_how_they_went() {
    assert_eq!(Status::Success.label(), "success");
    assert_eq!(Status::Fail.label(), "fail");
}
