use azure_app_exporter::types::applications::{
    end_date_time_from, parse_date_time, AzureApplication, AzureApplications, DecodedApplication,
    DecodedCredential, DecodedPage, InvalidTime, PasswordCredential, RemainingLifetime,
};
use azure_app_exporter::types::time::Timestamp;

fn at(secs: i64, nanos: u32) -> Timestamp {
    Timestamp::new(secs, nanos).expect("an instant")
}

fn credential(end_date_time: Option<Timestamp>) -> PasswordCredential {
    PasswordCredential { key_id: "key".to_string(), display_name: None, end_date_time }
}

fn decoded_credential(key_id: &str, end_date_time: Option<&str>) -> DecodedCredential {
    DecodedCredential {
        key_id: key_id.to_string(),
        display_name: Some(format!("secret {key_id}")),
        end_date_time: end_date_time.map(str::to_string),
    }
}

fn decoded_application(id: &str, credentials: Vec<DecodedCredential>) -> DecodedApplication {
    DecodedApplication {
        id: id.to_string(),
        app_id: format!("app-{id}"),
        display_name: Some(format!("application {id}")),
        password_credentials: credentials,
    }
}

#[test]
fn credential_without_end_lives_on() {
    let forever = credential(None);
    assert_eq!(forever.remaining_seconds_at(&at(0, 0)), RemainingLifetime::Unlimited);
    assert_eq!(forever.remaining_seconds_at(&at(1_704_067_200, 5)), RemainingLifetime::Unlimited);
    assert_eq!(forever.remaining_seconds(), RemainingLifetime::Unlimited);
}

#[test]
fn credential_counts_down_to_its_end() {
    let ends = credential(Some(at(1_704_067_200, 0)));
    assert_eq!(
        ends.remaining_seconds_at(&at(1_704_067_100, 0)),
        RemainingLifetime::Nanoseconds(100_000_000_000)
    );
    assert_eq!(
        ends.remaining_seconds_at(&at(1_704_067_100, 1)),
        RemainingLifetime::Nanoseconds(99_999_999_999)
    );
    assert_eq!(
        ends.remaining_seconds_at(&at(1_704_067_199, 999_999_999)),
        RemainingLifetime::Nanoseconds(1)
    );
    assert_eq!(ends.remaining_seconds_at(&at(1_704_067_200, 0)), RemainingLifetime::Nanoseconds(0));
}

#[test]
fn credential_past_its_end_is_in_the_negative() {
    let ended = credential(Some(at(1_704_067_200, 0)));
    assert_eq!(
        ended.remaining_seconds_at(&at(1_704_067_201, 0)),
        RemainingLifetime::Nanoseconds(-1_000_000_000)
    );
    assert_eq!(
        ended.remaining_seconds_at(&at(1_704_153_600, 0)),
        RemainingLifetime::Nanoseconds(-86_400_000_000_000)
    );
    // less than a second past the end is past the end all the same
    assert_eq!(
        ended.remaining_seconds_at(&at(1_704_067_200, 500_000_000)),
        RemainingLifetime::Nanoseconds(-500_000_000)
    );
    assert_eq!(
        ended.remaining_seconds_at(&at(1_704_067_200, 1)),
        RemainingLifetime::Nanoseconds(-1)
    );
    let ended = credential(Some(at(100, 0)));
    assert_eq!(
        ended.remaining_seconds_at(&at(100, 500_000_000)),
        RemainingLifetime::Nanoseconds(-500_000_000)
    );
}

#[test]
fn credential_that_ended_long_ago_is_negative_by_the_clock() {
    let ended = credential(Some(at(0, 0)));
    match ended.remaining_seconds() {
        RemainingLifetime::Nanoseconds(nanos) => assert!(nanos < -1_700_000_000_000_000_000),
        RemainingLifetime::Unlimited => panic!("the credential has an end"),
    }
    let far = credential(Some(at(9_000_000_000, 0)));
    match far.remaining_seconds() {
        RemainingLifetime::Nanoseconds(nanos) => {
            assert!(nanos > 0 && nanos < 9_000_000_000_000_000_000)
        }
        RemainingLifetime::Unlimited => panic!("the credential has an end"),
    }
}

#[test]
fn credential_that_has_just_ended_is_negative_by_the_clock() {
    let just_now = Timestamp::now();
    let ended = credential(Some(just_now));
    // let the clock move on, by however little
    for _ in 0..100_000_000 {
        if Timestamp::now().nanos_since(&just_now) > 0 {
            break;
        }
    }
    match ended.remaining_seconds() {
        RemainingLifetime::Nanoseconds(nanos) => assert!(nanos < 0 && nanos > -60_000_000_000),
        RemainingLifetime::Unlimited => panic!("the credential has an end"),
    }
}

#[test]
fn end_is_read_from_text() {
    let end = parse_date_time(Some("2024-01-01T00:00:00Z".to_string()))
        .expect("a date and time")
        .expect("an end");
    assert_eq!((end.secs(), end.nanos()), (1_704_067_200, 0));
    assert!(parse_date_time(None).expect("no text is no fault").is_none());
}

#[test]
fn end_is_the_instant_whatever_the_offset() {
    let end = parse_date_time(Some("2024-01-01T02:00:00+02:00".to_string()))
        .expect("a date and time")
        .expect("an end");
    assert_eq!((end.secs(), end.nanos()), (1_704_067_200, 0));
    let end = parse_date_time(Some("2023-12-31T16:00:00-08:00".to_string()))
        .expect("a date and time")
        .expect("an end");
    assert_eq!((end.secs(), end.nanos()), (1_704_067_200, 0));
}

#[test]
fn end_that_is_no_date_is_rejected_with_its_text() {
    let invalid = parse_date_time(Some("next week".to_string())).expect_err("no date");
    assert_eq!(invalid.text, "next week");
    assert_eq!(invalid.reason, "input contains invalid characters");
    assert_eq!(
        invalid.message(),
        "invalid time 'next week', expected format ISO 8601 or RFC 3339: input contains invalid characters"
    );
    let invalid = parse_date_time(Some(String::new())).expect_err("no date");
    assert_eq!(invalid.text, "");
}

#[test]
fn end_follows_the_outcome_of_reading() {
    let read = end_date_time_from("2024".to_string(), Ok(at(5, 6))).expect("read");
    let end = read.expect("an end");
    assert_eq!((end.secs(), end.nanos()), (5, 6));
    let invalid = end_date_time_from("2024".to_string(), Err("too short".to_string()))
        .expect_err("not read");
    assert_eq!(invalid.text, "2024");
    assert_eq!(invalid.reason, "too short");
}

#[test]
fn invalid_time_message_quotes_text_and_reason() {
    let invalid = InvalidTime { text: "x".to_string(), reason: "y".to_string() };
    assert_eq!(invalid.message(), "invalid time 'x', expected format ISO 8601 or RFC 3339: y");
    let empty = InvalidTime { text: String::new(), reason: String::new() };
    assert_eq!(empty.message(), "invalid time '', expected format ISO 8601 or RFC 3339: ");
}

#[test]
fn decoded_credential_keeps_its_fields() {
    let read = PasswordCredential::from_decoded(decoded_credential("k1", Some("2024-01-01T00:00:00Z")))
        .expect("a credential");
    assert_eq!(read.key_id, "k1");
    assert_eq!(read.display_name.as_deref(), Some("secret k1"));
    let end = read.end_date_time.expect("an end");
    assert_eq!((end.secs(), end.nanos()), (1_704_067_200, 0));
    let read = PasswordCredential::from_decoded(decoded_credential("k2", None)).expect("a credential");
    assert!(read.end_date_time.is_none());
}

#[test]
fn decoded_application_keeps_its_credentials_in_order() {
    let decoded = decoded_application(
        "a",
        vec![
            decoded_credential("k1", Some("2024-01-01T00:00:00Z")),
            decoded_credential("k2", None),
            decoded_credential("k3", Some("2025-06-30T12:30:00.25Z")),
        ],
    );
    let read = AzureApplication::from_decoded(decoded).expect("an application");
    assert_eq!(read.id, "a");
    assert_eq!(read.app_id, "app-a");
    assert_eq!(read.display_name.as_deref(), Some("application a"));
    let keys: Vec<&str> = read.password_credentials.iter().map(|c| c.key_id.as_str()).collect();
    assert_eq!(keys, ["k1", "k2", "k3"]);
    assert!(read.password_credentials[1].end_date_time.is_none());
    let end = read.password_credentials[2].end_date_time.expect("an end");
    assert_eq!((end.secs(), end.nanos()), (1_751_286_600, 250_000_000));
}

#[test]
fn page_with_one_credential_round_trips_its_end() {
    let decoded = DecodedPage {
        next_link: None,
        value: vec![decoded_application(
            "00000000-0000-0000-0000-000000000001",
            vec![decoded_credential("k", Some("2024-01-01T00:00:00Z"))],
        )],
    };
    let page = AzureApplications::from_decoded(decoded).expect("a page");
    assert!(page.next_link.is_none());
    assert_eq!(page.value.len(), 1);
    let end = page.value[0].password_credentials[0].end_date_time.expect("an end");
    assert_eq!(end.secs(), 1_704_067_200);
    assert_eq!(end.nanos(), 0);
    let same = chrono::DateTime::parse_from_rfc3339("2024-01-01T00:00:00Z").expect("rfc 3339");
    assert_eq!(end.secs(), same.timestamp());
    assert_eq!(end.nanos(), same.timestamp_subsec_nanos());
}

#[test]
fn page_keeps_link_and_applications() {
    let decoded = DecodedPage {
        next_link: Some("https://graph.microsoft.com/next".to_string()),
        value: vec![decoded_application("a", vec![]), decoded_application("b", vec![])],
    };
    let page = AzureApplications::from_decoded(decoded).expect("a page");
    assert_eq!(page.next_link.as_deref(), Some("https://graph.microsoft.com/next"));
    let ids: Vec<&str> = page.value.iter().map(|a| a.id.as_str()).collect();
    assert_eq!(ids, ["a", "b"]);
}

#[test]
fn page_with_a_malformed_end_is_rejected_whole() {
    let decoded = DecodedPage {
        next_link: None,
        value: vec![
            decoded_application("a", vec![decoded_credential("k1", Some("2024-01-01T00:00:00Z"))]),
            decoded_application(
                "b",
                vec![
                    decoded_credential("k2", None),
                    decoded_credential("k3", Some("01/02/2024")),
                    decoded_credential("k4", Some("also wrong")),
                ],
            ),
            decoded_application("c", vec![decoded_credential("k5", Some("wrong again"))]),
        ],
    };
    let invalid = AzureApplications::from_decoded(decoded).expect_err("a malformed end");
    // the first malformed end, in the order of the page, is the one reported
    assert_eq!(invalid.text, "01/02/2024");
}

#[test]
fn empty_page_is_read_as_empty() {
    let page = AzureApplications::from_decoded(DecodedPage { next_link: None, value: vec![] })
        .expect("a page");
    assert!(page.value.is_empty());
    assert!(page.next_link.is_none());
}
