//! The access token: where it is asked for, what a response does to it, and
//! when it is asked for again.

use crate::settings::app_settings::Credentials;
use crate::tasks::schedule::{Fault, RefreshError, RefreshOutcome, Status};
use crate::types::time::{TimeSpan, NANOS_PER_SEC};
use vstd::prelude::*;

verus! {

/// What the token is asked for: all that Microsoft Graph allows the client.
pub const SCOPE: &'static str = "https://graph.microsoft.com/.default";

/// Seconds of rest after a renewal that failed.
pub const RETRY_SECS: u64 = 30;

/// Where a tenant's tokens are asked for.
pub open spec fn token_url_of(tenant_id: Seq<char>) -> Seq<char> {
    "https://login.microsoftonline.com/"@ + tenant_id + "/oauth2/v2.0/token"@
}

/// Where a tenant's tokens are asked for.
pub fn token_url(tenant_id: &str) -> (url: String)
    ensures
        url@ == token_url_of(tenant_id@),
{
    let mut url = String::from_str("https://login.microsoftonline.com/");
    url.append(tenant_id);
    url.append("/oauth2/v2.0/token");
    url
}

/// The names and values of a form.
pub open spec fn form_of(fields: Seq<(String, String)>) -> Seq<(Seq<char>, Seq<char>)> {
    fields.map_values(|field: (String, String)| (field.0@, field.1@))
}

/// The form that asks for a token by the client credentials grant.
pub open spec fn token_form_of(client_id: Seq<char>, client_secret: Seq<char>) -> Seq<
    (Seq<char>, Seq<char>),
> {
    seq![
        ("grant_type"@, "client_credentials"@),
        ("scope"@, SCOPE@),
        ("client_id"@, client_id),
        ("client_secret"@, client_secret),
    ]
}

/// A request for a token: a form to be posted to a URL.
#[derive(Debug, Clone)]
pub struct TokenRequest {
    pub url: String,
    pub form: Vec<(String, String)>,
}

/// The request by which the exporter asks for a token for itself.
pub fn token_request(credentials: &Credentials) -> (request: TokenRequest)
    ensures
        request.url@ == token_url_of(credentials.tenant_id@),
        form_of(request.form@) == token_form_of(
            credentials.client_id@,
            credentials.client_secret@,
        ),
{
    let mut form: Vec<(String, String)> = Vec::new();
    form.push((String::from_str("grant_type"), String::from_str("client_credentials")));
    form.push((String::from_str("scope"), String::from_str(SCOPE)));
    form.push((String::from_str("client_id"), credentials.client_id.clone()));
    form.push((String::from_str("client_secret"), credentials.client_secret.clone()));
    assert(form_of(form@) =~= token_form_of(credentials.client_id@, credentials.client_secret@));
    TokenRequest { url: token_url(credentials.tenant_id.as_str()), form }
}

/// What an [`AuthToken`] stands for.
pub struct Grant {
    pub expires_in: nat,
    pub access_token: Seq<char>,
}

/// What the identity provider grants: a token, and the seconds for which it
/// is good.
#[derive(Debug, Clone)]
pub struct AuthToken {
    pub expires_in: u64,
    pub access_token: String,
}

impl View for AuthToken {
    type V = Grant;

    open spec fn view(&self) -> Grant {
        Grant { expires_in: self.expires_in as nat, access_token: self.access_token@ }
    }
}

/// What a response to a request for a token stands for.
pub open spec fn renewal_of(response: Result<AuthToken, RefreshError>) -> Result<Grant, Fault> {
    match response {
        Ok(token) => Ok(token@),
        Err(error) => Err(error@),
    }
}

/// The token after a response: the one that was granted, or, where none
/// was, the one before.
pub open spec fn token_after(token: Seq<char>, renewal: Result<Grant, Fault>) -> Seq<char> {
    match renewal {
        Ok(grant) => grant.access_token,
        Err(_) => token,
    }
}

/// The rest after a response, in nanoseconds: nine tenths of the time for
/// which the token is good, so that the next is there before this one
/// lapses; after a failure, [`RETRY_SECS`].
pub open spec fn rest_after(renewal: Result<Grant, Fault>) -> nat {
    match renewal {
        Ok(grant) => (grant.expires_in * NANOS_PER_SEC * 9 / 10) as nat,
        Err(_) => (RETRY_SECS * NANOS_PER_SEC) as nat,
    }
}

/// The token that the exporter currently holds, empty until the first is
/// granted. Only a granted token ever takes its place.
#[derive(Debug)]
pub struct ApiToken {
    value: String,
}

impl View for ApiToken {
    type V = Seq<char>;

    closed spec fn view(&self) -> Seq<char> {
        self.value@
    }
}

impl ApiToken {
    /// The token of an exporter that has asked for none yet.
    pub fn new() -> (token: ApiToken)
        ensures
            token@ == Seq::<char>::empty(),
    {
        ApiToken { value: String::new() }
    }

    /// The token as it is sent.
    pub fn as_str(&self) -> (token: &str)
        ensures
            token@ == self@,
    {
        self.value.as_str()
    }

    /// Whether no token has been granted yet.
    pub fn is_empty(&self) -> (empty: bool)
        ensures
            empty <==> self@.len() == 0,
    {
        self.value.as_str().is_empty()
    }

    /// Takes a response to a request for a token. A granted token takes the
    /// place of the current one whole, and the time for which it is good is
    /// returned; a failure leaves the current one as it is and is returned.
    pub fn renew(&mut self, response: Result<AuthToken, RefreshError>) -> (validity: Result<
        TimeSpan,
        RefreshError,
    >)
        ensures
            final(self)@ == token_after(old(self)@, renewal_of(response)),
            match response {
                Ok(token) => validity matches Ok(span) && span@ == token.expires_in
                    * NANOS_PER_SEC,
                Err(error) => validity == Err::<TimeSpan, RefreshError>(error),
            },
    {
        match response {
            Ok(token) => {
                self.value = token.access_token;
                Ok(TimeSpan::from_secs(token.expires_in))
            },
            Err(error) => Err(error),
        }
    }
}

/// Ends a round of the token refresher: takes the response to the request
/// and the time that the round took, renews the token or leaves it, and
/// tells how the round went and when the next is due.
pub fn azure_api_token_updater(
    token: &mut ApiToken,
    response: Result<AuthToken, RefreshError>,
    took: TimeSpan,
) -> (outcome: RefreshOutcome)
    ensures
        final(token)@ == token_after(old(token)@, renewal_of(response)),
        outcome@.took == took@,
        outcome@.next_update_in == rest_after(renewal_of(response)),
        match response {
            Ok(_) => outcome.status == Status::Success && outcome.error is None,
            Err(error) => outcome.status == Status::Fail && outcome.error == Some(error),
        },
{
    match token.renew(response) {
        Ok(validity) => RefreshOutcome {
            status: Status::Success,
            took,
            next_update_in: validity.nine_tenths(),
            error: None,
        },
        Err(error) => RefreshOutcome {
            status: Status::Fail,
            took,
            next_update_in: TimeSpan::from_secs(RETRY_SECS),
            error: Some(error),
        },
    }
}

/// The token after a run of responses, the first of them first.
pub open spec fn token_after_all(token: Seq<char>, renewals: Seq<Result<Grant, Fault>>) -> Seq<
    char,
>
    decreases renewals.len(),
{
    if renewals.len() == 0 {
        token
    } else {
        token_after(token_after_all(token, renewals.drop_last()), renewals.last())
    }
}

/// A token is there only once one was granted: whatever the responses, an
/// exporter that began without a token and now holds one has had a renewal
/// that succeeded, and holds what the last of them granted.
pub proof fn lemma_token_was_granted(renewals: Seq<Result<Grant, Fault>>)
    requires
        token_after_all(Seq::<char>::empty(), renewals).len() > 0,
    ensures
        exists|at: int|
            0 <= at < renewals.len() && (#[trigger] renewals[at]) is Ok
                && renewals[at]->Ok_0.access_token == token_after_all(
                Seq::<char>::empty(),
                renewals,
            ) && forall|later: int|
                at < later < renewals.len() ==> (#[trigger] renewals[later]) is Err,
    decreases renewals.len(),
{
    let before = renewals.drop_last();
    let last = renewals.len() - 1;
    assert forall|at: int| 0 <= at < before.len() implies before[at] == renewals[at] by {}
    if renewals[last] is Err {
        lemma_token_was_granted(before);
        let at = choose|at: int|
            0 <= at < before.len() && (#[trigger] before[at]) is Ok
                && before[at]->Ok_0.access_token == token_after_all(Seq::<char>::empty(), before)
                && forall|later: int|
                at < later < before.len() ==> (#[trigger] before[later]) is Err;
        assert(renewals[at] == before[at]);
        assert forall|later: int| at < later < renewals.len() implies (#[trigger] renewals[later]) is Err by {
            if later < before.len() {
                assert(before[later] is Err);
            }
        }
    } else {
        assert(renewals[last] is Ok);
    }
}

/// A renewal that fails is tried again after the short fixed rest, whatever
/// the token had been good for; one that succeeds is renewed after nine
/// tenths of the time for which the new token is good.
pub proof fn lemma_rest_after(renewal: Result<Grant, Fault>)
    ensures
        renewal is Err ==> rest_after(renewal) == 30 * 1_000_000_000nat,
        renewal matches Ok(grant) ==> rest_after(renewal) * 10 <= grant.expires_in * 9
            * 1_000_000_000 < rest_after(renewal) * 10 + 10,
        renewal matches Ok(grant) ==> (grant.expires_in % 10 == 0 ==> rest_after(renewal) == (
        grant.expires_in / 10) * 9 * 1_000_000_000),
{
    if let Ok(grant) = renewal {
        let total = (grant.expires_in * NANOS_PER_SEC * 9) as int;
        vstd::arithmetic::div_mod::lemma_fundamental_div_mod(total, 10);
        if grant.expires_in % 10 == 0 {
            vstd::arithmetic::div_mod::lemma_fundamental_div_mod_converse(
                total,
                10,
                (grant.expires_in / 10) as int * 9 * 1_000_000_000,
                0,
            );
        }
    }
}

} // verus!
