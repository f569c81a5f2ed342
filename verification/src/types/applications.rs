//! Application registrations and their password credentials, as the
//! directory lists them.

use crate::types::time::{
    chrono_parse_utc, is_before, is_instant, lemma_before_is_negative, nanos_between,
    straddles_leap_midnight, Instant, Timestamp,
};
use vstd::prelude::*;

verus! {

/// The characters of a text that may be absent.
pub open spec fn text_of(text: Option<String>) -> Option<Seq<char>> {
    match text {
        Some(text) => Some(text@),
        None => None,
    }
}

/// The instant of a timestamp that may be absent.
pub open spec fn instant_of(timestamp: Option<Timestamp>) -> Option<Instant> {
    match timestamp {
        Some(timestamp) => Some(timestamp@),
        None => None,
    }
}

/// What a [`PasswordCredential`] stands for.
pub struct Credential {
    pub key_id: Seq<char>,
    pub display_name: Option<Seq<char>>,
    pub end_date_time: Option<Instant>,
}

/// A client secret of an application. One without an end never expires.
#[derive(Clone, Debug)]
pub struct PasswordCredential {
    pub key_id: String,
    pub display_name: Option<String>,
    pub end_date_time: Option<Timestamp>,
}

impl View for PasswordCredential {
    type V = Credential;

    open spec fn view(&self) -> Credential {
        Credential {
            key_id: self.key_id@,
            display_name: text_of(self.display_name),
            end_date_time: instant_of(self.end_date_time),
        }
    }
}

/// What a sequence of credentials stands for.
pub open spec fn credentials_of(credentials: Seq<PasswordCredential>) -> Seq<Credential> {
    credentials.map_values(|credential: PasswordCredential| credential@)
}

/// What an [`AzureApplication`] stands for.
pub struct Application {
    pub id: Seq<char>,
    pub app_id: Seq<char>,
    pub display_name: Option<Seq<char>>,
    pub password_credentials: Seq<Credential>,
}

/// An application registration. Its `id` is what the directory, and the
/// cache, know it by.
#[derive(Clone, Debug)]
pub struct AzureApplication {
    pub id: String,
    pub app_id: String,
    pub display_name: Option<String>,
    pub password_credentials: Vec<PasswordCredential>,
}

impl View for AzureApplication {
    type V = Application;

    open spec fn view(&self) -> Application {
        Application {
            id: self.id@,
            app_id: self.app_id@,
            display_name: text_of(self.display_name),
            password_credentials: credentials_of(self.password_credentials@),
        }
    }
}

/// What a sequence of applications stands for.
pub open spec fn applications_of(applications: Seq<AzureApplication>) -> Seq<Application> {
    applications.map_values(|application: AzureApplication| application@)
}

/// What an [`AzureApplications`] stands for.
pub struct Page {
    pub next_link: Option<Seq<char>>,
    pub value: Seq<Application>,
}

/// One page of the directory's list of applications. A page that has a
/// `next_link` is followed by another, to be had from that link.
#[derive(Clone, Debug)]
pub struct AzureApplications {
    pub next_link: Option<String>,
    pub value: Vec<AzureApplication>,
}

impl View for AzureApplications {
    type V = Page;

    open spec fn view(&self) -> Page {
        Page { next_link: text_of(self.next_link), value: applications_of(self.value@) }
    }
}

/// What an [`InvalidTime`] stands for.
pub struct Rejection {
    pub text: Seq<char>,
    pub reason: Seq<char>,
}

/// A credential's end that could not be read as a date and time.
#[derive(Clone, Debug)]
pub struct InvalidTime {
    /// The text as the directory gave it.
    pub text: String,
    /// Why it is no date and time.
    pub reason: String,
}

impl View for InvalidTime {
    type V = Rejection;

    open spec fn view(&self) -> Rejection {
        Rejection { text: self.text@, reason: self.reason@ }
    }
}

/// The words in which a [`Rejection`] is reported.
pub open spec fn rejection_message(rejection: Rejection) -> Seq<char> {
    "invalid time '"@ + rejection.text + "', expected format ISO 8601 or RFC 3339: "@
        + rejection.reason
}

impl InvalidTime {
    /// The rejection in words, for a log or an error message.
    pub fn message(&self) -> (message: String)
        ensures
            message@ == rejection_message(self@),
    {
        let mut message = String::from_str("invalid time '");
        message.append(self.text.as_str());
        message.append("', expected format ISO 8601 or RFC 3339: ");
        message.append(self.reason.as_str());
        message
    }
}

/// The end of a credential, read from the text in which the directory gives
/// it. No text is no end; a text that is no date and time is rejected.
pub open spec fn read_end_date_time(text: Option<Seq<char>>) -> Result<Option<Instant>, Rejection> {
    match text {
        None => Ok(None),
        Some(text) => match chrono_parse_utc(text) {
            Ok(found) => Ok(Some(Instant { secs: found.0 as int, nanos: found.1 as int })),
            Err(reason) => Err(Rejection { text, reason }),
        },
    }
}

/// Turns the outcome of reading `text` as a date and time into the end of a
/// credential, or into the rejection of the text.
pub fn end_date_time_from(text: String, parsed: Result<Timestamp, String>) -> (end: Result<
    Option<Timestamp>,
    InvalidTime,
>)
    ensures
        match parsed {
            Ok(timestamp) => end == Ok::<Option<Timestamp>, InvalidTime>(Some(timestamp)),
            Err(reason) => end == Err::<Option<Timestamp>, InvalidTime>(
                InvalidTime { text, reason },
            ),
        },
{
    match parsed {
        Ok(timestamp) => Ok(Some(timestamp)),
        Err(reason) => Err(InvalidTime { text, reason }),
    }
}

/// Reads the end of a credential from the text in which the directory gives
/// it, if it gives one.
pub fn parse_date_time(maybe_string_time: Option<String>) -> (end: Result<
    Option<Timestamp>,
    InvalidTime,
>)
    ensures
        match end {
            Ok(end) => read_end_date_time(text_of(maybe_string_time)) == Ok::<
                Option<Instant>,
                Rejection,
            >(instant_of(end)),
            Err(invalid) => read_end_date_time(text_of(maybe_string_time)) == Err::<
                Option<Instant>,
                Rejection,
            >(invalid@),
        },
{
    match maybe_string_time {
        None => Ok(None),
        Some(string_time) => {
            let parsed = Timestamp::parse(string_time.as_str());
            end_date_time_from(string_time, parsed)
        },
    }
}

/// What a [`DecodedCredential`] stands for.
pub struct CredentialText {
    pub key_id: Seq<char>,
    pub display_name: Option<Seq<char>>,
    pub end_date_time: Option<Seq<char>>,
}

/// A password credential as it stands in a response of the directory: its
/// end is still the text that the directory wrote.
#[derive(Clone, Debug)]
pub struct DecodedCredential {
    pub key_id: String,
    pub display_name: Option<String>,
    pub end_date_time: Option<String>,
}

impl View for DecodedCredential {
    type V = CredentialText;

    open spec fn view(&self) -> CredentialText {
        CredentialText {
            key_id: self.key_id@,
            display_name: text_of(self.display_name),
            end_date_time: text_of(self.end_date_time),
        }
    }
}

/// What a sequence of decoded credentials stands for.
pub open spec fn credential_texts_of(decoded: Seq<DecodedCredential>) -> Seq<CredentialText> {
    decoded.map_values(|credential: DecodedCredential| credential@)
}

/// What a [`DecodedApplication`] stands for.
pub struct ApplicationText {
    pub id: Seq<char>,
    pub app_id: Seq<char>,
    pub display_name: Option<Seq<char>>,
    pub password_credentials: Seq<CredentialText>,
}

/// An application as it stands in a response of the directory.
#[derive(Clone, Debug)]
pub struct DecodedApplication {
    pub id: String,
    pub app_id: String,
    pub display_name: Option<String>,
    pub password_credentials: Vec<DecodedCredential>,
}

impl View for DecodedApplication {
    type V = ApplicationText;

    open spec fn view(&self) -> ApplicationText {
        ApplicationText {
            id: self.id@,
            app_id: self.app_id@,
            display_name: text_of(self.display_name),
            password_credentials: credential_texts_of(self.password_credentials@),
        }
    }
}

/// What a sequence of decoded applications stands for.
pub open spec fn application_texts_of(decoded: Seq<DecodedApplication>) -> Seq<ApplicationText> {
    decoded.map_values(|application: DecodedApplication| application@)
}

/// What a [`DecodedPage`] stands for.
pub struct PageText {
    pub next_link: Option<Seq<char>>,
    pub value: Seq<ApplicationText>,
}

/// A page of applications as it stands in a response of the directory.
#[derive(Clone, Debug)]
pub struct DecodedPage {
    pub next_link: Option<String>,
    pub value: Vec<DecodedApplication>,
}

impl View for DecodedPage {
    type V = PageText;

    open spec fn view(&self) -> PageText {
        PageText {
            next_link: text_of(self.next_link),
            value: application_texts_of(self.value@),
        }
    }
}

/// The credential that `decoded` holds, its end read as a date and time.
pub open spec fn read_credential(decoded: CredentialText) -> Result<Credential, Rejection> {
    match read_end_date_time(decoded.end_date_time) {
        Ok(end_date_time) => Ok(
            Credential {
                key_id: decoded.key_id,
                display_name: decoded.display_name,
                end_date_time,
            },
        ),
        Err(rejection) => Err(rejection),
    }
}

/// The credentials that `decoded` holds, in order; the first of them that is
/// rejected has them all rejected.
pub open spec fn read_credentials(decoded: Seq<CredentialText>) -> Result<
    Seq<Credential>,
    Rejection,
>
    decreases decoded.len(),
{
    if decoded.len() == 0 {
        Ok(Seq::empty())
    } else {
        match read_credentials(decoded.drop_last()) {
            Err(rejection) => Err(rejection),
            Ok(credentials) => match read_credential(decoded.last()) {
                Err(rejection) => Err(rejection),
                Ok(credential) => Ok(credentials.push(credential)),
            },
        }
    }
}

/// The application that `decoded` holds.
pub open spec fn read_application(decoded: ApplicationText) -> Result<Application, Rejection> {
    match read_credentials(decoded.password_credentials) {
        Ok(password_credentials) => Ok(
            Application {
                id: decoded.id,
                app_id: decoded.app_id,
                display_name: decoded.display_name,
                password_credentials,
            },
        ),
        Err(rejection) => Err(rejection),
    }
}

/// The applications that `decoded` holds, in order; the first rejection in
/// them has them all rejected.
pub open spec fn read_applications(decoded: Seq<ApplicationText>) -> Result<
    Seq<Application>,
    Rejection,
>
    decreases decoded.len(),
{
    if decoded.len() == 0 {
        Ok(Seq::empty())
    } else {
        match read_applications(decoded.drop_last()) {
            Err(rejection) => Err(rejection),
            Ok(applications) => match read_application(decoded.last()) {
                Err(rejection) => Err(rejection),
                Ok(application) => Ok(applications.push(application)),
            },
        }
    }
}

/// The page that `decoded` holds. One credential end in it that is no date
/// and time has the whole page rejected.
pub open spec fn read_page(decoded: PageText) -> Result<Page, Rejection> {
    match read_applications(decoded.value) {
        Ok(value) => Ok(Page { next_link: decoded.next_link, value }),
        Err(rejection) => Err(rejection),
    }
}

impl PasswordCredential {
    /// Reads the credential that `decoded` holds.
    pub fn from_decoded(decoded: DecodedCredential) -> (read: Result<
        PasswordCredential,
        InvalidTime,
    >)
        ensures
            match read {
                Ok(credential) => read_credential(decoded@) == Ok::<Credential, Rejection>(
                    credential@,
                ),
                Err(invalid) => read_credential(decoded@) == Err::<Credential, Rejection>(
                    invalid@,
                ),
            },
    {
        match parse_date_time(decoded.end_date_time) {
            Ok(end_date_time) => Ok(
                PasswordCredential {
                    key_id: decoded.key_id,
                    display_name: decoded.display_name,
                    end_date_time,
                },
            ),
            Err(invalid) => Err(invalid),
        }
    }
}

/// Reads the credentials that `decoded` holds.
fn credentials_from_decoded(decoded: Vec<DecodedCredential>) -> (read: Result<
    Vec<PasswordCredential>,
    InvalidTime,
>)
    ensures
        match read {
            Ok(credentials) => read_credentials(credential_texts_of(decoded@)) == Ok::<
                Seq<Credential>,
                Rejection,
            >(credentials_of(credentials@)),
            Err(invalid) => read_credentials(credential_texts_of(decoded@)) == Err::<
                Seq<Credential>,
                Rejection,
            >(invalid@),
        },
{
    let ghost texts = credential_texts_of(decoded@);
    let mut credentials: Vec<PasswordCredential> = Vec::new();
    proof {
        assert(texts.take(0) == Seq::<CredentialText>::empty());
        assert(credentials_of(credentials@) == Seq::<Credential>::empty());
    }
    for one in iter: decoded
        invariant
            texts == credential_texts_of(decoded@),
            iter.seq() == decoded@,
            read_credentials(texts.take(iter.index() as int)) == Ok::<Seq<Credential>, Rejection>(
                credentials_of(credentials@),
            ),
    {
        let ghost done = iter.index() as int;
        proof {
            assert(texts.take(done + 1).drop_last() == texts.take(done));
            assert(texts.take(done + 1).last() == one@);
        }
        match PasswordCredential::from_decoded(one) {
            Ok(credential) => {
                proof {
                    assert(credentials_of(credentials@.push(credential)) == credentials_of(
                        credentials@,
                    ).push(credential@));
                }
                credentials.push(credential);
            },
            Err(invalid) => {
                proof {
                    lemma_rejected_credentials_stay_rejected(texts, done + 1);
                }
                return Err(invalid);
            },
        }
    }
    proof {
        assert(texts.take(texts.len() as int) == texts);
    }
    Ok(credentials)
}

/// Credentials of which a first part is rejected are rejected whole, for the
/// same reason.
proof fn lemma_rejected_credentials_stay_rejected(decoded: Seq<CredentialText>, upto: int)
    requires
        0 <= upto <= decoded.len(),
        read_credentials(decoded.take(upto)) is Err,
    ensures
        read_credentials(decoded) == read_credentials(decoded.take(upto)),
    decreases decoded.len() - upto,
{
    if upto < decoded.len() {
        assert(decoded.take(upto + 1).drop_last() == decoded.take(upto));
        lemma_rejected_credentials_stay_rejected(decoded, upto + 1);
    } else {
        assert(decoded.take(upto) == decoded);
    }
}

impl AzureApplication {
    /// Reads the application that `decoded` holds.
    pub fn from_decoded(decoded: DecodedApplication) -> (read: Result<
        AzureApplication,
        InvalidTime,
    >)
        ensures
            match read {
                Ok(application) => read_application(decoded@) == Ok::<Application, Rejection>(
                    application@,
                ),
                Err(invalid) => read_application(decoded@) == Err::<Application, Rejection>(
                    invalid@,
                ),
            },
    {
        match credentials_from_decoded(decoded.password_credentials) {
            Ok(password_credentials) => Ok(
                AzureApplication {
                    id: decoded.id,
                    app_id: decoded.app_id,
                    display_name: decoded.display_name,
                    password_credentials,
                },
            ),
            Err(invalid) => Err(invalid),
        }
    }
}

/// Reads the applications that `decoded` holds.
fn applications_from_decoded(decoded: Vec<DecodedApplication>) -> (read: Result<
    Vec<AzureApplication>,
    InvalidTime,
>)
    ensures
        match read {
            Ok(applications) => read_applications(application_texts_of(decoded@)) == Ok::<
                Seq<Application>,
                Rejection,
            >(applications_of(applications@)),
            Err(invalid) => read_applications(application_texts_of(decoded@)) == Err::<
                Seq<Application>,
                Rejection,
            >(invalid@),
        },
{
    let ghost texts = application_texts_of(decoded@);
    let mut applications: Vec<AzureApplication> = Vec::new();
    proof {
        assert(texts.take(0) == Seq::<ApplicationText>::empty());
        assert(applications_of(applications@) == Seq::<Application>::empty());
    }
    for one in iter: decoded
        invariant
            texts == application_texts_of(decoded@),
            iter.seq() == decoded@,
            read_applications(texts.take(iter.index() as int)) == Ok::<
                Seq<Application>,
                Rejection,
            >(applications_of(applications@)),
    {
        let ghost done = iter.index() as int;
        proof {
            assert(texts.take(done + 1).drop_last() == texts.take(done));
            assert(texts.take(done + 1).last() == one@);
        }
        match AzureApplication::from_decoded(one) {
            Ok(application) => {
                proof {
                    assert(applications_of(applications@.push(application)) == applications_of(
                        applications@,
                    ).push(application@));
                }
                applications.push(application);
            },
            Err(invalid) => {
                proof {
                    lemma_rejected_applications_stay_rejected(texts, done + 1);
                }
                return Err(invalid);
            },
        }
    }
    proof {
        assert(texts.take(texts.len() as int) == texts);
    }
    Ok(applications)
}

/// Applications of which a first part is rejected are rejected whole, for
/// the same reason.
proof fn lemma_rejected_applications_stay_rejected(decoded: Seq<ApplicationText>, upto: int)
    requires
        0 <= upto <= decoded.len(),
        read_applications(decoded.take(upto)) is Err,
    ensures
        read_applications(decoded) == read_applications(decoded.take(upto)),
    decreases decoded.len() - upto,
{
    if upto < decoded.len() {
        assert(decoded.take(upto + 1).drop_last() == decoded.take(upto));
        lemma_rejected_applications_stay_rejected(decoded, upto + 1);
    } else {
        assert(decoded.take(upto) == decoded);
    }
}

impl AzureApplications {
    /// Reads the page that `decoded` holds: the same applications and the
    /// same link, with every credential end read as a date and time. The
    /// first end that is none has the page rejected.
    pub fn from_decoded(decoded: DecodedPage) -> (read: Result<AzureApplications, InvalidTime>)
        ensures
            match read {
                Ok(page) => read_page(decoded@) == Ok::<Page, Rejection>(page@),
                Err(invalid) => read_page(decoded@) == Err::<Page, Rejection>(invalid@),
            },
    {
        match applications_from_decoded(decoded.value) {
            Ok(value) => Ok(AzureApplications { next_link: decoded.next_link, value }),
            Err(invalid) => Err(invalid),
        }
    }
}

/// Whether every credential end on the page can be read as a date and time.
pub open spec fn all_ends_readable(page: PageText) -> bool {
    forall|a: int, c: int|
        0 <= a < page.value.len() && 0 <= c < page.value[a].password_credentials.len()
            ==> read_end_date_time(
            #[trigger] page.value[a].password_credentials[c].end_date_time,
        ) is Ok
}

/// Credentials are read if and only if the end of each can be read; they
/// then come out one for one.
pub proof fn lemma_read_credentials(decoded: Seq<CredentialText>)
    ensures
        read_credentials(decoded) is Ok <==> forall|c: int|
            0 <= c < decoded.len() ==> read_end_date_time(#[trigger] decoded[c].end_date_time)
                is Ok,
        read_credentials(decoded) matches Ok(credentials) ==> credentials.len() == decoded.len()
            && forall|c: int|
            0 <= c < decoded.len() ==> read_credential(decoded[c]) == Ok::<Credential, Rejection>(
                #[trigger] credentials[c],
            ),
    decreases decoded.len(),
{
    if decoded.len() > 0 {
        lemma_read_credentials(decoded.drop_last());
        let before = decoded.drop_last();
        assert forall|c: int| 0 <= c < before.len() implies before[c] == decoded[c] by {}
        if read_credentials(decoded) is Ok {
            assert forall|c: int| 0 <= c < decoded.len() implies read_end_date_time(
                #[trigger] decoded[c].end_date_time,
            ) is Ok by {
                if c < before.len() {
                    assert(before[c] == decoded[c]);
                }
            }
        }
    }
}

/// Applications are read if and only if every credential end in them can be
/// read; they then come out one for one.
pub proof fn lemma_read_applications(decoded: Seq<ApplicationText>)
    ensures
        read_applications(decoded) is Ok <==> forall|a: int, c: int|
            0 <= a < decoded.len() && 0 <= c < decoded[a].password_credentials.len()
                ==> read_end_date_time(
                #[trigger] decoded[a].password_credentials[c].end_date_time,
            ) is Ok,
        read_applications(decoded) matches Ok(applications) ==> applications.len()
            == decoded.len() && forall|a: int|
            0 <= a < decoded.len() ==> read_application(decoded[a]) == Ok::<
                Application,
                Rejection,
            >(#[trigger] applications[a]),
    decreases decoded.len(),
{
    if decoded.len() > 0 {
        let before = decoded.drop_last();
        lemma_read_applications(before);
        lemma_read_credentials(decoded.last().password_credentials);
        assert forall|a: int| 0 <= a < before.len() implies before[a] == decoded[a] by {}
        if read_applications(decoded) is Ok {
            assert forall|a: int, c: int|
                0 <= a < decoded.len() && 0 <= c
                    < decoded[a].password_credentials.len() implies read_end_date_time(
                #[trigger] decoded[a].password_credentials[c].end_date_time,
            ) is Ok by {
                if a < before.len() {
                    assert(before[a] == decoded[a]);
                }
            }
        }
    }
}

/// A page is read if and only if every credential end on it can be read as
/// a date and time: one that cannot has the whole page rejected, and no
/// credential is left out of a page that is read.
pub proof fn lemma_read_page(page: PageText)
    ensures
        read_page(page) is Ok <==> all_ends_readable(page),
        read_page(page) matches Ok(read) ==> read.next_link == page.next_link && read.value.len()
            == page.value.len() && forall|a: int|
            0 <= a < page.value.len() ==> read_application(page.value[a]) == Ok::<
                Application,
                Rejection,
            >(#[trigger] read.value[a]),
{
    lemma_read_applications(page.value);
}

/// How long a credential still has to live.
#[derive(Clone, Copy, Debug, PartialEq, Eq, Structural)]
pub enum RemainingLifetime {
    /// The credential has no end.
    Unlimited,
    /// The time from now to the end, in nanoseconds, so that no part of a
    /// second is lost. Below zero once the end lies in the past, by however
    /// little.
    Nanoseconds(i128),
}

/// The lifetime that is left at `now` to a credential that ends at
/// `end_date_time`, in nanoseconds: the time from `now` to the end, which
/// is below zero where the end comes first. `None` where there is no end.
pub open spec fn remaining_lifetime(end_date_time: Option<Instant>, now: Instant) -> Option<int> {
    match end_date_time {
        Some(end) => Some(nanos_between(end, now)),
        None => None,
    }
}

impl PasswordCredential {
    /// The lifetime that is left to the credential at `now`.
    pub fn remaining_seconds_at(&self, now: &Timestamp) -> (remaining: RemainingLifetime)
        ensures
            match remaining {
                RemainingLifetime::Unlimited => self@.end_date_time is None,
                RemainingLifetime::Nanoseconds(nanos) => remaining_lifetime(
                    self@.end_date_time,
                    now@,
                ) == Some(nanos as int),
            },
    {
        match &self.end_date_time {
            Some(end) => RemainingLifetime::Nanoseconds(end.nanos_since(now)),
            None => RemainingLifetime::Unlimited,
        }
    }

    /// The lifetime that is left to the credential by the system clock:
    /// the lifetime that is left to it at an instant at or after the epoch
    /// and outside a leap second.
    pub fn remaining_seconds(&self) -> (remaining: RemainingLifetime)
        ensures
            remaining is Unlimited <==> self@.end_date_time is None,
            remaining matches RemainingLifetime::Nanoseconds(nanos) ==> exists|now: Instant|
                is_instant(now.secs, now.nanos) && 0 <= now.secs && now.nanos < 1_000_000_000
                    && #[trigger] remaining_lifetime(self@.end_date_time, now) == Some(
                    nanos as int,
                ),
    {
        let now = Timestamp::now();
        self.remaining_seconds_at(&now)
    }
}

/// A credential whose end lies in the past has a lifetime below zero left,
/// however short the time since: the lifetime is not held at zero. One
/// whose end is still to come has a lifetime above zero. The one exception
/// is an end in a leap second at the end of a day, seen from the first
/// second of the next day.
pub proof fn lemma_expired_is_negative(end: Instant, now: Instant)
    requires
        is_instant(end.secs, end.nanos),
        is_instant(now.secs, now.nanos),
    ensures
        is_before(end, now) && !straddles_leap_midnight(end, now) ==> remaining_lifetime(
            Some(end),
            now,
        )->0 < 0,
        is_before(now, end) && !straddles_leap_midnight(now, end) ==> remaining_lifetime(
            Some(end),
            now,
        )->0 > 0,
        end == now ==> remaining_lifetime(Some(end), now)->0 == 0,
{
    if is_before(end, now) && !straddles_leap_midnight(end, now) {
        lemma_before_is_negative(end, now);
    }
    if is_before(now, end) && !straddles_leap_midnight(now, end) {
        lemma_before_is_negative(now, end);
    }
}

} // verus!
