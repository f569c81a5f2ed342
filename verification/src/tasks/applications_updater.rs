//! The cache of applications: how the pages of the directory's list are
//! followed to its end, when a request may go out, and what the end of a
//! round does to the cache.

use crate::cache::{by_id, ResourceCache};
use crate::settings::app_settings::Applications;
use crate::tasks::api_token_updater::{lemma_token_was_granted, token_after_all, ApiToken, Grant};
use crate::tasks::schedule::{Fault, RefreshError, RefreshOutcome, Status};
use crate::text::{decimal, decimal_text};
use crate::types::applications::{
    all_ends_readable, applications_of, lemma_read_page, read_page, Application, AzureApplication,
    AzureApplications, DecodedPage, Page, PageText,
};
use crate::types::time::{TimeSpan, NANOS_PER_SEC};
use vstd::prelude::*;

verus! {

/// Seconds of rest before looking again for a token that is not there yet.
pub const TOKEN_WAIT_SECS: u64 = 5;

/// What of each application the directory is asked to send.
pub const SELECTED: &'static str = "id,appId,displayName,createdDateTime,passwordCredentials";

/// Where the first page of the list is asked for. Only this request names
/// the size of a page: the links to the pages after it are the directory's.
pub open spec fn first_page_url_of(url: Seq<char>, results_per_page: u16) -> Seq<char> {
    url + "?$top="@ + decimal(results_per_page as nat) + "&$select="@ + SELECTED@
}

/// Where the first page of the list is asked for.
pub fn first_page_url(settings: &Applications) -> (url: String)
    ensures
        url@ == first_page_url_of(settings.url@, settings.results_per_page),
{
    let mut url = settings.url.clone();
    url.append("?$top=");
    let size = decimal_text(settings.results_per_page as u64);
    url.append(size.as_str());
    url.append("&$select=");
    url.append(SELECTED);
    url
}

/// What a [`Fetch`] stands for.
pub struct Collecting {
    /// Where the next page is asked for.
    pub url: Seq<char>,
    /// The applications of the pages read so far.
    pub collected: Seq<Application>,
}

/// What a [`FetchProgress`] stands for.
pub enum Progress {
    More(Collecting),
    Done(Result<Seq<Application>, Fault>),
}

/// A reading of the whole list that is under way: the pages read so far,
/// and where the next one is to be had.
#[derive(Debug)]
pub struct Fetch {
    url: String,
    collected: Vec<AzureApplication>,
}

impl View for Fetch {
    type V = Collecting;

    closed spec fn view(&self) -> Collecting {
        Collecting { url: self.url@, collected: applications_of(self.collected@) }
    }
}

/// Where a reading of the list stands after a response.
#[derive(Debug)]
pub enum FetchProgress {
    /// The page named another: the reading goes on there.
    More(Fetch),
    /// The reading has ended: with all the applications of the list, or
    /// with the error that broke it off.
    Done(Result<Vec<AzureApplication>, RefreshError>),
}

impl View for FetchProgress {
    type V = Progress;

    open spec fn view(&self) -> Progress {
        match self {
            FetchProgress::More(fetch) => Progress::More(fetch@),
            FetchProgress::Done(Ok(applications)) => Progress::Done(
                Ok(applications_of(applications@)),
            ),
            FetchProgress::Done(Err(error)) => Progress::Done(Err(error@)),
        }
    }
}

/// What a response to a request for a page stands for.
pub open spec fn response_of(response: Result<DecodedPage, RefreshError>) -> Result<
    PageText,
    Fault,
> {
    match response {
        Ok(page) => Ok(page@),
        Err(error) => Err(error@),
    }
}

/// What a run of responses stands for.
pub open spec fn responses_of(responses: Seq<Result<DecodedPage, RefreshError>>) -> Seq<
    Result<PageText, Fault>,
> {
    responses.map_values(|response: Result<DecodedPage, RefreshError>| response_of(response))
}

/// Where a reading stands after the response to its request. A page adds
/// its applications to those collected; with a link it sends the reading on,
/// without one it ends it. A request that failed, or a page that cannot be
/// read, breaks the reading off, and what was collected is dropped.
pub open spec fn fetch_step(fetch: Collecting, response: Result<PageText, Fault>) -> Progress {
    match response {
        Err(fault) => Progress::Done(Err(fault)),
        Ok(text) => match read_page(text) {
            Err(rejection) => Progress::Done(Err(Fault::Validation(rejection))),
            Ok(page) => match page.next_link {
                Some(next) => Progress::More(
                    Collecting { url: next, collected: fetch.collected + page.value },
                ),
                None => Progress::Done(Ok(fetch.collected + page.value)),
            },
        },
    }
}

/// Where a reading stands after a run of responses, the first of them
/// first. Once it has ended, it stays as it ended.
pub open spec fn fetch_run(fetch: Collecting, responses: Seq<Result<PageText, Fault>>) -> Progress
    decreases responses.len(),
{
    if responses.len() == 0 {
        Progress::More(fetch)
    } else {
        match fetch_run(fetch, responses.drop_last()) {
            Progress::More(next) => fetch_step(next, responses.last()),
            done => done,
        }
    }
}

/// Where a reading that starts at `start_url` stands after a run of
/// responses.
pub open spec fn fetch_all(start_url: Seq<char>, responses: Seq<Result<PageText, Fault>>)
    -> Progress {
    fetch_run(Collecting { url: start_url, collected: Seq::empty() }, responses)
}

impl Fetch {
    /// A reading of the list that begins at `start_url`.
    pub fn start(start_url: String) -> (fetch: Fetch)
        ensures
            fetch@ == (Collecting { url: start_url@, collected: Seq::empty() }),
    {
        let fetch = Fetch { url: start_url, collected: Vec::new() };
        assert(fetch@.collected =~= Seq::<Application>::empty());
        fetch
    }

    /// Where the next page is asked for.
    pub fn url(&self) -> (url: &str)
        ensures
            url@ == self@.url,
    {
        self.url.as_str()
    }

    /// Takes the response to the request for the page at [`url`](Self::url).
    pub fn on_response(self, response: Result<DecodedPage, RefreshError>) -> (progress:
        FetchProgress)
        ensures
            progress@ == fetch_step(self@, response_of(response)),
    {
        match response {
            Err(error) => FetchProgress::Done(Err(error)),
            Ok(decoded) => match AzureApplications::from_decoded(decoded) {
                Err(invalid) => FetchProgress::Done(Err(RefreshError::Validation(invalid))),
                Ok(page) => {
                    let ghost before = self.collected@;
                    let ghost added = page.value@;
                    let mut collected = self.collected;
                    let mut value = page.value;
                    collected.append(&mut value);
                    proof {
                        assert(applications_of(before + added) =~= applications_of(before)
                            + applications_of(added));
                    }
                    match page.next_link {
                        Some(next) => FetchProgress::More(Fetch { url: next, collected }),
                        None => FetchProgress::Done(Ok(collected)),
                    }
                },
            },
        }
    }
}

impl FetchProgress {
    /// Takes a further response: a reading that goes on takes it as the
    /// response to its request, and one that has ended stays as it ended.
    pub fn on_response(self, response: Result<DecodedPage, RefreshError>) -> (progress:
        FetchProgress)
        ensures
            progress@ == match self@ {
                Progress::More(fetch) => fetch_step(fetch, response_of(response)),
                done => done,
            },
    {
        match self {
            FetchProgress::More(fetch) => fetch.on_response(response),
            done => done,
        }
    }
}

impl Fetch {
    /// Takes a run of responses, the first of them first, each as the
    /// response to the request that the reading stood at: the whole of a
    /// reading where the responses are those of a whole list. Responses
    /// that come after the end of the reading are not read.
    pub fn run(self, responses: Vec<Result<DecodedPage, RefreshError>>) -> (progress:
        FetchProgress)
        ensures
            progress@ == fetch_run(self@, responses_of(responses@)),
    {
        let ghost start = self@;
        let ghost answers = responses_of(responses@);
        let mut progress = FetchProgress::More(self);
        proof {
            assert(answers.take(0) == Seq::<Result<PageText, Fault>>::empty());
        }
        for response in iter: responses
            invariant
                answers == responses_of(responses@),
                iter.seq() == responses@,
                progress@ == fetch_run(start, answers.take(iter.index() as int)),
        {
            let ghost read = iter.index() as int;
            proof {
                assert(answers.take(read + 1).drop_last() == answers.take(read));
                assert(answers.take(read + 1).last() == response_of(response));
            }
            progress = progress.on_response(response);
        }
        proof {
            assert(answers.take(answers.len() as int) == answers);
        }
        progress
    }
}

/// What a [`NextStep`] stands for.
pub enum Step {
    AwaitToken { pause: nat },
    Request { url: Seq<char>, bearer: Seq<char> },
}

/// What a reading of the list does next.
#[derive(Debug, Clone)]
pub enum NextStep {
    /// No token has been granted yet: rest for `pause`, then look again.
    AwaitToken { pause: TimeSpan },
    /// Ask for the page at `url`, and show `bearer` as the token.
    Request { url: String, bearer: String },
}

impl View for NextStep {
    type V = Step;

    open spec fn view(&self) -> Step {
        match self {
            NextStep::AwaitToken { pause } => Step::AwaitToken { pause: pause@ },
            NextStep::Request { url, bearer } => Step::Request { url: url@, bearer: bearer@ },
        }
    }
}

/// What a reading that is to ask at `url` does next where the current
/// token is `token`: it asks, unless there is no token yet.
pub open spec fn next_step_of(url: Seq<char>, token: Seq<char>) -> Step {
    if token.len() == 0 {
        Step::AwaitToken { pause: (TOKEN_WAIT_SECS * NANOS_PER_SEC) as nat }
    } else {
        Step::Request { url, bearer: token }
    }
}

impl Fetch {
    /// What the reading does next. No request goes out without a token:
    /// the token is looked at before every request, the first of a round
    /// and those that follow.
    pub fn next_step(&self, token: &ApiToken) -> (step: NextStep)
        ensures
            step@ == next_step_of(self@.url, token@),
    {
        if token.is_empty() {
            NextStep::AwaitToken { pause: TimeSpan::from_secs(TOKEN_WAIT_SECS) }
        } else {
            NextStep::Request { url: self.url.clone(), bearer: String::from_str(token.as_str()) }
        }
    }
}

/// What the end of a reading stands for.
pub open spec fn fetched_of(fetched: Result<Vec<AzureApplication>, RefreshError>) -> Result<
    Seq<Application>,
    Fault,
> {
    match fetched {
        Ok(applications) => Ok(applications_of(applications@)),
        Err(error) => Err(error@),
    }
}

/// The cache after a reading has ended: the applications that the reading
/// found, all of them and no others; or, where it broke off, the cache as
/// it was.
pub open spec fn cache_after(
    cache: Map<Seq<char>, Application>,
    fetched: Result<Seq<Application>, Fault>,
) -> Map<Seq<char>, Application> {
    match fetched {
        Ok(applications) => by_id(applications),
        Err(_) => cache,
    }
}

/// What is known of a round of the cache refresher when it has ended.
#[derive(Debug, Clone)]
pub struct CacheRefresh {
    pub outcome: RefreshOutcome,
    /// How many applications the cache holds after the round.
    pub applications_cached: usize,
}

/// Ends a round of the cache refresher: takes the end of the reading and
/// the time that the round took, replaces the cache or leaves it, and tells
/// how the round went and when the next is due. The rest before the next
/// round is the configured one, however the round went.
pub fn azure_applications_updater(
    cache: &mut ResourceCache,
    fetched: Result<Vec<AzureApplication>, RefreshError>,
    settings: &Applications,
    took: TimeSpan,
) -> (refreshed: CacheRefresh)
    ensures
        final(cache)@ == cache_after(old(cache)@, fetched_of(fetched)),
        refreshed.applications_cached == final(cache)@.len(),
        refreshed.outcome@.took == took@,
        refreshed.outcome@.next_update_in == settings.cache_refresh_interval@,
        match fetched {
            Ok(_) => refreshed.outcome.status == Status::Success && refreshed.outcome.error
                is None,
            Err(error) => refreshed.outcome.status == Status::Fail && refreshed.outcome.error
                == Some(error),
        },
{
    let next_update_in = settings.cache_refresh_interval;
    match fetched {
        Ok(applications) => {
            cache.replace_all(applications);
            CacheRefresh {
                outcome: RefreshOutcome {
                    status: Status::Success,
                    took,
                    next_update_in,
                    error: None,
                },
                applications_cached: cache.len(),
            }
        },
        Err(error) => CacheRefresh {
            outcome: RefreshOutcome {
                status: Status::Fail,
                took,
                next_update_in,
                error: Some(error),
            },
            applications_cached: cache.len(),
        },
    }
}

/// The applications of a run of pages, page after page.
pub open spec fn all_of(pages: Seq<Page>) -> Seq<Application>
    decreases pages.len(),
{
    if pages.len() == 0 {
        Seq::empty()
    } else {
        all_of(pages.drop_last()) + pages.last().value
    }
}

/// Whether each page but the last names a next one, and the last none.
pub open spec fn is_whole_list(pages: Seq<Page>) -> bool {
    &&& pages.len() >= 1
    &&& forall|at: int| 0 <= at < pages.len() - 1 ==> (#[trigger] pages[at]).next_link is Some
    &&& pages.last().next_link is None
}

/// Whether `responses` carry `pages`, one each, in order.
pub open spec fn carry(responses: Seq<Result<PageText, Fault>>, pages: Seq<Page>) -> bool {
    &&& responses.len() == pages.len()
    &&& forall|at: int|
        0 <= at < responses.len() ==> (#[trigger] responses[at]) is Ok && read_page(
            responses[at]->Ok_0,
        ) == Ok::<Page, crate::types::applications::Rejection>(pages[at])
}

/// A reading that is answered with the pages of a whole list ends with the
/// applications of all of them, page after page. It begins by asking at the
/// start, and does not end before the last page: after each earlier one it
/// has collected the pages so far and asks at the link that the page named,
/// as the page gave it.
pub proof fn lemma_fetch_all_pages(
    start_url: Seq<char>,
    responses: Seq<Result<PageText, Fault>>,
    pages: Seq<Page>,
)
    requires
        carry(responses, pages),
        is_whole_list(pages),
    ensures
        fetch_all(start_url, responses) == Progress::Done(Ok(all_of(pages))),
        fetch_all(start_url, responses.take(0)) == Progress::More(
            Collecting { url: start_url, collected: Seq::empty() },
        ),
        forall|read: int|
            0 < read < pages.len() ==> #[trigger] fetch_all(start_url, responses.take(read))
                == Progress::More(
                Collecting {
                    url: pages[read - 1].next_link->0,
                    collected: all_of(pages.take(read)),
                },
            ),
{
    assert forall|read: int| 0 < read < pages.len() implies #[trigger] fetch_all(
        start_url,
        responses.take(read),
    ) == Progress::More(
        Collecting { url: pages[read - 1].next_link->0, collected: all_of(pages.take(read)) },
    ) by {
        lemma_fetch_linked_pages(start_url, responses, pages, read);
    }
    let last = pages.len() - 1;
    assert(responses.take(0).len() == 0);
    assert(responses.drop_last() == responses.take(last));
    assert(pages.drop_last() == pages.take(last));
    if last > 0 {
        lemma_fetch_linked_pages(start_url, responses, pages, last);
    } else {
        assert(all_of(pages.take(0)) == Seq::<Application>::empty());
    }
    assert(responses.last() == responses[last]);
}

/// After the first `read` pages of a list, none of them the last, a
/// reading has collected them and asks at the link of the last of them.
proof fn lemma_fetch_linked_pages(
    start_url: Seq<char>,
    responses: Seq<Result<PageText, Fault>>,
    pages: Seq<Page>,
    read: int,
)
    requires
        carry(responses, pages),
        is_whole_list(pages),
        0 < read < pages.len(),
    ensures
        fetch_all(start_url, responses.take(read)) == Progress::More(
            Collecting { url: pages[read - 1].next_link->0, collected: all_of(pages.take(read)) },
        ),
    decreases read,
{
    let so_far = responses.take(read);
    assert(so_far.drop_last() == responses.take(read - 1));
    assert(so_far.last() == responses[read - 1]);
    assert(pages.take(read).drop_last() == pages.take(read - 1));
    assert(pages.take(read).last() == pages[read - 1]);
    if read > 1 {
        lemma_fetch_linked_pages(start_url, responses, pages, read - 1);
    } else {
        assert(all_of(pages.take(0)) == Seq::<Application>::empty());
    }
}

/// A reading that has ended reads no further: whatever responses follow,
/// it stays as it ended.
pub proof fn lemma_fetch_stops(
    fetch: Collecting,
    responses: Seq<Result<PageText, Fault>>,
    read: int,
)
    requires
        0 <= read <= responses.len(),
        fetch_run(fetch, responses.take(read)) is Done,
    ensures
        fetch_run(fetch, responses) == fetch_run(fetch, responses.take(read)),
    decreases responses.len() - read,
{
    if read < responses.len() {
        assert(responses.take(read + 1).drop_last() == responses.take(read));
        lemma_fetch_stops(fetch, responses, read + 1);
    } else {
        assert(responses.take(read) == responses);
    }
}

/// A page on which one credential end is no date and time breaks the
/// reading off, and so does a request that failed: nothing of the page, and
/// nothing of the pages before it, is kept.
pub proof fn lemma_fetch_breaks_off(fetch: Collecting, response: Result<PageText, Fault>)
    ensures
        response is Err ==> fetch_step(fetch, response) == Progress::Done(Err(response->Err_0)),
        response matches Ok(text) ==> (!all_ends_readable(text) ==> fetch_step(fetch, response)
            is Done && fetch_step(fetch, response)->Done_0 matches Err(Fault::Validation(_))),
        response matches Ok(text) ==> (all_ends_readable(text) ==> !(fetch_step(
            fetch,
            response,
        ) matches Progress::Done(Err(_)))),
{
    if let Ok(text) = response {
        lemma_read_page(text);
    }
}

/// No request goes out before a token was granted: an exporter that began
/// without a token and is told to ask for a page has had a renewal that
/// succeeded, and shows the token that the last such renewal granted.
pub proof fn lemma_no_request_without_token(
    url: Seq<char>,
    renewals: Seq<Result<Grant, Fault>>,
)
    requires
        next_step_of(url, token_after_all(Seq::<char>::empty(), renewals)) is Request,
    ensures
        exists|at: int|
            0 <= at < renewals.len() && (#[trigger] renewals[at]) is Ok
                && renewals[at]->Ok_0.access_token == next_step_of(
                url,
                token_after_all(Seq::<char>::empty(), renewals),
            )->bearer,
{
    lemma_token_was_granted(renewals);
}

/// The cache in a round that began with `cache` in it and has had
/// `responses` so far: as it was while the reading is under way, and what
/// the end of the reading makes of it from then on.
pub open spec fn cache_in_round(
    cache: Map<Seq<char>, Application>,
    start_url: Seq<char>,
    responses: Seq<Result<PageText, Fault>>,
) -> Map<Seq<char>, Application> {
    match fetch_all(start_url, responses) {
        Progress::More(_) => cache,
        Progress::Done(fetched) => cache_after(cache, fetched),
    }
}

/// The cache is replaced whole or not at all. Whatever the responses of a
/// round, the cache holds what it held before the round, or the
/// applications of a reading that has come to its end: never those of some
/// pages without the rest.
pub proof fn lemma_cache_is_replaced_whole(
    cache: Map<Seq<char>, Application>,
    start_url: Seq<char>,
    responses: Seq<Result<PageText, Fault>>,
)
    ensures
        cache_in_round(cache, start_url, responses) == cache || (fetch_all(start_url, responses)
            matches Progress::Done(Ok(applications)) && cache_in_round(
            cache,
            start_url,
            responses,
        ) == by_id(applications)),
{
}

/// In a round that is answered with the pages of a whole list, the cache
/// stays as it was until the last page is in, and holds the applications
/// of all the pages from then on.
pub proof fn lemma_cache_in_round_of_whole_list(
    cache: Map<Seq<char>, Application>,
    start_url: Seq<char>,
    responses: Seq<Result<PageText, Fault>>,
    pages: Seq<Page>,
)
    requires
        carry(responses, pages),
        is_whole_list(pages),
    ensures
        forall|read: int|
            0 <= read < responses.len() ==> #[trigger] cache_in_round(
                cache,
                start_url,
                responses.take(read),
            ) == cache,
        cache_in_round(cache, start_url, responses) == by_id(all_of(pages)),
{
    lemma_fetch_all_pages(start_url, responses, pages);
    assert forall|read: int| 0 <= read < responses.len() implies #[trigger] cache_in_round(
        cache,
        start_url,
        responses.take(read),
    ) == cache by {
        if read == 0 {
            assert(responses.take(0).len() == 0);
        } else {
            assert(fetch_all(start_url, responses.take(read)) is More);
        }
    }
}

/// A list of one page that holds no application and names no next page
/// leaves the cache empty, whatever it held before.
pub proof fn lemma_empty_list_empties_cache(
    cache: Map<Seq<char>, Application>,
    start_url: Seq<char>,
    page: PageText,
)
    requires
        page.value.len() == 0,
        page.next_link is None,
    ensures
        fetch_all(start_url, seq![Ok(page)]) == Progress::Done(Ok(Seq::<Application>::empty())),
        cache_after(cache, Ok(Seq::<Application>::empty())) == Map::<
            Seq<char>,
            Application,
        >::empty(),
{
    let responses = seq![Ok::<PageText, Fault>(page)];
    let start = Collecting { url: start_url, collected: Seq::empty() };
    assert(responses.drop_last() == Seq::<Result<PageText, Fault>>::empty());
    assert(responses.last() == Ok::<PageText, Fault>(page));
    assert(fetch_run(start, responses.drop_last()) == Progress::More(start));
    lemma_read_page(page);
    let read = read_page(page)->Ok_0;
    assert(read.value == Seq::<Application>::empty());
    assert(start.collected + read.value == Seq::<Application>::empty());
    assert(fetch_run(start, responses) == fetch_step(start, responses.last()));
}

} // verus!
