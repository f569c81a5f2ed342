//! The gauges of the credentials: for every credential of every cached
//! application, the lifetime that is left to it.

use crate::types::applications::{
    applications_of, instant_of, remaining_lifetime, text_of, Application, AzureApplication,
    Credential, PasswordCredential, RemainingLifetime,
};
use crate::types::time::{Instant, Timestamp};
use vstd::prelude::*;

verus! {

/// What an [`ExpirySample`] stands for.
pub struct Sample {
    pub id: Seq<char>,
    pub app_id: Seq<char>,
    pub app_name: Option<Seq<char>>,
    pub key_id: Seq<char>,
    pub key_name: Option<Seq<char>>,
    /// Nanoseconds; `None` for a credential without end.
    pub remaining: Option<int>,
}

/// The lifetime that is left to one credential, with what tells the
/// credential and its application from the others.
#[derive(Debug, Clone)]
pub struct ExpirySample {
    pub id: String,
    pub app_id: String,
    pub app_name: Option<String>,
    pub key_id: String,
    pub key_name: Option<String>,
    pub remaining: RemainingLifetime,
}

impl View for ExpirySample {
    type V = Sample;

    open spec fn view(&self) -> Sample {
        Sample {
            id: self.id@,
            app_id: self.app_id@,
            app_name: text_of(self.app_name),
            key_id: self.key_id@,
            key_name: text_of(self.key_name),
            remaining: match self.remaining {
                RemainingLifetime::Unlimited => None,
                RemainingLifetime::Nanoseconds(nanos) => Some(nanos as int),
            },
        }
    }
}

/// What a sequence of samples stands for.
pub open spec fn samples_of(samples: Seq<ExpirySample>) -> Seq<Sample> {
    samples.map_values(|sample: ExpirySample| sample@)
}

/// The sample of one credential of an application at `now`.
pub open spec fn sample_of(application: Application, credential: Credential, now: Instant)
    -> Sample {
    Sample {
        id: application.id,
        app_id: application.app_id,
        app_name: application.display_name,
        key_id: credential.key_id,
        key_name: credential.display_name,
        remaining: remaining_lifetime(credential.end_date_time, now),
    }
}

/// The samples of an application at `now`: one for each of its credentials,
/// in their order.
pub open spec fn application_samples(application: Application, now: Instant) -> Seq<Sample> {
    application.password_credentials.map_values(
        |credential: Credential| sample_of(application, credential, now),
    )
}

/// The samples of a listing of applications at `now`: those of each
/// application, one application after the other.
pub open spec fn all_samples(applications: Seq<Application>, now: Instant) -> Seq<Sample>
    decreases applications.len(),
{
    if applications.len() == 0 {
        Seq::empty()
    } else {
        all_samples(applications.drop_last(), now) + application_samples(applications.last(), now)
    }
}

/// A copy of a text that may be absent.
fn copy_of(text: &Option<String>) -> (copy: Option<String>)
    ensures
        text_of(copy) == text_of(*text),
{
    match text {
        Some(text) => Some(text.clone()),
        None => None,
    }
}

/// The sample of one credential of an application at `now`.
fn sample(application: &AzureApplication, credential: &PasswordCredential, now: &Timestamp) -> (sample:
    ExpirySample)
    ensures
        sample@ == sample_of(application@, credential@, now@),
{
    ExpirySample {
        id: application.id.clone(),
        app_id: application.app_id.clone(),
        app_name: copy_of(&application.display_name),
        key_id: credential.key_id.clone(),
        key_name: copy_of(&credential.display_name),
        remaining: credential.remaining_seconds_at(now),
    }
}

/// Measures the credentials of `applications` at `now`: gives, for every
/// credential of every application, the lifetime that is left to it. None
/// is left out, whether it has an end or not and whether it has expired or
/// not.
pub fn azure_metrics_updater(applications: &[AzureApplication], now: &Timestamp) -> (samples: Vec<
    ExpirySample,
>)
    ensures
        samples_of(samples@) == all_samples(applications_of(applications@), now@),
{
    let ghost listing = applications_of(applications@);
    let mut samples: Vec<ExpirySample> = Vec::new();
    let mut at: usize = 0;
    proof {
        assert(listing.take(0) == Seq::<Application>::empty());
        assert(samples_of(samples@) == Seq::<Sample>::empty());
    }
    while at < applications.len()
        invariant
            at <= applications.len(),
            listing == applications_of(applications@),
            samples_of(samples@) == all_samples(listing.take(at as int), now@),
        decreases applications.len() - at,
    {
        let application = &applications[at];
        let ghost before = samples_of(samples@);
        let ghost due = application_samples(application@, now@);
        let mut key: usize = 0;
        proof {
            assert(listing.take(at + 1).drop_last() == listing.take(at as int));
            assert(listing.take(at + 1).last() == application@);
            assert(before + due.take(0) == before);
        }
        while key < application.password_credentials.len()
            invariant
                key <= application.password_credentials.len(),
                due == application_samples(application@, now@),
                samples_of(samples@) == before + due.take(key as int),
            decreases application.password_credentials.len() - key,
        {
            let one = sample(application, &application.password_credentials[key], now);
            proof {
                assert(due[key as int] == one@);
                assert(due.take(key + 1) == due.take(key as int).push(one@));
                assert(samples_of(samples@.push(one)) == samples_of(samples@).push(one@));
            }
            samples.push(one);
            key += 1;
        }
        proof {
            assert(due.take(due.len() as int) == due);
        }
        at += 1;
    }
    proof {
        assert(listing.take(listing.len() as int) == listing);
    }
    samples
}

} // verus!
