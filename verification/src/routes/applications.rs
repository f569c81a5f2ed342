//! The cached applications, as the API lists them and looks them up.

use crate::cache::ResourceCache;
use crate::types::applications::AzureApplication;
use crate::utils::from_swagger_ui_header::FromSwaggerUi;
use vstd::prelude::*;

verus! {

/// How many applications the API browser is shown at most: more of them
/// would hang the page that renders them.
pub const SWAGGER_UI_LIMIT: usize = 50;

/// How many of `cached` applications are listed in answer to a request.
pub open spec fn listed(cached: nat, from_swagger: bool) -> nat {
    if from_swagger && cached > SWAGGER_UI_LIMIT {
        SWAGGER_UI_LIMIT as nat
    } else {
        cached
    }
}

/// The applications that are listed in answer to a request: all that the
/// cache holds, or, for the API browser, the first of them up to
/// [`SWAGGER_UI_LIMIT`]. Each one listed is an entry of the cache, and none
/// is listed twice.
pub fn get_all_applications(cache: &ResourceCache, from_swagger: Option<FromSwaggerUi>) -> (all:
    &[AzureApplication])
    ensures
        all@ == cache.spec_all().take(listed(cache.spec_all().len(), from_swagger is Some) as int),
        all@.len() == listed(cache@.len(), from_swagger is Some),
        forall|at: int|
            0 <= at < all@.len() ==> cache@.contains_key(#[trigger] all@[at].id@)
                && cache@[all@[at].id@] == all@[at]@,
        forall|at: int, other: int|
            0 <= at < other < all@.len() ==> #[trigger] all@[at].id@ != #[trigger] all@[other].id@,
        from_swagger is None || cache@.len() <= SWAGGER_UI_LIMIT ==> forall|id: Seq<char>| #[trigger]
            cache@.contains_key(id) ==> exists|at: int|
                0 <= at < all@.len() && #[trigger] all@[at].id@ == id,
{
    if from_swagger.is_some() {
        cache.first(SWAGGER_UI_LIMIT)
    } else {
        let all = cache.get_all();
        assert(all@.take(all@.len() as int) == all@);
        all
    }
}

/// The application that goes by `id`, or `None` where the cache holds
/// none: whether because there is none, or because the cache has not been
/// filled yet.
pub fn get_application_by_id<'a>(cache: &'a ResourceCache, id: &str) -> (found: Option<
    &'a AzureApplication,
>)
    ensures
        match found {
            Some(application) => cache@.contains_key(id@) && application@ == cache@[id@]
                && application@.id == id@,
            None => !cache@.contains_key(id@),
        },
{
    cache.get(id)
}

} // verus!
