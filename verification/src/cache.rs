//! The applications that the last complete refresh found, by their id.

use crate::types::applications::{applications_of, Application, AzureApplication};
use vstd::hash_map::StringHashMap;
use vstd::prelude::*;

verus! {

/// The applications of a listing by their id. Of two with one id the later
/// stands.
pub open spec fn by_id(applications: Seq<Application>) -> Map<Seq<char>, Application>
    decreases applications.len(),
{
    if applications.len() == 0 {
        Map::empty()
    } else {
        by_id(applications.drop_last()).insert(applications.last().id, applications.last())
    }
}

/// Whether `index` tells of each id where in `entries` its application
/// stands, and of nothing else.
spec fn linked(entries: Seq<AzureApplication>, index: Map<Seq<char>, usize>) -> bool {
    &&& forall|id: Seq<char>| #[trigger]
        index.contains_key(id) ==> index[id] < entries.len() && entries[index[id] as int].id@
            == id
    &&& forall|at: int|
        0 <= at < entries.len() ==> index.contains_key(#[trigger] entries[at].id@)
            && index[entries[at].id@] == at
    &&& index.dom().finite()
    &&& index.dom().len() == entries.len()
}

/// The applications in `entries` by their id, as `index` finds them.
spec fn listing(entries: Seq<AzureApplication>, index: Map<Seq<char>, usize>) -> Map<
    Seq<char>,
    Application,
> {
    Map::new(|id: Seq<char>| index.contains_key(id), |id: Seq<char>| entries[index[id] as int]@)
}

/// The store of applications that the exporter serves and measures. It is
/// empty until the first refresh, and every refresh after that replaces it
/// whole: nothing in it is ever merged, aged or evicted.
pub struct ResourceCache {
    entries: Vec<AzureApplication>,
    index: StringHashMap<usize>,
}

impl View for ResourceCache {
    type V = Map<Seq<char>, Application>;

    closed spec fn view(&self) -> Map<Seq<char>, Application> {
        listing(self.entries@, self.index@)
    }
}

impl ResourceCache {
    #[verifier::type_invariant]
    spec fn well_formed(self) -> bool {
        linked(self.entries@, self.index@)
    }

    /// A cache that holds nothing.
    pub fn new() -> (cache: ResourceCache)
        ensures
            cache@ == Map::<Seq<char>, Application>::empty(),
    {
        let cache = ResourceCache { entries: Vec::new(), index: StringHashMap::new() };
        assert(cache@ =~= Map::<Seq<char>, Application>::empty());
        cache
    }

    /// Puts `new_entries` in the place of all that the cache held: after the
    /// call it holds them and nothing of what it held before.
    pub fn replace_all(&mut self, new_entries: Vec<AzureApplication>)
        ensures
            final(self)@ == by_id(applications_of(new_entries@)),
    {
        let ghost incoming = applications_of(new_entries@);
        let mut entries: Vec<AzureApplication> = Vec::new();
        let mut index: StringHashMap<usize> = StringHashMap::new();
        proof {
            assert(incoming.take(0) == Seq::<Application>::empty());
            assert(listing(entries@, index@) =~= by_id(incoming.take(0)));
        }
        for application in iter: new_entries
            invariant
                incoming == applications_of(new_entries@),
                iter.seq() == new_entries@,
                linked(entries@, index@),
                listing(entries@, index@) == by_id(incoming.take(iter.index() as int)),
        {
            let ghost done = iter.index() as int;
            let ghost before = entries@;
            let ghost found = index@;
            proof {
                assert(incoming.take(done + 1).drop_last() == incoming.take(done));
                assert(incoming.take(done + 1).last() == application@);
            }
            let place: Option<usize> = match index.get(application.id.as_str()) {
                Some(place) => Some(*place),
                None => None,
            };
            match place {
                Some(place) => {
                    entries.set(place, application);
                },
                None => {
                    index.insert(application.id.clone(), entries.len());
                    entries.push(application);
                },
            }
            proof {
                assert(linked(entries@, index@));
                assert(listing(entries@, index@) =~= listing(before, found).insert(
                    application@.id,
                    application@,
                ));
            }
        }
        proof {
            assert(incoming.take(incoming.len() as int) == incoming);
        }
        *self = ResourceCache { entries, index };
    }

    /// The application that goes by `id`, if the cache holds one.
    pub fn get(&self, id: &str) -> (found: Option<&AzureApplication>)
        ensures
            match found {
                Some(application) => self@.contains_key(id@) && application@ == self@[id@]
                    && application@.id == id@,
                None => !self@.contains_key(id@),
            },
    {
        proof {
            use_type_invariant(self);
        }
        match self.index.get(id) {
            Some(place) => Some(&self.entries[*place]),
            None => None,
        }
    }

    /// How many applications the cache holds.
    pub fn len(&self) -> (len: usize)
        ensures
            len == self@.len(),
            self@.dom().finite(),
    {
        proof {
            use_type_invariant(self);
            assert(self@.dom() =~= self.index@.dom());
        }
        self.entries.len()
    }

    /// Whether the cache holds nothing, as it does until the first refresh.
    pub fn is_empty(&self) -> (empty: bool)
        ensures
            empty <==> self@ == Map::<Seq<char>, Application>::empty(),
    {
        proof {
            use_type_invariant(self);
            assert(self@.dom() =~= self.index@.dom());
            if self.entries@.len() == 0 {
                assert(self@ =~= Map::<Seq<char>, Application>::empty());
            }
        }
        self.entries.len() == 0
    }

    /// All that the cache holds: each application once, in no order that
    /// means anything.
    pub fn get_all(&self) -> (all: &[AzureApplication])
        ensures
            all@.len() == self@.len(),
            forall|at: int|
                0 <= at < all@.len() ==> self@.contains_key(#[trigger] all@[at].id@)
                    && self@[all@[at].id@] == all@[at]@,
            forall|at: int, other: int|
                0 <= at < other < all@.len() ==> #[trigger] all@[at].id@
                    != #[trigger] all@[other].id@,
            forall|id: Seq<char>| #[trigger]
                self@.contains_key(id) ==> exists|at: int|
                    0 <= at < all@.len() && #[trigger] all@[at].id@ == id,
            all@ == self.spec_all(),
    {
        proof {
            use_type_invariant(self);
            assert(self@.dom() =~= self.index@.dom());
            assert forall|id: Seq<char>| #[trigger] self@.contains_key(id) implies exists|at: int|
                0 <= at < self.entries@.len() && #[trigger] self.entries@[at].id@ == id by {
                let at = self.index@[id] as int;
                assert(self.entries@[at].id@ == id);
            }
        }
        self.entries.as_slice()
    }

    /// The first `limit` of the applications that [`get_all`](Self::get_all)
    /// lists, or all of them where there are no more: so many entries of
    /// the cache, each once.
    pub fn first(&self, limit: usize) -> (some: &[AzureApplication])
        ensures
            some@ == self.spec_all().take(
                if limit <= self.spec_all().len() {
                    limit as int
                } else {
                    self.spec_all().len() as int
                },
            ),
            some@.len() == if limit <= self@.len() {
                limit as nat
            } else {
                self@.len()
            },
            forall|at: int|
                0 <= at < some@.len() ==> self@.contains_key(#[trigger] some@[at].id@)
                    && self@[some@[at].id@] == some@[at]@,
            forall|at: int, other: int|
                0 <= at < other < some@.len() ==> #[trigger] some@[at].id@
                    != #[trigger] some@[other].id@,
            limit >= self@.len() ==> forall|id: Seq<char>| #[trigger]
                self@.contains_key(id) ==> exists|at: int|
                    0 <= at < some@.len() && #[trigger] some@[at].id@ == id,
    {
        let all = self.get_all();
        let upto: usize = if limit <= all.len() {
            limit
        } else {
            all.len()
        };
        let some = vstd::slice::slice_subrange(all, 0, upto);
        proof {
            assert(some@ == all@.take(upto as int));
            assert forall|at: int| 0 <= at < some@.len() implies some@[at] == all@[at] by {}
            if limit >= self@.len() {
                assert(some@ == all@);
            }
        }
        some
    }

    /// What [`get_all`](Self::get_all) lists.
    pub closed spec fn spec_all(&self) -> Seq<AzureApplication> {
        self.entries@
    }
}

/// What a listing of applications holds by id: an id is found if and only
/// if an application of the listing goes by it, and what is found is the
/// last such application. Nothing else is found: a cache that was replaced
/// holds nothing of what it held before.
pub proof fn lemma_by_id(applications: Seq<Application>, id: Seq<char>)
    ensures
        by_id(applications).dom().finite(),
        by_id(applications).contains_key(id) <==> exists|at: int|
            0 <= at < applications.len() && #[trigger] applications[at].id == id,
        by_id(applications).contains_key(id) ==> exists|at: int|
            0 <= at < applications.len() && #[trigger] applications[at].id == id && by_id(
                applications,
            )[id] == applications[at] && forall|later: int|
                at < later < applications.len() ==> #[trigger] applications[later].id != id,
    decreases applications.len(),
{
    if applications.len() > 0 {
        let before = applications.drop_last();
        let last = applications.len() - 1;
        lemma_by_id(before, id);
        assert forall|at: int| 0 <= at < before.len() implies before[at] == applications[at] by {}
        if applications[last].id == id {
            assert(by_id(applications)[id] == applications[last]);
        } else if by_id(before).contains_key(id) {
            let at = choose|at: int|
                0 <= at < before.len() && #[trigger] before[at].id == id && by_id(before)[id]
                    == before[at] && forall|later: int|
                    at < later < before.len() ==> #[trigger] before[later].id != id;
            assert(applications[at].id == id);
            assert forall|later: int| at < later < applications.len() implies #[trigger] applications[later].id
                != id by {
                if later < before.len() {
                    assert(before[later].id != id);
                }
            }
        } else {
            if exists|at: int| 0 <= at < applications.len() && #[trigger] applications[at].id == id {
                let at = choose|at: int|
                    0 <= at < applications.len() && #[trigger] applications[at].id == id;
                assert(before[at].id == id);
            }
        }
    }
}

/// A listing in which no id occurs twice is held one for one.
pub proof fn lemma_by_id_distinct(applications: Seq<Application>)
    requires
        forall|at: int, other: int|
            0 <= at < other < applications.len() ==> #[trigger] applications[at].id
                != #[trigger] applications[other].id,
    ensures
        by_id(applications).len() == applications.len(),
        forall|at: int|
            0 <= at < applications.len() ==> by_id(applications).contains_key(
                #[trigger] applications[at].id,
            ) && by_id(applications)[applications[at].id] == applications[at],
    decreases applications.len(),
{
    if applications.len() > 0 {
        let before = applications.drop_last();
        let last = applications.len() - 1;
        assert forall|at: int| 0 <= at < before.len() implies before[at] == applications[at] by {}
        lemma_by_id_distinct(before);
        lemma_by_id(before, applications[last].id);
        assert(!by_id(before).contains_key(applications[last].id)) by {
            if by_id(before).contains_key(applications[last].id) {
                let at = choose|at: int|
                    0 <= at < before.len() && #[trigger] before[at].id == applications[last].id;
                assert(applications[at].id != applications[last].id);
            }
        }
        assert forall|at: int| 0 <= at < applications.len() implies by_id(
            applications,
        ).contains_key(#[trigger] applications[at].id) && by_id(applications)[applications[at].id]
            == applications[at] by {
            if at < last {
                assert(before[at] == applications[at]);
                assert(applications[at].id != applications[last].id);
            }
        }
    }
}

} // verus!
