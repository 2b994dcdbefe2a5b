//! The page views, as state machines.
//!
//! Each page holds the state its view renders: the search value derived
//! from the URL query string, the resources that cache the remote
//! add-two results, and, on the users page, the multi-action whose
//! version counter keys the second resource. Every transition is also
//! written as a spec function, so that the application root and the
//! proved laws can speak about whole histories of events. The host
//! performs the [`FetchRequest`]s a transition returns and hands each
//! outcome back through the page's fetch handler.

use vstd::prelude::*;

use crate::action::MultiAction;
use crate::query::{parse_query, search_value, spec_parse_query, spec_search_of};
use crate::resource::{spec_resolve, spec_set_key, FetchOutcome, FetchState, Resource};

verus! {

/// Which resource of a page a fetch was issued for.
#[derive(Clone, Copy, PartialEq, Eq, Structural, Debug)]
pub enum FetchTarget {
    SearchResults,
    ActionResults,
}

/// A fetch the host must perform: call the remote add-two operation on
/// `(x, y)` and hand the outcome back under the same target and key.
#[derive(Clone, Copy, PartialEq, Eq, Structural, Debug)]
pub struct FetchRequest {
    pub target: FetchTarget,
    pub key: i64,
    pub x: i32,
    pub y: i32,
}

/// The fetch a search-keyed resource schedules for search value `q`:
/// add the search value to itself.
pub open spec fn search_request(q: i32) -> FetchRequest {
    FetchRequest { target: FetchTarget::SearchResults, key: q as i64, x: q, y: q }
}

/// The fetch the action-keyed resource schedules: add 1 and 2,
/// unconditionally. The point is the refresh after a dispatch, not the
/// values.
pub open spec fn action_request(version: i64) -> FetchRequest {
    FetchRequest { target: FetchTarget::ActionResults, key: version, x: 1, y: 2 }
}

/// The home page: a greeting and a local click counter — pure UI state,
/// neither persisted nor shared.
pub struct HomePage {
    pub count: i32,
}

/// A freshly shown home page.
pub open spec fn spec_open_home() -> HomePage {
    HomePage { count: 0 }
}

impl HomePage {
    /// The counter never goes below its starting value.
    pub open spec fn wf(&self) -> bool {
        0 <= self.count
    }

    /// A freshly shown home page: the counter starts at zero.
    pub fn open() -> (r: HomePage)
        ensures
            r == spec_open_home(),
            r.wf(),
    {
        HomePage { count: 0 }
    }

    /// A click increments the counter by exactly one.
    pub fn click(&mut self)
        requires
            old(self).wf(),
            old(self).count < i32::MAX,
        ensures
            final(self).wf(),
            final(self).count == old(self).count + 1,
    {
        self.count = self.count + 1;
    }

    /// The doubled counter the greeting line displays.
    pub fn doubled(&self) -> (r: i32)
        requires
            self.wf(),
            2 * self.count <= i32::MAX,
        ensures
            r == 2 * self.count,
    {
        self.count * 2
    }
}

/// The login page: a search field bound to the `q` parameter, a
/// resource keyed on the search value, and a multi-action nothing
/// depends on. The password field is read but never transmitted, so it
/// keeps no state here.
pub struct LoginPage {
    pub search: i32,
    pub search_results: Resource,
    pub add_two: MultiAction,
}

/// A login page freshly opened under search value `q`: its resource is
/// keyed on `q` and loading.
pub open spec fn spec_open_login(q: i32) -> LoginPage {
    LoginPage {
        search: q,
        search_results: Resource { key: q as i64, state: FetchState::Loading },
        add_two: MultiAction { version: 0 },
    }
}

/// The login page after the query string re-derived the search value as
/// `q`: the resource keeps its cache entry exactly when the key did not
/// change.
pub open spec fn spec_login_query_change(p: LoginPage, q: i32) -> LoginPage {
    LoginPage {
        search: q,
        search_results: spec_set_key(p.search_results, q as i64),
        add_two: p.add_two,
    }
}

/// The login page after its search fetch for `key` resolved.
pub open spec fn spec_login_fetch(p: LoginPage, key: i64, outcome: FetchOutcome) -> LoginPage {
    LoginPage {
        search: p.search,
        search_results: spec_resolve(p.search_results, key, outcome),
        add_two: p.add_two,
    }
}

impl LoginPage {
    /// The search resource is keyed by the current search value.
    pub open spec fn wf(&self) -> bool {
        &&& self.search_results.key == self.search as i64
        &&& 0 <= self.add_two.version
    }

    /// Opens the page under a URL query string: the search resource
    /// starts loading, with its first fetch in flight.
    pub fn open(query: &str) -> (r: (LoginPage, Vec<FetchRequest>))
        ensures
            r.0 == spec_open_login(spec_search_of(spec_parse_query(query@))),
            r.0.wf(),
            r.1@ =~= seq![search_request(r.0.search)],
    {
        let qm = parse_query(query);
        let q = search_value(&qm);
        let page = LoginPage {
            search: q,
            search_results: Resource::init(q as i64),
            add_two: MultiAction::new(),
        };
        let mut reqs: Vec<FetchRequest> = Vec::new();
        reqs.push(FetchRequest { target: FetchTarget::SearchResults, key: q as i64, x: q, y: q });
        (page, reqs)
    }

    /// The URL query string changed. The search value is re-derived;
    /// exactly when it changed by equality, the search resource
    /// invalidates and one fetch is scheduled for the new value.
    pub fn on_query_change(&mut self, query: &str) -> (reqs: Vec<FetchRequest>)
        requires
            old(self).wf(),
        ensures
            *final(self) == spec_login_query_change(
                *old(self),
                spec_search_of(spec_parse_query(query@)),
            ),
            final(self).wf(),
            final(self).search != old(self).search ==> reqs@ =~= seq![
                search_request(final(self).search),
            ],
            final(self).search == old(self).search ==> reqs@ =~= Seq::<FetchRequest>::empty(),
    {
        let qm = parse_query(query);
        let q = search_value(&qm);
        self.search = q;
        let refetch = self.search_results.set_key(q as i64);
        let mut reqs: Vec<FetchRequest> = Vec::new();
        if refetch {
            reqs.push(
                FetchRequest { target: FetchTarget::SearchResults, key: q as i64, x: q, y: q },
            );
        }
        reqs
    }

    /// A fetch for the search resource resolved; it displays only if
    /// its key is still the current search value.
    pub fn on_fetch(&mut self, key: i64, outcome: FetchOutcome)
        requires
            old(self).wf(),
        ensures
            *final(self) == spec_login_fetch(*old(self), key, outcome),
            final(self).wf(),
    {
        self.search_results.resolve(key, outcome);
    }

    /// Dispatching the page's multi-action: the version counter grows
    /// by exactly one; no resource here depends on it.
    pub fn dispatch_add_two(&mut self)
        requires
            old(self).wf(),
            old(self).add_two.version < i64::MAX,
        ensures
            final(self).wf(),
            final(self).add_two.version == old(self).add_two.version + 1,
            final(self).search == old(self).search,
            final(self).search_results == old(self).search_results,
    {
        self.add_two.dispatch();
    }
}

/// The users page: the same search field and search-keyed resource as
/// the login page, plus a resource keyed on the multi-action's version
/// counter, refreshed once per dispatch.
pub struct UserPage {
    pub search: i32,
    pub search_results: Resource,
    pub add_two: MultiAction,
    pub res: Resource,
}

/// A users page freshly opened under search value `q`: both resources
/// loading, the second keyed on a never-dispatched counter.
pub open spec fn spec_open_user(q: i32) -> UserPage {
    UserPage {
        search: q,
        search_results: Resource { key: q as i64, state: FetchState::Loading },
        add_two: MultiAction { version: 0 },
        res: Resource { key: 0, state: FetchState::Loading },
    }
}

/// The users page after the query string re-derived the search value as
/// `q`; the action-keyed resource is untouched.
pub open spec fn spec_user_query_change(p: UserPage, q: i32) -> UserPage {
    UserPage {
        search: q,
        search_results: spec_set_key(p.search_results, q as i64),
        add_two: p.add_two,
        res: p.res,
    }
}

/// The users page after a fetch resolved: the outcome lands in the
/// resource it was issued for.
pub open spec fn spec_user_fetch(
    p: UserPage,
    target: FetchTarget,
    key: i64,
    outcome: FetchOutcome,
) -> UserPage {
    match target {
        FetchTarget::SearchResults => UserPage {
            search: p.search,
            search_results: spec_resolve(p.search_results, key, outcome),
            add_two: p.add_two,
            res: p.res,
        },
        FetchTarget::ActionResults => UserPage {
            search: p.search,
            search_results: p.search_results,
            add_two: p.add_two,
            res: spec_resolve(p.res, key, outcome),
        },
    }
}

/// The users page after one dispatch of the multi-action.
pub open spec fn spec_user_dispatch(p: UserPage) -> UserPage {
    UserPage {
        search: p.search,
        search_results: p.search_results,
        add_two: MultiAction { version: (p.add_two.version + 1) as i64 },
        res: spec_set_key(p.res, (p.add_two.version + 1) as i64),
    }
}

impl UserPage {
    /// Each resource is keyed by the current value of its key selector.
    pub open spec fn wf(&self) -> bool {
        &&& self.search_results.key == self.search as i64
        &&& self.res.key == self.add_two.version
        &&& 0 <= self.add_two.version
    }

    /// Opens the page under a URL query string: both resources start
    /// loading, with one fetch in flight each.
    pub fn open(query: &str) -> (r: (UserPage, Vec<FetchRequest>))
        ensures
            r.0 == spec_open_user(spec_search_of(spec_parse_query(query@))),
            r.0.wf(),
            r.1@ =~= seq![search_request(r.0.search), action_request(0)],
    {
        let qm = parse_query(query);
        let q = search_value(&qm);
        let page = UserPage {
            search: q,
            search_results: Resource::init(q as i64),
            add_two: MultiAction::new(),
            res: Resource::init(0),
        };
        let mut reqs: Vec<FetchRequest> = Vec::new();
        reqs.push(FetchRequest { target: FetchTarget::SearchResults, key: q as i64, x: q, y: q });
        reqs.push(FetchRequest { target: FetchTarget::ActionResults, key: 0, x: 1, y: 2 });
        (page, reqs)
    }

    /// The URL query string changed. The search value is re-derived;
    /// exactly when it changed by equality, the search resource
    /// invalidates and one fetch is scheduled for the new value. The
    /// action-keyed resource is untouched.
    pub fn on_query_change(&mut self, query: &str) -> (reqs: Vec<FetchRequest>)
        requires
            old(self).wf(),
        ensures
            *final(self) == spec_user_query_change(
                *old(self),
                spec_search_of(spec_parse_query(query@)),
            ),
            final(self).wf(),
            final(self).search != old(self).search ==> reqs@ =~= seq![
                search_request(final(self).search),
            ],
            final(self).search == old(self).search ==> reqs@ =~= Seq::<FetchRequest>::empty(),
    {
        let qm = parse_query(query);
        let q = search_value(&qm);
        self.search = q;
        let refetch = self.search_results.set_key(q as i64);
        let mut reqs: Vec<FetchRequest> = Vec::new();
        if refetch {
            reqs.push(
                FetchRequest { target: FetchTarget::SearchResults, key: q as i64, x: q, y: q },
            );
        }
        reqs
    }

    /// Dispatching the multi-action: the version counter grows by
    /// exactly one, so the resource keyed on it invalidates and exactly
    /// one re-fetch is scheduled — once per dispatch, never zero, never
    /// two.
    pub fn dispatch_add_two(&mut self) -> (reqs: Vec<FetchRequest>)
        requires
            old(self).wf(),
            old(self).add_two.version < i64::MAX,
        ensures
            *final(self) == spec_user_dispatch(*old(self)),
            final(self).wf(),
            final(self).add_two.version == old(self).add_two.version + 1,
            final(self).res.state is Loading,
            reqs@ =~= seq![action_request(final(self).add_two.version)],
    {
        self.add_two.dispatch();
        let version = self.add_two.version();
        let refetch = self.res.set_key(version);
        // the version is fresh, so the dependent resource always re-fetches
        assert(refetch);
        let mut reqs: Vec<FetchRequest> = Vec::new();
        reqs.push(FetchRequest { target: FetchTarget::ActionResults, key: version, x: 1, y: 2 });
        reqs
    }

    /// A fetch resolved. The outcome lands in the resource it was
    /// issued for, and displays only if its key is still current; a
    /// superseded fetch changes nothing.
    pub fn on_fetch(&mut self, target: FetchTarget, key: i64, outcome: FetchOutcome)
        requires
            old(self).wf(),
        ensures
            *final(self) == spec_user_fetch(*old(self), target, key, outcome),
            final(self).wf(),
    {
        match target {
            FetchTarget::SearchResults => self.search_results.resolve(key, outcome),
            FetchTarget::ActionResults => self.res.resolve(key, outcome),
        }
    }
}

/// Last key wins, at page level. After the query string moved the
/// search value from `q1` on to `q2`, the fetch issued for `q1` and the
/// one issued for `q2` may resolve in either order: both orders leave
/// the same page, and what its search resource displays is the outcome
/// for `q2` — never the superseded one for `q1`.
pub proof fn lemma_user_search_last_key_wins(
    p: UserPage,
    q1: i32,
    q2: i32,
    o1: FetchOutcome,
    o2: FetchOutcome,
)
    requires
        p.wf(),
        q1 != q2,
    ensures
        ({
            let shown = spec_user_query_change(spec_user_query_change(p, q1), q2);
            let first_stale = spec_user_fetch(
                spec_user_fetch(shown, FetchTarget::SearchResults, q1 as i64, o1),
                FetchTarget::SearchResults,
                q2 as i64,
                o2,
            );
            let first_current = spec_user_fetch(
                spec_user_fetch(shown, FetchTarget::SearchResults, q2 as i64, o2),
                FetchTarget::SearchResults,
                q1 as i64,
                o1,
            );
            first_stale == first_current && first_stale.search_results.state
                == crate::resource::state_of_outcome(o2)
        }),
{
    let shown = spec_user_query_change(spec_user_query_change(p, q1), q2);
    crate::resource::lemma_last_key_wins(shown.search_results, q1 as i64, q2 as i64, o1, o2);
}

} // verus!
