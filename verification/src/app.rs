//! The application root: the router and the three pages it can show.
//!
//! Navigation maps the path to a route. Moving to a different route
//! shows that page afresh; staying on the same route only re-derives
//! what the URL binds (the search value), leaving superseded in-flight
//! fetches to the key comparison. A page issues its fetches when it is
//! shown; outcomes are delivered to the page that is showing, and land
//! or are dropped by key.

use vstd::prelude::*;

use crate::pages::{
    action_request, search_request, spec_login_fetch, spec_login_query_change, spec_open_home,
    spec_open_login, spec_open_user, spec_user_fetch, spec_user_query_change, FetchRequest,
    FetchTarget, HomePage, LoginPage, UserPage,
};
use crate::query::{spec_parse_query, spec_search_of};
use crate::resource::FetchOutcome;
use crate::router::{spec_route_of, Route, Router};

verus! {

/// The application: the current route and the state of each page.
pub struct App {
    pub router: Router,
    pub home: HomePage,
    pub login: LoginPage,
    pub users: UserPage,
}

impl App {
    /// Every page is internally consistent.
    pub open spec fn wf(&self) -> bool {
        &&& self.home.wf()
        &&& self.login.wf()
        &&& self.users.wf()
    }

    /// The initial state, determined by the initial URL: the route from
    /// its path, every page fresh under its query string, and the shown
    /// page's fetches in flight.
    pub fn start(path: &str, query: &str) -> (r: (App, Vec<FetchRequest>))
        ensures
            r.0.wf(),
            r.0.router.route == spec_route_of(path@),
            r.0.home == spec_open_home(),
            r.0.login == spec_open_login(spec_search_of(spec_parse_query(query@))),
            r.0.users == spec_open_user(spec_search_of(spec_parse_query(query@))),
            r.0.router.route is Users ==> r.1@ =~= seq![
                search_request(r.0.users.search),
                action_request(0),
            ],
            r.0.router.route is Login ==> r.1@ =~= seq![search_request(r.0.login.search)],
            r.0.router.route is Home || r.0.router.route is NotFound ==> r.1@
                =~= Seq::<FetchRequest>::empty(),
    {
        let router = Router::start(path);
        let home = HomePage::open();
        let (login, login_reqs) = LoginPage::open(query);
        let (users, user_reqs) = UserPage::open(query);
        let app = App { router, home, login, users };
        let reqs: Vec<FetchRequest> = match app.router.route {
            Route::Users => user_reqs,
            Route::Login => login_reqs,
            _ => Vec::new(),
        };
        (app, reqs)
    }

    /// Navigation. The route follows the path; a changed route shows
    /// its page afresh, an unchanged one forwards the query string to
    /// the page already showing. Only the shown page issues fetches.
    pub fn navigate(&mut self, path: &str, query: &str) -> (reqs: Vec<FetchRequest>)
        requires
            old(self).wf(),
        ensures
            final(self).wf(),
            final(self).router.route == spec_route_of(path@),
            final(self).home == (if spec_route_of(path@) is Home && !(old(self).router.route
                is Home) {
                spec_open_home()
            } else {
                old(self).home
            }),
            final(self).login == (if !(spec_route_of(path@) is Login) {
                old(self).login
            } else if old(self).router.route is Login {
                spec_login_query_change(
                    old(self).login,
                    spec_search_of(spec_parse_query(query@)),
                )
            } else {
                spec_open_login(spec_search_of(spec_parse_query(query@)))
            }),
            final(self).users == (if !(spec_route_of(path@) is Users) {
                old(self).users
            } else if old(self).router.route is Users {
                spec_user_query_change(old(self).users, spec_search_of(spec_parse_query(query@)))
            } else {
                spec_open_user(spec_search_of(spec_parse_query(query@)))
            }),
            spec_route_of(path@) is Home || spec_route_of(path@) is NotFound ==> reqs@
                =~= Seq::<FetchRequest>::empty(),
            spec_route_of(path@) is Login ==> reqs@ =~= (if old(self).router.route is Login {
                if final(self).login.search != old(self).login.search {
                    seq![search_request(final(self).login.search)]
                } else {
                    Seq::<FetchRequest>::empty()
                }
            } else {
                seq![search_request(final(self).login.search)]
            }),
            spec_route_of(path@) is Users ==> reqs@ =~= (if old(self).router.route is Users {
                if final(self).users.search != old(self).users.search {
                    seq![search_request(final(self).users.search)]
                } else {
                    Seq::<FetchRequest>::empty()
                }
            } else {
                seq![search_request(final(self).users.search), action_request(0)]
            }),
    {
        let was = self.router.route;
        self.router.navigate(path);
        match self.router.route {
            Route::Home => {
                if !matches!(was, Route::Home) {
                    self.home = HomePage::open();
                }
                Vec::new()
            },
            Route::Login => {
                if matches!(was, Route::Login) {
                    self.login.on_query_change(query)
                } else {
                    let (login, reqs) = LoginPage::open(query);
                    self.login = login;
                    reqs
                }
            },
            Route::Users => {
                if matches!(was, Route::Users) {
                    self.users.on_query_change(query)
                } else {
                    let (users, reqs) = UserPage::open(query);
                    self.users = users;
                    reqs
                }
            },
            Route::NotFound => Vec::new(),
        }
    }

    /// A fetch outcome arrived. It reaches the page that is showing; a
    /// page without the fetch's resource, or no page at all, drops it.
    pub fn on_fetch(&mut self, target: FetchTarget, key: i64, outcome: FetchOutcome)
        requires
            old(self).wf(),
        ensures
            final(self).wf(),
            final(self).router == old(self).router,
            final(self).home == old(self).home,
            final(self).users == (if old(self).router.route is Users {
                spec_user_fetch(old(self).users, target, key, outcome)
            } else {
                old(self).users
            }),
            final(self).login == (if old(self).router.route is Login && target is SearchResults {
                spec_login_fetch(old(self).login, key, outcome)
            } else {
                old(self).login
            }),
    {
        match self.router.route {
            Route::Users => self.users.on_fetch(target, key, outcome),
            Route::Login => {
                if matches!(target, FetchTarget::SearchResults) {
                    self.login.on_fetch(key, outcome);
                }
            },
            _ => {},
        }
    }

    /// Dispatching the multi-action of the shown page, if it has one.
    pub fn dispatch_add_two(&mut self) -> (reqs: Vec<FetchRequest>)
        requires
            old(self).wf(),
            old(self).users.add_two.version < i64::MAX,
            old(self).login.add_two.version < i64::MAX,
        ensures
            final(self).wf(),
            final(self).router == old(self).router,
            final(self).home == old(self).home,
            old(self).router.route is Users ==> {
                &&& final(self).users == crate::pages::spec_user_dispatch(old(self).users)
                &&& final(self).login == old(self).login
                &&& reqs@ =~= seq![action_request(final(self).users.add_two.version)]
            },
            old(self).router.route is Login ==> {
                &&& final(self).login.add_two.version == old(self).login.add_two.version + 1
                &&& final(self).login.search == old(self).login.search
                &&& final(self).login.search_results == old(self).login.search_results
                &&& final(self).users == old(self).users
                &&& reqs@ =~= Seq::<FetchRequest>::empty()
            },
            old(self).router.route is Home || old(self).router.route is NotFound ==> *final(self)
                == *old(self) && reqs@ =~= Seq::<FetchRequest>::empty(),
    {
        match self.router.route {
            Route::Users => self.users.dispatch_add_two(),
            Route::Login => {
                self.login.dispatch_add_two();
                Vec::new()
            },
            _ => Vec::new(),
        }
    }

    /// Whether a page view is rendered; on a routing miss the fallback
    /// error view is shown instead.
    pub fn renders_page(&self) -> (b: bool)
        ensures
            b == !(self.router.route is NotFound),
    {
        self.router.renders_page()
    }
}

} // verus!
